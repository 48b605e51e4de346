//! The remote interface as a closed, tag-addressed dispatch table: one
//! descriptor per remote operation, each bound to a fixed numeric tag.
//!
//! The tag values are part of the wire contract and must never be
//! reassigned; adding an operation means adding a new unused tag.

use vstd::prelude::*;

verus! {

use crate::packer::LogOn;

/// One remote call, ready to be sent as a tagged frame: the closed set
/// of operations the remote interface offers, each with its typed
/// argument payload.
#[derive(Clone, Debug)]
pub enum Request {
    /// Log a display name in; the response carries a flag and message.
    Login(LogOn),
    /// Ask for the roster of currently connected sessions.
    GetUsers,
    /// Broadcast a text to every online user.
    Talk(String),
    /// Send a text to one target session.
    To(String, String),
    /// Ask the target to echo a timestamp back.
    Ping(String, i64),
}

impl Request {
    /// The fixed tag each operation is addressed by on the wire.
    pub open spec fn spec_tag(self) -> u32 {
        match self {
            Request::Login(_) => 1000u32,
            Request::GetUsers => 1001u32,
            Request::Talk(_) => 1002u32,
            Request::To(_, _) => 1003u32,
            Request::Ping(_, _) => 1004u32,
        }
    }

    /// Returns the tag this request is routed by.
    pub fn tag(&self) -> (t: u32)
        ensures
            t == self.spec_tag(),
    {
        match *self {
            Request::Login(_) => 1000u32,
            Request::GetUsers => 1001u32,
            Request::Talk(_) => 1002u32,
            Request::To(_, _) => 1003u32,
            Request::Ping(_, _) => 1004u32,
        }
    }
}

/// Tag uniqueness: two requests share a tag only when they are the same
/// operation, so a response routed by tag reaches the right awaiting
/// call.
pub proof fn lemma_tags_route_operations(r1: Request, r2: Request)
    requires
        r1.spec_tag() == r2.spec_tag(),
    ensures
        (r1 is Login) == (r2 is Login),
        (r1 is GetUsers) == (r2 is GetUsers),
        (r1 is Talk) == (r2 is Talk),
        (r1 is To) == (r2 is To),
        (r1 is Ping) == (r2 is Ping),
{
}

} // verus!
