//! The values exchanged with the remote side, and the foreign-safe
//! record shape their sequences are marshalled into.

use vstd::prelude::*;

verus! {

use crate::error::NetXFFIError;
use crate::marshal::{ascii_bytes, cstr_bytes, cstr_wf, marshalable, to_cstr};

/// The login request: carries the display name.
#[derive(Clone, Debug)]
pub struct LogOn {
    pub nickname: String,
}

/// The login response: a success flag and a human-readable message.
#[derive(Clone, Debug)]
pub struct LogOnRes {
    pub success: bool,
    pub msg: String,
}

/// One connected session as the remote side reports it.
#[derive(Clone, Debug)]
pub struct User {
    pub nickname: String,
    pub sessionid: i64,
}

/// The foreign-safe record of one session: the display name as an
/// owned, null-terminated ASCII view, and the 64-bit session
/// identifier. The backing allocation is owned per record, so records
/// of reentrant calls never alias.
#[derive(Clone, Debug)]
pub struct CUser {
    pub nickname: Vec<u8>,
    pub session_id: i64,
}

impl CUser {
    /// A record is well-formed when its name view is a well-formed
    /// foreign-safe text view.
    pub open spec fn wf(self) -> bool {
        cstr_wf(self.nickname@)
    }

    /// Whether this record is the marshalled image of the given session:
    /// the name is carried losslessly into the null-terminated view and
    /// the session identifier is kept as it is.
    pub open spec fn is_view_of(self, u: User) -> bool {
        &&& self.nickname@ == cstr_bytes(ascii_bytes(u.nickname@))
        &&& self.session_id == u.sessionid
    }

    /// Marshals one session into its foreign-safe record.
    ///
    /// The display name is validated: a name that is not null-free
    /// ASCII yields no record.
    pub fn from_user(u: &User) -> (r: Result<CUser, NetXFFIError>)
        ensures
            r is Ok <==> marshalable(u.nickname@),
            r matches Ok(c) ==> c.is_view_of(*u) && c.wf(),
            r matches Err(e) ==> e == NetXFFIError::NullPassed,
    {
        let nickname = to_cstr(u.nickname.as_str())?;
        proof {
            crate::marshal::lemma_cstr_bytes_wf(ascii_bytes(u.nickname@));
        }
        Ok(CUser { nickname, session_id: u.sessionid })
    }
}

} // verus!
