//! The decision core of the gateway facade: argument validation,
//! request preparation, response marshalling, and the mapping of every
//! outcome onto the closed error enumeration. The unverified shell
//! around the library only executes the transport calls these
//! functions prepare, and hands their results back in.

use vstd::prelude::*;

verus! {

use crate::error::NetXFFIError;
use crate::interface_server::Request;
use crate::marshal::{ascii_bytes, cstr_bytes, marshalable, to_cstr};
use crate::packer::{CUser, LogOn, LogOnRes, User};

/// Whether a configuration text parses into the transport's connection
/// options.
pub uninterp spec fn server_option_parses(s: Seq<char>) -> bool;

/// The transport's connection options: server address, service name,
/// verification key and request timeout.
#[verifier::external_type_specification]
#[verifier::external_body]
pub struct ExServerOption(netxclient::client::ServerOption);

/// The error type in which the configuration parser reports a
/// malformed text.
#[verifier::external_type_specification]
#[verifier::external_body]
pub struct ExSerdeJsonError(serde_json::Error);

/// Relies on serde_json::from_str::<ServerOption>: whether a
/// configuration text parses is a function of the text alone.
#[verifier::external_body]
fn parse_server_option(s: &str) -> (r: Result<
    netxclient::client::ServerOption,
    serde_json::Error,
>)
    ensures
        r is Ok == server_option_parses(s@),
{
    serde_json::from_str::<netxclient::client::ServerOption>(s)
}

/// The compute part of constructing the gateway: validates and parses
/// the configuration text into the transport's connection options.
///
/// A null text resolves to the null-argument discriminant; a text that
/// does not parse resolves to the wrapped-error discriminant.
pub fn new_by_config(config: Option<&str>) -> (r: Result<
    netxclient::client::ServerOption,
    NetXFFIError,
>)
    ensures
        config is None ==> (r matches Err(e) && e == NetXFFIError::NullPassed),
        config matches Some(s) ==> {
            &&& r is Ok <==> server_option_parses(s@)
            &&& (r matches Err(e) ==> e == NetXFFIError::AnyHowError)
        },
{
    match config {
        None => Err(NetXFFIError::NullPassed),
        Some(s) => match parse_server_option(s) {
            Ok(opt) => Ok(opt),
            Err(_) => Err(NetXFFIError::AnyHowError),
        },
    }
}

/// Prepares the login request: a null display name resolves to the
/// null-argument discriminant before any remote call; otherwise the
/// request carries the name on the login tag.
pub fn prepare_login(nickname: Option<&str>) -> (r: Result<Request, NetXFFIError>)
    ensures
        nickname is None <==> (r matches Err(e) && e == NetXFFIError::NullPassed),
        nickname matches Some(s) ==> (r matches Ok(q) && q matches Request::Login(l)
            && l.nickname@ == s@),
        r matches Ok(q) ==> q.spec_tag() == 1000,
{
    match nickname {
        None => Err(NetXFFIError::NullPassed),
        Some(s) => Ok(Request::Login(LogOn { nickname: s.to_owned() })),
    }
}

/// Prepares the roster request; it takes no argument and always
/// succeeds, on the roster tag.
pub fn prepare_get_users() -> (q: Request)
    ensures
        q is GetUsers,
        q.spec_tag() == 1001,
{
    Request::GetUsers
}

/// Prepares the broadcast request: a null text resolves to the
/// null-argument discriminant before any remote call.
pub fn prepare_talk(msg: Option<&str>) -> (r: Result<Request, NetXFFIError>)
    ensures
        msg is None <==> (r matches Err(e) && e == NetXFFIError::NullPassed),
        msg matches Some(m) ==> (r matches Ok(q) && q matches Request::Talk(t) && t@ == m@),
        r matches Ok(q) ==> q.spec_tag() == 1002,
{
    match msg {
        None => Err(NetXFFIError::NullPassed),
        Some(m) => Ok(Request::Talk(m.to_owned())),
    }
}

/// Prepares the targeted-message request: a null target or a null text
/// resolves to the null-argument discriminant before any remote call.
pub fn prepare_to(target: Option<&str>, msg: Option<&str>) -> (r: Result<Request, NetXFFIError>)
    ensures
        (target is None || msg is None) <==> (r matches Err(e) && e == NetXFFIError::NullPassed),
        target matches Some(t) ==> msg matches Some(m) ==> (r matches Ok(q)
            && q matches Request::To(a, b) && a@ == t@ && b@ == m@),
        r matches Ok(q) ==> q.spec_tag() == 1003,
{
    match (target, msg) {
        (Some(t), Some(m)) => Ok(Request::To(t.to_owned(), m.to_owned())),
        _ => Err(NetXFFIError::NullPassed),
    }
}

/// Prepares the fire-and-forget echo request: a null target resolves to
/// the null-argument discriminant before anything is scheduled.
pub fn prepare_ping(target: Option<&str>, time: i64) -> (r: Result<Request, NetXFFIError>)
    ensures
        target is None <==> (r matches Err(e) && e == NetXFFIError::NullPassed),
        target matches Some(t) ==> (r matches Ok(q) && q matches Request::Ping(a, tm)
            && a@ == t@ && tm == time),
        r matches Ok(q) ==> q.spec_tag() == 1004,
{
    match target {
        None => Err(NetXFFIError::NullPassed),
        Some(t) => Ok(Request::Ping(t.to_owned(), time)),
    }
}

/// The outcome of the connectivity probe: a transport failure during
/// the probe resolves to the not-connected discriminant, and to
/// nothing else.
pub fn connect_outcome(probe: Result<(), anyhow::Error>) -> (r: Result<(), NetXFFIError>)
    ensures
        probe is Ok <==> r is Ok,
        r matches Err(e) ==> e == NetXFFIError::NotConnect,
{
    match probe {
        Ok(()) => Ok(()),
        Err(_) => Err(NetXFFIError::NotConnect),
    }
}

/// The outcome of a blocking call without a result payload: any
/// internal failure resolves to the wrapped-error discriminant.
pub fn call_outcome(res: Result<(), anyhow::Error>) -> (r: Result<(), NetXFFIError>)
    ensures
        res is Ok <==> r is Ok,
        r matches Err(e) ==> e == NetXFFIError::AnyHowError,
{
    match res {
        Ok(()) => Ok(()),
        Err(e) => Err(NetXFFIError::from(e)),
    }
}

/// What the login call hands its callback: the remote success flag as a
/// small integer, and the message as a fresh foreign-safe view. The
/// callback is invoked at most once per call: a failed remote call, or
/// a message that cannot be marshalled, yields no invocation at all.
pub fn login_action(res: Result<LogOnRes, anyhow::Error>) -> (r: Option<(u8, Vec<u8>)>)
    ensures
        r is Some <==> (res matches Ok(v) && marshalable(v.msg@)),
        r matches Some(p) ==> (res matches Ok(v) && p.0 == (if v.success {
            1u8
        } else {
            0u8
        }) && p.1@ == cstr_bytes(ascii_bytes(v.msg@))),
{
    match res {
        Ok(v) => {
            let flag: u8 = if v.success {
                1
            } else {
                0
            };
            match to_cstr(v.msg.as_str()) {
                Ok(msg) => Some((flag, msg)),
                Err(_) => None,
            }
        },
        Err(_) => None,
    }
}

/// The boolean a login call returns: exactly the callback's own return
/// value when the callback was invoked, and the failure sentinel when
/// it was not.
pub open spec fn login_result(cb: Option<bool>) -> bool {
    match cb {
        Some(b) => b,
        None => false,
    }
}

/// Returns what the login call reports to the foreign caller, from
/// whether the callback ran and what it returned.
pub fn login_return(cb: Option<bool>) -> (r: bool)
    ensures
        r == login_result(cb),
{
    match cb {
        Some(b) => b,
        None => false,
    }
}

/// The law of the login contract: whenever the callback is invoked,
/// the call returns exactly the callback's own return value, whatever
/// that value is.
pub proof fn lemma_login_returns_callback_value(cb_ret: bool)
    ensures
        login_result(Some(cb_ret)) == cb_ret,
{
}

/// Marshals the roster response: one foreign-safe record per reported
/// session, in exactly the response order, with no record added or
/// dropped.
///
/// A failed remote call resolves to the wrapped-error discriminant; a
/// session name that cannot be marshalled resolves to the caught-panic
/// discriminant, as a contained unwind at the boundary would.
pub fn get_users_marshal(res: Result<Vec<User>, anyhow::Error>) -> (r: Result<
    Vec<CUser>,
    NetXFFIError,
>)
    ensures
        res matches Err(_) ==> (r matches Err(e) && e == NetXFFIError::AnyHowError),
        res matches Ok(users) ==> {
            &&& (r is Ok <==> (forall|i: int|
                0 <= i < users@.len() ==> marshalable(#[trigger] users@[i].nickname@)))
            &&& (r matches Ok(v) ==> v@.len() == users@.len() && (forall|i: int|
                0 <= i < users@.len() ==> (#[trigger] v@[i]).is_view_of(users@[i]) && v@[i].wf()))
            &&& (r matches Err(e) ==> e == NetXFFIError::Panic)
        },
{
    let users = match res {
        Ok(users) => users,
        Err(e) => {
            return Err(NetXFFIError::from(e));
        },
    };
    let mut out: Vec<CUser> = Vec::new();
    let mut i: usize = 0;
    while i < users.len()
        invariant
            res is Ok && res->Ok_0@ == users@,
            0 <= i <= users@.len(),
            out@.len() == i,
            forall|j: int|
                0 <= j < i ==> marshalable(#[trigger] users@[j].nickname@),
            forall|j: int|
                0 <= j < i ==> (#[trigger] out@[j]).is_view_of(users@[j]) && out@[j].wf(),
        decreases users@.len() - i,
    {
        match CUser::from_user(&users[i]) {
            Ok(c) => {
                out.push(c);
            },
            Err(_) => {
                return Err(NetXFFIError::Panic);
            },
        }
        i += 1;
    }
    Ok(out)
}

/// What a completed fire-and-forget echo call hands its callback: the
/// original target as a fresh foreign-safe view, paired with the
/// timestamp the remote side echoed. A target that cannot be
/// marshalled, like a failed remote call, yields no invocation; the
/// failure is silent by design.
pub fn ping_delivery(target: &str, echoed: i64) -> (r: Option<(Vec<u8>, i64)>)
    ensures
        r is Some <==> marshalable(target@),
        r matches Some(p) ==> p.0@ == cstr_bytes(ascii_bytes(target@)) && p.1 == echoed,
{
    match to_cstr(target) {
        Ok(view) => Some((view, echoed)),
        Err(_) => None,
    }
}

/// The law of correlation for concurrent echo calls: two deliveries
/// for distinct targets carry distinct target views, so neither
/// callback can receive the other's delivery.
pub proof fn lemma_ping_no_cross_delivery(t1: Seq<char>, t2: Seq<char>)
    requires
        marshalable(t1),
        marshalable(t2),
        t1 != t2,
    ensures
        cstr_bytes(ascii_bytes(t1)) != cstr_bytes(ascii_bytes(t2)),
{
    crate::marshal::lemma_ascii_bytes_injective(t1, t2);
    crate::marshal::lemma_cstr_bytes_injective(ascii_bytes(t1), ascii_bytes(t2));
}

} // verus!
