//! The error bridge: every internal failure that crosses the foreign
//! boundary resolves to exactly one value of a closed five-value
//! enumeration. Only the discriminant crosses the boundary; any detail
//! stays on this side.

use vstd::prelude::*;

verus! {

/// The error discriminants a foreign caller can observe.
///
/// The numeric codes are part of the foreign contract and are fixed by
/// [`NetXFFIError::code`]; they must never be reassigned.
#[derive(Clone, Copy, Debug, PartialEq, Eq, Structural)]
pub enum NetXFFIError {
    /// The call succeeded.
    Success,
    /// A null pointer was passed where text was required.
    NullPassed,
    /// A panic was caught at the boundary; it never unwinds across it.
    Panic,
    /// Any other internal failure, wrapped; details are not exposed.
    AnyHowError,
    /// A connectivity probe found the transport unreachable.
    NotConnect,
}

impl NetXFFIError {
    /// The stable numeric code of each discriminant, as foreign code sees it.
    pub fn code(&self) -> (c: u8)
        ensures
            c == match *self {
                NetXFFIError::Success => 0u8,
                NetXFFIError::NullPassed => 1u8,
                NetXFFIError::Panic => 2u8,
                NetXFFIError::AnyHowError => 3u8,
                NetXFFIError::NotConnect => 4u8,
            },
    {
        match *self {
            NetXFFIError::Success => 0u8,
            NetXFFIError::NullPassed => 1u8,
            NetXFFIError::Panic => 2u8,
            NetXFFIError::AnyHowError => 3u8,
            NetXFFIError::NotConnect => 4u8,
        }
    }
}

/// The opaque error type of the `anyhow` crate, in which the transport
/// and the serializer report their failures.
#[verifier::external_type_specification]
#[verifier::external_body]
pub struct ExAnyhowError(anyhow::Error);

impl From<anyhow::Error> for NetXFFIError {
    /// Any wrapped internal failure resolves to the wrapped-error
    /// discriminant; the detail never crosses the boundary.
    fn from(_err: anyhow::Error) -> (r: Self) {
        NetXFFIError::AnyHowError
    }
}

impl vstd::std_specs::convert::FromSpecImpl<anyhow::Error> for NetXFFIError {
    open spec fn obeys_from_spec() -> bool {
        true
    }

    open spec fn from_spec(_err: anyhow::Error) -> Self {
        NetXFFIError::AnyHowError
    }
}

} // verus!
