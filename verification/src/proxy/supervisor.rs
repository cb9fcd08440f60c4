//! Access to the supervisor: its endpoint and the token that authenticates the proxy.
use vstd::prelude::*;
use vstd::string::StrSliceExecFns;
use vstd::utf8::encode_utf8;
use crate::text::{trim, trim_of};

verus! {

/// The supervisor authentication token. Its debug form hides it.
#[derive(Clone)]
pub struct SupervisorToken(String);

impl SupervisorToken {
    /// A token.
    pub fn new(value: String) -> (r: Self)
        ensures
            r.value() == value,
    {
        SupervisorToken(value)
    }

    /// The token's text.
    pub closed spec fn value(&self) -> String {
        self.0
    }

    /// The token's text.
    pub fn expose(&self) -> (r: &str)
        ensures
            r@ == self.value()@,
    {
        self.0.as_str()
    }
}

/// Why supervisor access is denied.
#[derive(Clone, Copy, Debug, PartialEq, Eq, Structural)]
pub enum AccessError {
    /// The endpoint is empty or only whitespace.
    EmptyEndpoint,
    /// The token is shorter than 16 bytes.
    ShortToken,
}

impl AccessError {
    /// The error as text.
    pub fn message(&self) -> (r: &'static str)
        ensures
            r@ == (match *self {
                AccessError::EmptyEndpoint => "supervisor endpoint is empty"@,
                AccessError::ShortToken => "supervisor authentication token is too short"@,
            }),
    {
        match self {
            AccessError::EmptyEndpoint => "supervisor endpoint is empty",
            AccessError::ShortToken => "supervisor authentication token is too short",
        }
    }
}

/// Where the supervisor listens and how to authenticate to it.
#[derive(Clone)]
pub struct SupervisorAccess {
    pub endpoint: String,
    pub token: SupervisorToken,
}

impl SupervisorAccess {
    /// Accept the access only with a nonblank endpoint and a token of at least 16 bytes.
    pub fn validate(&self) -> (r: Result<(), AccessError>)
        ensures
            trim_of(self.endpoint@).len() == 0 ==> r == Err::<(), AccessError>(AccessError::EmptyEndpoint),
            trim_of(self.endpoint@).len() != 0 && encode_utf8(self.token.value()@).len() < 16
                ==> r == Err::<(), AccessError>(AccessError::ShortToken),
            trim_of(self.endpoint@).len() != 0 && encode_utf8(self.token.value()@).len() >= 16
                ==> r == Ok::<(), AccessError>(()),
    {
        if trim(self.endpoint.as_str()).unicode_len() == 0 {
            return Err(AccessError::EmptyEndpoint);
        }
        if self.token.expose().as_bytes().len() < 16 {
            return Err(AccessError::ShortToken);
        }
        Ok(())
    }
}

} // verus!
