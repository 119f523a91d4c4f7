//! The answer handed back for an issuance or a rotation.
use vstd::prelude::*;
use crate::error::Error;

verus! {

/// A success flag, the new token exactly on success, and a message exactly on failure.
#[derive(Debug, Clone, PartialEq, Eq)]
pub struct TokenResp {
    pub is_valid: bool,
    pub token: Option<String>,
    pub err: Option<String>,
}

impl TokenResp {
    pub fn ok(token: String) -> (r: TokenResp)
        ensures
            r.is_valid,
            r.token == Some(token),
            r.err is None,
    {
        TokenResp { is_valid: true, token: Some(token), err: None }
    }

    pub fn err(err: &Error) -> (r: TokenResp)
        ensures
            !r.is_valid,
            r.token is None,
            r.err matches Some(m) && m@ == err.message_spec(),
    {
        TokenResp { is_valid: false, token: None, err: Some(err.message()) }
    }
}

} // verus!
