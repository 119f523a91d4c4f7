//! Errors of issuance and rotation.
use vstd::prelude::*;

verus! {

/// Why an issuance or a rotation did not produce a token.
#[derive(Debug, Clone, PartialEq, Eq)]
pub enum Error {
    /// A fresh lineage could not be built.
    Create,
    /// The credential was rejected: it cannot advance, or it failed validation.
    InvalidToken,
    /// The token codec failed to encode, decode or verify.
    Codec(String),
    /// The token does not resolve to a live lineage.
    LineageNotFound,
    /// The session store could not be reached or queried.
    Store(String),
    /// The credential was rejected, but revoking its lineage failed.
    RevocationFailed,
}

impl Error {
    pub open spec fn message_spec(&self) -> Seq<char> {
        match self {
            Error::Create => "failed to initialize token"@,
            Error::InvalidToken => "invalid token"@,
            Error::Codec(m) => m@,
            Error::LineageNotFound => "lineage not found"@,
            Error::Store(m) => m@,
            Error::RevocationFailed => "invalid token; revocation failed"@,
        }
    }

    /// A human-readable description.
    pub fn message(&self) -> (r: String)
        ensures
            r@ == self.message_spec(),
    {
        match self {
            Error::Create => "failed to initialize token".to_owned(),
            Error::InvalidToken => "invalid token".to_owned(),
            Error::Codec(m) => m.clone(),
            Error::LineageNotFound => "lineage not found".to_owned(),
            Error::Store(m) => m.clone(),
            Error::RevocationFailed => "invalid token; revocation failed".to_owned(),
        }
    }
}

} // verus!
