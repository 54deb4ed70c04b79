//! The closed set of failures this crate reports.

use vstd::prelude::*;

verus! {

/// Every failure the identity core can report.
#[derive(Debug, Clone, Copy, PartialEq, Eq, Structural)]
pub enum Error {
    /// A role string other than the two canonical tokens.
    InvalidRole,
    /// A session token whose signature or structure does not hold up.
    AuthInvalidToken,
    /// The caller's role does not satisfy what the operation requires.
    Forbidden,
    /// A session token could not be signed.
    TokenSigning,
    /// No fresh salt could be drawn for a password hash.
    Hashing,
    /// Storage could not carry out an operation.
    StorageFailure,
}

impl Error {
    /// The opaque code under which a failure is shown at the API boundary.
    pub open spec fn code_text(self) -> Seq<char> {
        match self {
            Error::InvalidRole => "InvalidRole"@,
            Error::AuthInvalidToken => "AuthInvalidToken"@,
            Error::Forbidden => "Forbidden"@,
            Error::TokenSigning => "TokenSigning"@,
            Error::Hashing => "Hashing"@,
            Error::StorageFailure => "StorageFailure"@,
        }
    }

    /// Renders the failure as its opaque code.
    pub fn code(&self) -> (code: &'static str)
        ensures
            code@ == self.code_text(),
    {
        match self {
            Error::InvalidRole => "InvalidRole",
            Error::AuthInvalidToken => "AuthInvalidToken",
            Error::Forbidden => "Forbidden",
            Error::TokenSigning => "TokenSigning",
            Error::Hashing => "Hashing",
            Error::StorageFailure => "StorageFailure",
        }
    }
}

} // verus!
