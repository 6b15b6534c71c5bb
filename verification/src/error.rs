//! The errors that the HMI server's handlers answer with.

use vstd::prelude::*;

verus! {

/// An error that a request handler answers with.
#[derive(Clone, Copy, Debug, PartialEq, Eq, Structural)]
pub enum Error {
    WrongCredentialsError,
    GetJWKError,
    ParseJWKError,
    ExtractJWKKidError,
    JWTTokenError,
    JWTTokenCreationError,
    NoAuthHeaderError,
    InvalidAuthHeaderError,
    NoPermissionError,
    AddUserError,
    AddDeviceError,
}

/// The message that describes an error.
pub open spec fn error_message(e: Error) -> Seq<char> {
    match e {
        Error::WrongCredentialsError => "wrong credentials"@,
        Error::GetJWKError => "failed to get jwks"@,
        Error::ParseJWKError => "jwk parse error"@,
        Error::ExtractJWKKidError => "could not extract kid from jwk"@,
        Error::JWTTokenError => "jwt token not valid"@,
        Error::JWTTokenCreationError => "jwt token creation error"@,
        Error::NoAuthHeaderError => "no auth header"@,
        Error::InvalidAuthHeaderError => "invalid auth header"@,
        Error::NoPermissionError => "no permission"@,
        Error::AddUserError => "add user failed"@,
        Error::AddDeviceError => "add device failed"@,
    }
}

impl Error {
    /// The message that describes this error.
    pub fn message(&self) -> (r: String)
        ensures
            r@ == error_message(*self),
    {
        let s = match self {
            Error::WrongCredentialsError => "wrong credentials",
            Error::GetJWKError => "failed to get jwks",
            Error::ParseJWKError => "jwk parse error",
            Error::ExtractJWKKidError => "could not extract kid from jwk",
            Error::JWTTokenError => "jwt token not valid",
            Error::JWTTokenCreationError => "jwt token creation error",
            Error::NoAuthHeaderError => "no auth header",
            Error::InvalidAuthHeaderError => "invalid auth header",
            Error::NoPermissionError => "no permission",
            Error::AddUserError => "add user failed",
            Error::AddDeviceError => "add device failed",
        };
        String::from_str(s)
    }
}

} // verus!
