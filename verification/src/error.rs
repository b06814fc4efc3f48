//! The errors a request can end in, and the HTTP status each is answered with.

use vstd::prelude::*;

verus! {

/// The errors a request can end in.
#[derive(Debug, Clone, PartialEq, Eq)]
pub enum ServerError {
    InvalidEmail,
    PasswordTooShort,
    PasswordTooLong,
    InvalidUsername,
    ImageDimensionsTooLarge,
    ResourceNotFound,
    EmailAlreadyInUse,
    UsernameAlreadyTaken,
    NoSessionReceived,
    InvalidMultipart,
    MissingFieldInForm,
    InvalidImage,
    InternalError(String),
}

/// The HTTP status a request that ends in `e` is answered with: 400 for input
/// that is refused, 404 for what does not exist, 409 for a taken e-mail address
/// or username, 401 without a session, 500 for an internal error.
pub open spec fn status_of(e: ServerError) -> u16 {
    match e {
        ServerError::ResourceNotFound => 404,
        ServerError::EmailAlreadyInUse | ServerError::UsernameAlreadyTaken => 409,
        ServerError::NoSessionReceived => 401,
        ServerError::InternalError(_) => 500,
        _ => 400,
    }
}

impl ServerError {
    /// The HTTP status this error is answered with (see `status_of`).
    pub fn status_code(&self) -> (status: u16)
        ensures
            status == status_of(*self),
    {
        match self {
            ServerError::InvalidEmail
            | ServerError::PasswordTooShort
            | ServerError::PasswordTooLong
            | ServerError::InvalidUsername
            | ServerError::ImageDimensionsTooLarge
            | ServerError::InvalidMultipart
            | ServerError::MissingFieldInForm
            | ServerError::InvalidImage => 400,
            ServerError::ResourceNotFound => 404,
            ServerError::EmailAlreadyInUse | ServerError::UsernameAlreadyTaken => 409,
            ServerError::NoSessionReceived => 401,
            ServerError::InternalError(_) => 500,
        }
    }
}

} // verus!
