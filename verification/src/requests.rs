//! What arrives with a request: the sign-up and sign-in forms, and the id that
//! ties a request to what is logged about it.

use vstd::prelude::*;

verus! {

/// The sign-up form.
#[derive(Debug, Clone, PartialEq)]
pub struct SignUpForm {
    pub email: String,
    pub password: String,
    pub username: String,
}

/// The sign-in form.
#[derive(Debug, Clone, PartialEq)]
pub struct SignInForm {
    pub email: String,
    pub password: String,
}

/// The id a request is known by in the logs.
#[derive(Debug, Clone, PartialEq)]
pub struct CorrelationId(pub String);

} // verus!
