//! What the repositories answer once the database has replied: the rows they
//! return and the errors that failures become.

use crate::domain::figure::{Figure, FigureModel};
use crate::domain::profile::{Profile, ProfileModel};
use crate::domain::user::{User, UserModel};
use crate::domain::IdType;
use crate::error::ServerError;
use crate::text::{ascii_lowercase, is_ascii_text, to_lowercase, unicode_lowercase};
use vstd::prelude::*;

verus! {

broadcast use vstd::string::group_string_axioms;

/// The unique index on profile usernames.
pub const PROFILE_USERNAME_CONSTRAINT: &'static str = "profile_username_uindex";

/// The unique index on user e-mail addresses.
pub const USER_EMAIL_CONSTRAINT: &'static str = "user_email_uindex";

/// The role every new user gets.
pub const DEFAULT_ROLE: &'static str = "user";

/// A figure and the profile that posted it, as one joined row holds them.
#[derive(Debug)]
pub struct FigureAndProfile {
    figure: Figure,
    profile: Profile,
}

impl FigureAndProfile {
    pub closed spec fn parts(&self) -> (FigureModel, ProfileModel) {
        (self.figure@, self.profile@)
    }

    pub fn new(figure: Figure, profile: Profile) -> (row: FigureAndProfile)
        ensures
            row.parts() == (figure@, profile@),
    {
        FigureAndProfile { figure, profile }
    }

    pub fn get_figure_and_profile(self) -> (parts: (Figure, Profile))
        ensures
            (parts.0@, parts.1@) == self.parts(),
    {
        (self.figure, self.profile)
    }
}

/// A user and its profile, as one joined row holds them.
#[derive(Debug)]
pub struct UserAndProfileFromQuery {
    pub user: User,
    pub profile: Profile,
}

/// How a database call failed.
#[derive(Debug)]
pub enum DbFailureKind {
    /// The query returned no row where one was expected.
    RowNotFound,
    /// The database refused the statement, naming the constraint it broke if any.
    Database { constraint: Option<String> },
    /// Any other failure (connection, decoding, ...).
    Other,
}

/// A failed database call and its description.
#[derive(Debug)]
pub struct DbFailure {
    pub kind: DbFailureKind,
    pub message: String,
}

/// The failure broke the named constraint.
pub open spec fn breaks_constraint(failure: DbFailure, constraint: Seq<char>) -> bool {
    match failure.kind {
        DbFailureKind::Database { constraint: Some(c) } => c@ == constraint,
        _ => false,
    }
}

/// Every failure is an internal error carrying its description.
pub fn internal_error(failure: DbFailure) -> (e: ServerError)
    ensures
        e == ServerError::InternalError(failure.message),
{
    ServerError::InternalError(failure.message)
}

/// A missing row is `ResourceNotFound`; any other failure is internal.
pub fn not_found_or_internal(failure: DbFailure) -> (e: ServerError)
    ensures
        failure.kind is RowNotFound ==> e == ServerError::ResourceNotFound,
        !(failure.kind is RowNotFound) ==> e == ServerError::InternalError(failure.message),
{
    match failure.kind {
        DbFailureKind::RowNotFound => ServerError::ResourceNotFound,
        _ => ServerError::InternalError(failure.message),
    }
}

/// Breaking `constraint` is `violation`; any other failure is internal.
pub fn constraint_or_internal(failure: DbFailure, constraint: &str, violation: ServerError) -> (e:
    ServerError)
    ensures
        breaks_constraint(failure, constraint@) ==> e == violation,
        !breaks_constraint(failure, constraint@) ==> e == ServerError::InternalError(failure.message),
{
    let broken = match &failure.kind {
        DbFailureKind::Database { constraint: Some(c) } => *c == String::from_str(constraint),
        _ => false,
    };
    if broken {
        violation
    } else {
        ServerError::InternalError(failure.message)
    }
}

/// A result whose failures are all internal errors.
pub fn with_internal_errors<T>(outcome: Result<T, DbFailure>) -> (result: Result<T, ServerError>)
    ensures
        match outcome {
            Ok(v) => result == Ok::<T, ServerError>(v),
            Err(f) => result == Err::<T, ServerError>(ServerError::InternalError(f.message)),
        },
{
    match outcome {
        Ok(v) => Ok(v),
        Err(f) => Err(internal_error(f)),
    }
}

/// A result whose missing row is `ResourceNotFound` and whose other failures
/// are internal errors.
pub fn with_not_found<T>(outcome: Result<T, DbFailure>) -> (result: Result<T, ServerError>)
    ensures
        match outcome {
            Ok(v) => result == Ok::<T, ServerError>(v),
            Err(f) => result == Err::<T, ServerError>(
                if f.kind is RowNotFound {
                    ServerError::ResourceNotFound
                } else {
                    ServerError::InternalError(f.message)
                },
            ),
        },
{
    match outcome {
        Ok(v) => Ok(v),
        Err(f) => Err(not_found_or_internal(f)),
    }
}

/// A user lookup: any failure means the user was not found.
pub fn user_lookup(outcome: Result<User, DbFailure>) -> (result: Result<User, ServerError>)
    ensures
        match outcome {
            Ok(u) => result == Ok::<User, ServerError>(u),
            Err(_) => result == Err::<User, ServerError>(ServerError::ResourceNotFound),
        },
{
    match outcome {
        Ok(u) => Ok(u),
        Err(_) => Err(ServerError::ResourceNotFound),
    }
}

/// The figure as stored: it gets the id the database assigned.
pub fn created_figure(figure: Figure, inserted: Result<IdType, DbFailure>) -> (result: Result<
    Figure,
    ServerError,
>)
    ensures
        match inserted {
            Ok(id) => result matches Ok(f) && f@ == (FigureModel { id, ..figure@ }),
            Err(failure) => result == Err::<Figure, ServerError>(
                ServerError::InternalError(failure.message),
            ),
        },
{
    match inserted {
        Ok(id) => {
            let mut figure = figure;
            figure.set_id(id);
            Ok(figure)
        },
        Err(failure) => Err(internal_error(failure)),
    }
}

/// The profile as stored: it gets the id the database assigned; a taken
/// username is `UsernameAlreadyTaken`.
pub fn created_profile(profile: Profile, inserted: Result<IdType, DbFailure>) -> (result: Result<
    Profile,
    ServerError,
>)
    ensures
        match inserted {
            Ok(id) => result matches Ok(p) && p@ == (ProfileModel { id, ..profile@ }),
            Err(failure) => result == Err::<Profile, ServerError>(
                if breaks_constraint(failure, PROFILE_USERNAME_CONSTRAINT@) {
                    ServerError::UsernameAlreadyTaken
                } else {
                    ServerError::InternalError(failure.message)
                },
            ),
        },
{
    match inserted {
        Ok(id) => {
            let mut profile = profile;
            profile.set_id(id);
            Ok(profile)
        },
        Err(failure) => Err(
            constraint_or_internal(
                failure,
                PROFILE_USERNAME_CONSTRAINT,
                ServerError::UsernameAlreadyTaken,
            ),
        ),
    }
}

/// The user as stored: it gets the id the database assigned and the role
/// `user`; an e-mail address already in use is `EmailAlreadyInUse`.
pub fn created_user(user: User, inserted: Result<IdType, DbFailure>) -> (result: Result<
    User,
    ServerError,
>)
    ensures
        match inserted {
            Ok(id) => result matches Ok(u) && u@ == (UserModel { id, role: DEFAULT_ROLE@, ..user@ }),
            Err(failure) => result == Err::<User, ServerError>(
                if breaks_constraint(failure, USER_EMAIL_CONSTRAINT@) {
                    ServerError::EmailAlreadyInUse
                } else {
                    ServerError::InternalError(failure.message)
                },
            ),
        },
{
    match inserted {
        Ok(id) => {
            let mut user = user;
            user.set_id(id);
            user.set_role(DEFAULT_ROLE.to_string());
            Ok(user)
        },
        Err(failure) => Err(
            constraint_or_internal(failure, USER_EMAIL_CONSTRAINT, ServerError::EmailAlreadyInUse),
        ),
    }
}

/// The parameters a user is inserted with: the lower-cased e-mail address
/// (`$1`) and the password hash (`$2`).
pub fn user_insert_parameters(user: &User) -> (parameters: (String, String))
    ensures
        parameters.0@ == unicode_lowercase(user@.email),
        parameters.1@ == user@.password,
        is_ascii_text(user@.email) ==> parameters.0@ == ascii_lowercase(user@.email),
{
    (to_lowercase(user.get_email()), user.get_password().to_string())
}

} // verus!
