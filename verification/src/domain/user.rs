//! Users: an e-mail address, a password hash and a role.

use crate::domain::syntax::{email_syntax, is_email_shaped};
use crate::domain::IdType;
use crate::error::ServerError;
use crate::text::{
    ascii_lowercase, ascii_without_carriage_return, grapheme_clusters, grapheme_count, is_ascii_text,
    one_per_character, to_lowercase, unicode_lowercase,
};
use vstd::prelude::*;

verus! {

/// The most grapheme clusters an e-mail address may have.
pub const MAX_EMAIL_GRAPHEMES: usize = 60;

/// The fewest grapheme clusters an e-mail address may have.
pub const MIN_EMAIL_GRAPHEMES: usize = 3;

/// The fewest grapheme clusters a password may have.
pub const MIN_PASSWORD_GRAPHEMES: usize = 8;

/// The most grapheme clusters a password may have.
pub const MAX_PASSWORD_GRAPHEMES: usize = 128;

/// A registered user.
#[derive(Debug, Clone, PartialEq)]
pub struct User {
    id: IdType,
    email: String,
    password: String,
    role: String,
}

/// What a user holds.
pub struct UserModel {
    pub id: IdType,
    pub email: Seq<char>,
    pub password: Seq<char>,
    pub role: Seq<char>,
}

impl View for User {
    type V = UserModel;

    closed spec fn view(&self) -> UserModel {
        UserModel { id: self.id, email: self.email@, password: self.password@, role: self.role@ }
    }
}

/// An e-mail address of `clusters` grapheme clusters is accepted when it has 3
/// to 60 of them and the shape of an address.
pub open spec fn email_accepted(email: Seq<char>, clusters: nat) -> bool {
    &&& MIN_EMAIL_GRAPHEMES <= clusters <= MAX_EMAIL_GRAPHEMES
    &&& email_syntax(email)
}

/// An e-mail address is accepted when it has 3 to 60 grapheme clusters and the
/// shape of an address.
pub open spec fn email_is_valid(email: Seq<char>) -> bool {
    email_accepted(email, grapheme_count(email))
}

/// The outcome of checking a password of `clusters` grapheme clusters: too
/// short under 8, too long over 128.
pub open spec fn password_length_check(clusters: nat) -> Result<(), ServerError> {
    if clusters < MIN_PASSWORD_GRAPHEMES {
        Err(ServerError::PasswordTooShort)
    } else if clusters > MAX_PASSWORD_GRAPHEMES {
        Err(ServerError::PasswordTooLong)
    } else {
        Ok(())
    }
}

/// The outcome of checking a password: too short under 8 grapheme clusters,
/// too long over 128.
pub open spec fn password_check(password: Seq<char>) -> Result<(), ServerError> {
    password_length_check(grapheme_count(password))
}

/// The verdict on an e-mail address split into the grapheme clusters
/// `clusters`: accepted with 3 to 60 clusters and the shape of an address,
/// `InvalidEmail` otherwise. Counting stops at the 61st cluster.
pub fn email_verdict(email: &str, clusters: &Vec<&str>) -> (result: Result<(), ServerError>)
    ensures
        result is Ok <==> email_accepted(email@, clusters@.len()),
        result matches Err(e) ==> e == ServerError::InvalidEmail,
{
    let mut count: usize = 0;
    let mut i: usize = 0;
    while i < clusters.len()
        invariant
            i <= clusters@.len(),
            count == i,
            count <= MAX_EMAIL_GRAPHEMES,
        decreases clusters@.len() - i,
    {
        count = count + 1;
        if count > MAX_EMAIL_GRAPHEMES {
            return Err(ServerError::InvalidEmail);
        }
        i = i + 1;
    }
    if count < MIN_EMAIL_GRAPHEMES {
        return Err(ServerError::InvalidEmail);
    }
    if !is_email_shaped(email) {
        return Err(ServerError::InvalidEmail);
    }
    Ok(())
}

/// The verdict on a password split into the grapheme clusters `clusters`:
/// `PasswordTooShort` under 8 clusters, `PasswordTooLong` over 128.
pub fn password_verdict(clusters: &Vec<&str>) -> (result: Result<(), ServerError>)
    ensures
        result == password_length_check(clusters@.len()),
{
    let password_length = clusters.len();
    if password_length < MIN_PASSWORD_GRAPHEMES {
        return Err(ServerError::PasswordTooShort);
    }
    if password_length > MAX_PASSWORD_GRAPHEMES {
        return Err(ServerError::PasswordTooLong);
    }
    Ok(())
}

impl User {
    /// A user whose e-mail address was checked; the stored address is lower-cased.
    pub fn new(id: IdType, email: String, password: String, role: String) -> (result: Result<
        User,
        ServerError,
    >)
        ensures
            match result {
                Ok(user) => email_is_valid(email@) && user@ == (UserModel {
                    id,
                    email: unicode_lowercase(email@),
                    password: password@,
                    role: role@,
                }),
                Err(e) => !email_is_valid(email@) && e == ServerError::InvalidEmail,
            },
            ascii_without_carriage_return(email@) ==> (result is Ok <==> email_accepted(
                email@,
                email@.len(),
            )),
            is_ascii_text(email@) ==> (result matches Ok(user) ==> user@.email == ascii_lowercase(email@)),
    {
        match Self::validate_email(email.as_str()) {
            Ok(()) => Ok(Self::new_raw(id, email, password, role)),
            Err(e) => Err(e),
        }
    }

    /// A user built without checks; the stored address is lower-cased.
    pub fn new_raw(id: IdType, email: String, password: String, role: String) -> (user: User)
        ensures
            user@ == (UserModel {
                id,
                email: unicode_lowercase(email@),
                password: password@,
                role: role@,
            }),
            is_ascii_text(email@) ==> user@.email == ascii_lowercase(email@),
    {
        User { id, email: to_lowercase(email.as_str()), password, role }
    }

    /// Accepts an e-mail address of 3 to 60 grapheme clusters with the shape of
    /// an address; anything else is `InvalidEmail`.
    pub fn validate_email(email: &str) -> (result: Result<(), ServerError>)
        ensures
            result is Ok <==> email_is_valid(email@),
            result matches Err(e) ==> e == ServerError::InvalidEmail,
            ascii_without_carriage_return(email@) ==> (result is Ok <==> email_accepted(
                email@,
                email@.len(),
            )),
    {
        let clusters = grapheme_clusters(email);
        assert(clusters@.len() == grapheme_count(email@)) by {
            assert(clusters@.map_values(|g: &str| g@).len() == clusters@.len());
        }
        assert(ascii_without_carriage_return(email@) ==> clusters@.len() == email@.len()) by {
            assert(clusters@.map_values(|g: &str| g@).len() == clusters@.len());
            assert(one_per_character(email@).len() == email@.len());
        }
        email_verdict(email, &clusters)
    }

    /// Accepts a password of 8 to 128 grapheme clusters.
    pub fn validate_password(password: &str) -> (result: Result<(), ServerError>)
        ensures
            result == password_check(password@),
            ascii_without_carriage_return(password@) ==> result == password_length_check(
                password@.len(),
            ),
    {
        let clusters = grapheme_clusters(password);
        assert(clusters@.len() == grapheme_count(password@)) by {
            assert(clusters@.map_values(|g: &str| g@).len() == clusters@.len());
        }
        assert(ascii_without_carriage_return(password@) ==> clusters@.len() == password@.len()) by {
            assert(clusters@.map_values(|g: &str| g@).len() == clusters@.len());
            assert(one_per_character(password@).len() == password@.len());
        }
        password_verdict(&clusters)
    }

    pub fn get_id(&self) -> (id: IdType)
        ensures
            id == self@.id,
    {
        self.id
    }

    pub fn get_email(&self) -> (email: &str)
        ensures
            email@ == self@.email,
    {
        self.email.as_str()
    }

    pub fn get_password(&self) -> (password: &str)
        ensures
            password@ == self@.password,
    {
        self.password.as_str()
    }

    pub fn get_role(&self) -> (role: &str)
        ensures
            role@ == self@.role,
    {
        self.role.as_str()
    }

    pub fn set_id(&mut self, id: IdType)
        ensures
            final(self)@ == (UserModel { id, ..old(self)@ }),
    {
        self.id = id;
    }

    /// Replaces the e-mail address as given, without lower-casing it.
    pub fn set_email(&mut self, email: String)
        ensures
            final(self)@ == (UserModel { email: email@, ..old(self)@ }),
    {
        self.email = email;
    }

    pub fn set_password(&mut self, password: String)
        ensures
            final(self)@ == (UserModel { password: password@, ..old(self)@ }),
    {
        self.password = password;
    }

    pub fn set_role(&mut self, role: String)
        ensures
            final(self)@ == (UserModel { role: role@, ..old(self)@ }),
    {
        self.role = role;
    }
}

} // verus!
