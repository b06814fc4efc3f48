//! Profiles: the public face of a user.

use crate::domain::syntax::{is_username_shaped, username_syntax};
use crate::domain::IdType;
use crate::error::ServerError;
use crate::text::{
    ascii_without_carriage_return, grapheme_clusters, grapheme_count, one_per_character, opt_text,
};
use vstd::prelude::*;

verus! {

/// The fewest grapheme clusters a username may have.
pub const MIN_USERNAME_GRAPHEMES: usize = 3;

/// The most grapheme clusters a username may have.
pub const MAX_USERNAME_GRAPHEMES: usize = 15;

/// A user's profile.
#[derive(Debug, Clone, PartialEq)]
pub struct Profile {
    id: IdType,
    username: String,
    display_name: Option<String>,
    bio: Option<String>,
    banner: Option<String>,
    profile_picture: Option<String>,
    user_id: IdType,
}

/// What a profile holds.
pub struct ProfileModel {
    pub id: IdType,
    pub username: Seq<char>,
    pub display_name: Option<Seq<char>>,
    pub bio: Option<Seq<char>>,
    pub banner: Option<Seq<char>>,
    pub profile_picture: Option<Seq<char>>,
    pub user_id: IdType,
}

impl View for Profile {
    type V = ProfileModel;

    closed spec fn view(&self) -> ProfileModel {
        ProfileModel {
            id: self.id,
            username: self.username@,
            display_name: opt_text(self.display_name),
            bio: opt_text(self.bio),
            banner: opt_text(self.banner),
            profile_picture: opt_text(self.profile_picture),
            user_id: self.user_id,
        }
    }
}

/// A username of `clusters` grapheme clusters is accepted when it has the
/// shape of a username and 3 to 15 clusters.
pub open spec fn username_accepted(username: Seq<char>, clusters: nat) -> bool {
    &&& username_syntax(username)
    &&& MIN_USERNAME_GRAPHEMES <= clusters <= MAX_USERNAME_GRAPHEMES
}

/// A username is accepted when it has 3 to 15 grapheme clusters and the shape
/// of a username.
pub open spec fn username_is_valid(username: Seq<char>) -> bool {
    username_accepted(username, grapheme_count(username))
}

/// The verdict on a username split into the grapheme clusters `clusters`:
/// accepted with the shape of a username and 3 to 15 clusters,
/// `InvalidUsername` otherwise.
pub fn username_verdict(username: &str, clusters: &Vec<&str>) -> (result: Result<(), ServerError>)
    ensures
        result is Ok <==> username_accepted(username@, clusters@.len()),
        result matches Err(e) ==> e == ServerError::InvalidUsername,
{
    let username_count = clusters.len();
    if !is_username_shaped(username) || !(MIN_USERNAME_GRAPHEMES <= username_count
        && username_count <= MAX_USERNAME_GRAPHEMES) {
        return Err(ServerError::InvalidUsername);
    }
    Ok(())
}

/// The model of a profile built from its parts.
pub open spec fn profile_model(
    id: IdType,
    username: String,
    display_name: Option<String>,
    bio: Option<String>,
    banner: Option<String>,
    profile_picture: Option<String>,
    user_id: IdType,
) -> ProfileModel {
    ProfileModel {
        id,
        username: username@,
        display_name: opt_text(display_name),
        bio: opt_text(bio),
        banner: opt_text(banner),
        profile_picture: opt_text(profile_picture),
        user_id,
    }
}

impl Profile {
    /// A profile whose username was checked.
    pub fn new(
        id: IdType,
        username: String,
        display_name: Option<String>,
        bio: Option<String>,
        banner: Option<String>,
        profile_picture: Option<String>,
        user_id: IdType,
    ) -> (result: Result<Profile, ServerError>)
        ensures
            match result {
                Ok(profile) => username_is_valid(username@) && profile@ == profile_model(
                    id,
                    username,
                    display_name,
                    bio,
                    banner,
                    profile_picture,
                    user_id,
                ),
                Err(e) => !username_is_valid(username@) && e == ServerError::InvalidUsername,
            },
            ascii_without_carriage_return(username@) ==> (result is Ok <==> username_accepted(
                username@,
                username@.len(),
            )),
    {
        match Self::validate_username(username.as_str()) {
            Ok(()) => Ok(
                Self::new_raw(id, username, display_name, bio, banner, profile_picture, user_id),
            ),
            Err(e) => Err(e),
        }
    }

    /// A profile built without checks.
    pub fn new_raw(
        id: IdType,
        username: String,
        display_name: Option<String>,
        bio: Option<String>,
        banner: Option<String>,
        profile_picture: Option<String>,
        user_id: IdType,
    ) -> (profile: Profile)
        ensures
            profile@ == profile_model(
                id,
                username,
                display_name,
                bio,
                banner,
                profile_picture,
                user_id,
            ),
    {
        Profile { id, username, display_name, bio, banner, profile_picture, user_id }
    }

    /// Accepts a username of 3 to 15 grapheme clusters with the shape of a
    /// username; anything else is `InvalidUsername`.
    pub fn validate_username(username: &str) -> (result: Result<(), ServerError>)
        ensures
            result is Ok <==> username_is_valid(username@),
            result matches Err(e) ==> e == ServerError::InvalidUsername,
            ascii_without_carriage_return(username@) ==> (result is Ok <==> username_accepted(
                username@,
                username@.len(),
            )),
    {
        let clusters = grapheme_clusters(username);
        assert(clusters@.len() == grapheme_count(username@)) by {
            assert(clusters@.map_values(|g: &str| g@).len() == clusters@.len());
        }
        assert(ascii_without_carriage_return(username@) ==> clusters@.len() == username@.len()) by {
            assert(clusters@.map_values(|g: &str| g@).len() == clusters@.len());
            assert(one_per_character(username@).len() == username@.len());
        }
        username_verdict(username, &clusters)
    }

    pub fn get_id(&self) -> (id: IdType)
        ensures
            id == self@.id,
    {
        self.id
    }

    pub fn get_username(&self) -> (username: &str)
        ensures
            username@ == self@.username,
    {
        self.username.as_str()
    }

    pub fn get_display_name(&self) -> (display_name: &Option<String>)
        ensures
            opt_text(*display_name) == self@.display_name,
    {
        &self.display_name
    }

    pub fn get_bio(&self) -> (bio: &Option<String>)
        ensures
            opt_text(*bio) == self@.bio,
    {
        &self.bio
    }

    pub fn get_banner(&self) -> (banner: &Option<String>)
        ensures
            opt_text(*banner) == self@.banner,
    {
        &self.banner
    }

    pub fn get_profile_picture(&self) -> (profile_picture: &Option<String>)
        ensures
            opt_text(*profile_picture) == self@.profile_picture,
    {
        &self.profile_picture
    }

    pub fn get_user_id(&self) -> (user_id: IdType)
        ensures
            user_id == self@.user_id,
    {
        self.user_id
    }

    pub fn set_id(&mut self, id: IdType)
        ensures
            final(self)@ == (ProfileModel { id, ..old(self)@ }),
    {
        self.id = id;
    }

    pub fn set_username(&mut self, username: String)
        ensures
            final(self)@ == (ProfileModel { username: username@, ..old(self)@ }),
    {
        self.username = username;
    }

    pub fn set_display_name(&mut self, display_name: Option<String>)
        ensures
            final(self)@ == (ProfileModel { display_name: opt_text(display_name), ..old(self)@ }),
    {
        self.display_name = display_name;
    }

    pub fn set_bio(&mut self, bio: Option<String>)
        ensures
            final(self)@ == (ProfileModel { bio: opt_text(bio), ..old(self)@ }),
    {
        self.bio = bio;
    }

    pub fn set_banner(&mut self, banner: Option<String>)
        ensures
            final(self)@ == (ProfileModel { banner: opt_text(banner), ..old(self)@ }),
    {
        self.banner = banner;
    }

    pub fn set_profile_picture(&mut self, profile_picture: Option<String>)
        ensures
            final(self)@ == (ProfileModel { profile_picture: opt_text(profile_picture), ..old(self)@ }),
    {
        self.profile_picture = profile_picture;
    }

    pub fn set_user_id(&mut self, user_id: IdType)
        ensures
            final(self)@ == (ProfileModel { user_id, ..old(self)@ }),
    {
        self.user_id = user_id;
    }
}

} // verus!
