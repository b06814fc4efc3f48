//! Names of the `profile` table and its columns.

use vstd::prelude::*;

verus! {

/// The `profile` table: its name and its columns, qualified by the table name.
pub struct ProfileDef;

impl ProfileDef {
    pub const TABLE: &'static str = "profile";

    pub const ID: &'static str = "profile.id";

    /// The alias a profile's id is selected under when joined with a figure.
    pub const ID_UNIQUE: &'static str = "u_profile_id";

    pub const USERNAME: &'static str = "profile.username";

    pub const DISPLAY_NAME: &'static str = "profile.display_name";

    pub const BIO: &'static str = "profile.bio";

    pub const BANNER: &'static str = "profile.banner";

    pub const PROFILE_PICTURE: &'static str = "profile.profile_picture";

    pub const USER_ID: &'static str = "profile.user_id";
}

} // verus!
