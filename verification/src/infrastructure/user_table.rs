//! Names of the quoted `"user"` table and its columns, as constants.

use vstd::prelude::*;

verus! {

/// The `"user"` table: its name and its columns, qualified by the table name.
pub struct UserDef;

impl UserDef {
    pub const TABLE: &'static str = "\"user\"";

    pub const ID: &'static str = "\"user\".id";

    /// The alias a user's id is selected under.
    pub const ID_UNIQUE: &'static str = "u_user_id";

    pub const EMAIL: &'static str = "\"user\".email";

    pub const PASSWORD: &'static str = "\"user\".password";

    pub const ROLE: &'static str = "\"user\".role";

    /// `column` qualified by the table name: `"user".column`.
    pub fn with_table(column: &str) -> (qualified: String)
        ensures
            qualified@ == Self::TABLE@ + "."@ + column@,
    {
        let mut qualified = String::from_str(Self::TABLE);
        qualified.append(".");
        qualified.append(column);
        qualified
    }
}

} // verus!
