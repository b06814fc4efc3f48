//! Names of the `profile` table and its columns.

use vstd::prelude::*;

verus! {

/// The `profile` table and its columns.
pub enum ProfileDef {
    Table,
    Id,
    Username,
    DisplayName,
    Bio,
    Banner,
    ProfilePicture,
    UserId,
}

impl ProfileDef {
    /// The bare name.
    pub open spec fn name(self) -> Seq<char> {
        match self {
            ProfileDef::Table => "profile"@,
            ProfileDef::Id => "id"@,
            ProfileDef::Username => "username"@,
            ProfileDef::DisplayName => "display_name"@,
            ProfileDef::Bio => "bio"@,
            ProfileDef::Banner => "banner"@,
            ProfileDef::ProfilePicture => "profile_picture"@,
            ProfileDef::UserId => "user_id"@,
        }
    }

    /// The name qualified by the table name.
    pub open spec fn qualified_name(self) -> Seq<char> {
        match self {
            ProfileDef::Table => "profile"@,
            ProfileDef::Id => "profile.id"@,
            ProfileDef::Username => "profile.username"@,
            ProfileDef::DisplayName => "profile.display_name"@,
            ProfileDef::Bio => "profile.bio"@,
            ProfileDef::Banner => "profile.banner"@,
            ProfileDef::ProfilePicture => "profile.profile_picture"@,
            ProfileDef::UserId => "profile.user_id"@,
        }
    }

    /// The name a column is selected under: the id has an alias of its own.
    pub open spec fn unique_name(self) -> Seq<char> {
        match self {
            ProfileDef::Id => "profile_id"@,
            _ => self.qualified_name(),
        }
    }

    pub fn as_str(&self) -> (name: &str)
        ensures
            name@ == self.name(),
    {
        match self {
            ProfileDef::Table => "profile",
            ProfileDef::Id => "id",
            ProfileDef::Username => "username",
            ProfileDef::DisplayName => "display_name",
            ProfileDef::Bio => "bio",
            ProfileDef::Banner => "banner",
            ProfileDef::ProfilePicture => "profile_picture",
            ProfileDef::UserId => "user_id",
        }
    }

    pub fn as_table_str(&self) -> (name: &str)
        ensures
            name@ == self.qualified_name(),
    {
        match self {
            ProfileDef::Table => "profile",
            ProfileDef::Id => "profile.id",
            ProfileDef::Username => "profile.username",
            ProfileDef::DisplayName => "profile.display_name",
            ProfileDef::Bio => "profile.bio",
            ProfileDef::Banner => "profile.banner",
            ProfileDef::ProfilePicture => "profile.profile_picture",
            ProfileDef::UserId => "profile.user_id",
        }
    }

    pub fn unique(&self) -> (name: &str)
        ensures
            name@ == self.unique_name(),
    {
        match self {
            ProfileDef::Id => "profile_id",
            _ => self.as_table_str(),
        }
    }
}

/// Every column's qualified name is the table's name, a dot and the column's
/// name.
pub proof fn lemma_profile_columns_qualified_by_table(column: ProfileDef)
    ensures
        !(column is Table) ==> column.qualified_name() == ProfileDef::Table.name() + "."@
            + column.name(),
{
    reveal_strlit("profile");
    reveal_strlit(".");
    match column {
        ProfileDef::Table => {},
        ProfileDef::Id => {
            reveal_strlit("id");
            reveal_strlit("profile.id");
            assert(column.qualified_name() =~= ProfileDef::Table.name() + "."@ + column.name());
        },
        ProfileDef::Username => {
            reveal_strlit("username");
            reveal_strlit("profile.username");
            assert(column.qualified_name() =~= ProfileDef::Table.name() + "."@ + column.name());
        },
        ProfileDef::DisplayName => {
            reveal_strlit("display_name");
            reveal_strlit("profile.display_name");
            assert(column.qualified_name() =~= ProfileDef::Table.name() + "."@ + column.name());
        },
        ProfileDef::Bio => {
            reveal_strlit("bio");
            reveal_strlit("profile.bio");
            assert(column.qualified_name() =~= ProfileDef::Table.name() + "."@ + column.name());
        },
        ProfileDef::Banner => {
            reveal_strlit("banner");
            reveal_strlit("profile.banner");
            assert(column.qualified_name() =~= ProfileDef::Table.name() + "."@ + column.name());
        },
        ProfileDef::ProfilePicture => {
            reveal_strlit("profile_picture");
            reveal_strlit("profile.profile_picture");
            assert(column.qualified_name() =~= ProfileDef::Table.name() + "."@ + column.name());
        },
        ProfileDef::UserId => {
            reveal_strlit("user_id");
            reveal_strlit("profile.user_id");
            assert(column.qualified_name() =~= ProfileDef::Table.name() + "."@ + column.name());
        },
    }
}

} // verus!
