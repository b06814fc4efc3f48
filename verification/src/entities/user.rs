//! Names of the `users` table and its columns.

use vstd::prelude::*;

verus! {

/// The `users` table and its columns.
pub enum UserDef {
    Table,
    Id,
    Email,
    Password,
    Role,
}

impl UserDef {
    /// The bare name.
    pub open spec fn name(self) -> Seq<char> {
        match self {
            UserDef::Table => "users"@,
            UserDef::Id => "id"@,
            UserDef::Email => "email"@,
            UserDef::Password => "password"@,
            UserDef::Role => "role"@,
        }
    }

    /// The name qualified by the table name.
    pub open spec fn qualified_name(self) -> Seq<char> {
        match self {
            UserDef::Table => "users"@,
            UserDef::Id => "users.id"@,
            UserDef::Email => "users.email"@,
            UserDef::Password => "users.password"@,
            UserDef::Role => "users.role"@,
        }
    }

    /// The name a column is selected under: the id has an alias of its own.
    pub open spec fn unique_name(self) -> Seq<char> {
        match self {
            UserDef::Id => "user_id"@,
            _ => self.qualified_name(),
        }
    }

    pub fn as_str(&self) -> (name: &str)
        ensures
            name@ == self.name(),
    {
        match self {
            UserDef::Table => "users",
            UserDef::Id => "id",
            UserDef::Email => "email",
            UserDef::Password => "password",
            UserDef::Role => "role",
        }
    }

    pub fn as_table_str(&self) -> (name: &str)
        ensures
            name@ == self.qualified_name(),
    {
        match self {
            UserDef::Table => "users",
            UserDef::Id => "users.id",
            UserDef::Email => "users.email",
            UserDef::Password => "users.password",
            UserDef::Role => "users.role",
        }
    }

    pub fn unique(&self) -> (name: &str)
        ensures
            name@ == self.unique_name(),
    {
        match self {
            UserDef::Id => "user_id",
            _ => self.as_table_str(),
        }
    }
}

/// Every column's qualified name is the table's name, a dot and the column's
/// name.
pub proof fn lemma_user_columns_qualified_by_table(column: UserDef)
    ensures
        !(column is Table) ==> column.qualified_name() == UserDef::Table.name() + "."@
            + column.name(),
{
    reveal_strlit("users");
    reveal_strlit(".");
    match column {
        UserDef::Table => {},
        UserDef::Id => {
            reveal_strlit("id");
            reveal_strlit("users.id");
            assert(column.qualified_name() =~= UserDef::Table.name() + "."@ + column.name());
        },
        UserDef::Email => {
            reveal_strlit("email");
            reveal_strlit("users.email");
            assert(column.qualified_name() =~= UserDef::Table.name() + "."@ + column.name());
        },
        UserDef::Password => {
            reveal_strlit("password");
            reveal_strlit("users.password");
            assert(column.qualified_name() =~= UserDef::Table.name() + "."@ + column.name());
        },
        UserDef::Role => {
            reveal_strlit("role");
            reveal_strlit("users.role");
            assert(column.qualified_name() =~= UserDef::Table.name() + "."@ + column.name());
        },
    }
}

} // verus!
