//! SQL text of the user repository.

use crate::entities::user::UserDef;
use crate::text::{ends_with, occurs_in};
use vstd::prelude::*;

verus! {

/// Inserts a user with e-mail `$1`, password hash `$2` and role `user`, and returns its id.
pub open spec fn insert_user_sql() -> Seq<char> {
    "\n            INSERT INTO "@ + UserDef::Table.qualified_name() + " ("@ + UserDef::Email.name() + ", "@ + UserDef::Password.name() + ", "@ + UserDef::Role.name() + ")\n            VALUES ($1, $2, 'user')\n            RETURNING "@ + UserDef::Id.name()
}

/// Inserts a user with e-mail `$1`, password hash `$2` and role `user`, and returns its id.
pub fn insert_user_query() -> (query: String)
    ensures
        query@ == insert_user_sql(),
{
    let mut query = String::from_str("\n            INSERT INTO ");
    query.append(UserDef::Table.as_table_str());
    query.append(" (");
    query.append(UserDef::Email.as_str());
    query.append(", ");
    query.append(UserDef::Password.as_str());
    query.append(", ");
    query.append(UserDef::Role.as_str());
    query.append(")\n            VALUES ($1, $2, 'user')\n            RETURNING ");
    query.append(UserDef::Id.as_str());
    query
}

/// Selects the user with e-mail `$1`.
pub open spec fn select_user_by_email_sql() -> Seq<char> {
    "\n        SELECT "@ + UserDef::Id.qualified_name() + " AS "@ + UserDef::Id.unique_name() + ", "@ + UserDef::Email.qualified_name() + ", "@ + UserDef::Password.qualified_name() + ", "@ + UserDef::Role.qualified_name() + "\n        FROM "@ + UserDef::Table.qualified_name() + "\n        WHERE "@ + UserDef::Email.name() + " = $1\n        "@
}

/// Selects the user with e-mail `$1`.
pub fn select_user_by_email_query() -> (query: String)
    ensures
        query@ == select_user_by_email_sql(),
{
    let mut query = String::from_str("\n        SELECT ");
    query.append(UserDef::Id.as_table_str());
    query.append(" AS ");
    query.append(UserDef::Id.unique());
    query.append(", ");
    query.append(UserDef::Email.as_table_str());
    query.append(", ");
    query.append(UserDef::Password.as_table_str());
    query.append(", ");
    query.append(UserDef::Role.as_table_str());
    query.append("\n        FROM ");
    query.append(UserDef::Table.as_table_str());
    query.append("\n        WHERE ");
    query.append(UserDef::Email.as_str());
    query.append(" = $1\n        ");
    query
}

/// Selects the user with id `$1`.
pub open spec fn select_user_by_id_sql() -> Seq<char> {
    "\n        SELECT "@ + UserDef::Id.qualified_name() + " AS "@ + UserDef::Id.unique_name() + ", "@ + UserDef::Email.qualified_name() + ", "@ + UserDef::Password.qualified_name() + ", "@ + UserDef::Role.qualified_name() + "\n        FROM "@ + UserDef::Table.qualified_name() + "\n        WHERE "@ + UserDef::Id.name() + " = $1\n        "@
}

/// Selects the user with id `$1`.
pub fn select_user_by_id_query() -> (query: String)
    ensures
        query@ == select_user_by_id_sql(),
{
    let mut query = String::from_str("\n        SELECT ");
    query.append(UserDef::Id.as_table_str());
    query.append(" AS ");
    query.append(UserDef::Id.unique());
    query.append(", ");
    query.append(UserDef::Email.as_table_str());
    query.append(", ");
    query.append(UserDef::Password.as_table_str());
    query.append(", ");
    query.append(UserDef::Role.as_table_str());
    query.append("\n        FROM ");
    query.append(UserDef::Table.as_table_str());
    query.append("\n        WHERE ");
    query.append(UserDef::Id.as_str());
    query.append(" = $1\n        ");
    query
}

/// A new user takes its e-mail address from `$1`, its password hash from `$2`
/// and the role `user`, and its id is returned.
#[verifier::spinoff_prover]
#[verifier::rlimit(40)]
pub proof fn lemma_user_insert_parameters()
    ensures
        occurs_in(
            " ("@ + UserDef::Email.name() + ", "@ + UserDef::Password.name() + ", "@ + UserDef::Role.name()
                + ")\n            VALUES ($1, $2, 'user')"@,
            insert_user_sql(),
        ),
        ends_with(insert_user_sql(), "RETURNING "@ + UserDef::Id.name()),
{
    reveal_strlit(")\n            VALUES ($1, $2, 'user')\n            RETURNING ");
    reveal_strlit(")\n            VALUES ($1, $2, 'user')");
    reveal_strlit("RETURNING ");
    let s = insert_user_sql();
    let p0 = "\n            INSERT INTO "@ + UserDef::Table.qualified_name();
    let t = " ("@ + UserDef::Email.name() + ", "@ + UserDef::Password.name() + ", "@ + UserDef::Role.name()
        + ")\n            VALUES ($1, $2, 'user')"@;
    assert(s.subrange(p0.len() as int, (p0.len() + t.len()) as int) =~= t);
    let r = "RETURNING "@ + UserDef::Id.name();
    assert(s.subrange(s.len() - r.len(), s.len() as int) =~= r);
}

/// A user is looked up by its e-mail address, or by its id, given as `$1`, and
/// its id is selected under the user alias.
#[verifier::spinoff_prover]
#[verifier::rlimit(40)]
pub proof fn lemma_user_lookups()
    ensures
        ends_with(select_user_by_email_sql(), "WHERE "@ + UserDef::Email.name() + " = $1\n        "@),
        ends_with(select_user_by_id_sql(), "WHERE "@ + UserDef::Id.name() + " = $1\n        "@),
        occurs_in(UserDef::Id.qualified_name() + " AS "@ + UserDef::Id.unique_name(), select_user_by_email_sql()),
        occurs_in(UserDef::Id.qualified_name() + " AS "@ + UserDef::Id.unique_name(), select_user_by_id_sql()),
{
    reveal_strlit("\n        WHERE ");
    reveal_strlit("WHERE ");
    reveal_strlit("\n        ");
    assert("\n        WHERE "@ =~= "\n        "@ + "WHERE "@);
    let a = UserDef::Id.qualified_name() + " AS "@ + UserDef::Id.unique_name();
    let k: int = "\n        SELECT "@.len() as int;
    let s = select_user_by_email_sql();
    let t = "WHERE "@ + UserDef::Email.name() + " = $1\n        "@;
    assert(s.subrange(s.len() - t.len(), s.len() as int) =~= t);
    assert(s.subrange(k, k + a.len()) =~= a);
    let s2 = select_user_by_id_sql();
    let t2 = "WHERE "@ + UserDef::Id.name() + " = $1\n        "@;
    assert(s2.subrange(s2.len() - t2.len(), s2.len() as int) =~= t2);
    assert(s2.subrange(k, k + a.len()) =~= a);
}

} // verus!
