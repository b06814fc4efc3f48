//! SQL text of the profile repository.

use crate::infrastructure::profile::ProfileDef;
use crate::text::occurs_in;
use vstd::prelude::*;

verus! {

/// Inserts a profile with username `$1` for user `$2` and returns its id, username and user.
pub open spec fn insert_profile_sql() -> Seq<char> {
    "\n            INSERT INTO "@ + ProfileDef::TABLE@ + " ("@ + ProfileDef::USERNAME@ + ", "@ + ProfileDef::USER_ID@ + ")\n            VALUES ($1, $2)\n            RETURNING "@ + ProfileDef::ID@ + ", "@ + ProfileDef::USERNAME@ + ", "@ + ProfileDef::USER_ID@
}

/// Inserts a profile with username `$1` for user `$2` and returns its id, username and user.
pub fn insert_profile_query() -> (query: String)
    ensures
        query@ == insert_profile_sql(),
{
    let mut query = String::from_str("\n            INSERT INTO ");
    query.append(ProfileDef::TABLE);
    query.append(" (");
    query.append(ProfileDef::USERNAME);
    query.append(", ");
    query.append(ProfileDef::USER_ID);
    query.append(")\n            VALUES ($1, $2)\n            RETURNING ");
    query.append(ProfileDef::ID);
    query.append(", ");
    query.append(ProfileDef::USERNAME);
    query.append(", ");
    query.append(ProfileDef::USER_ID);
    query
}

/// Selects the profile with id `$1`.
pub open spec fn select_profile_by_id_sql() -> Seq<char> {
    "SELECT * FROM "@ + ProfileDef::TABLE@ + " WHERE "@ + ProfileDef::ID@ + " = $1"@
}

/// Selects the profile with id `$1`.
pub fn select_profile_by_id_query() -> (query: String)
    ensures
        query@ == select_profile_by_id_sql(),
{
    let mut query = String::from_str("SELECT * FROM ");
    query.append(ProfileDef::TABLE);
    query.append(" WHERE ");
    query.append(ProfileDef::ID);
    query.append(" = $1");
    query
}

/// Selects the profile of the user with id `$1`.
pub open spec fn select_profile_by_user_id_sql() -> Seq<char> {
    "SELECT * FROM "@ + ProfileDef::TABLE@ + " WHERE "@ + ProfileDef::USER_ID@ + " = $1"@
}

/// Selects the profile of the user with id `$1`.
pub fn select_profile_by_user_id_query() -> (query: String)
    ensures
        query@ == select_profile_by_user_id_sql(),
{
    let mut query = String::from_str("SELECT * FROM ");
    query.append(ProfileDef::TABLE);
    query.append(" WHERE ");
    query.append(ProfileDef::USER_ID);
    query.append(" = $1");
    query
}

/// Sets display name `$1` and bio `$2` of profile `$5`, and banner `$3` and picture `$4` where they are not null.
pub open spec fn update_profile_sql() -> Seq<char> {
    "\n            UPDATE "@ + ProfileDef::TABLE@ + "\n            SET "@ + ProfileDef::DISPLAY_NAME@ + " = $1, "@ + ProfileDef::BIO@ + " = $2,\n            "@ + ProfileDef::BANNER@ + " = COALESCE($3, "@ + ProfileDef::BANNER@ + "),\n            "@ + ProfileDef::PROFILE_PICTURE@ + " = COALESCE($4, "@ + ProfileDef::PROFILE_PICTURE@ + ")\n            WHERE "@ + ProfileDef::ID@ + " = $5\n            "@
}

/// Sets display name `$1` and bio `$2` of profile `$5`, and banner `$3` and picture `$4` where they are not null.
pub fn update_profile_query() -> (query: String)
    ensures
        query@ == update_profile_sql(),
        occurs_in(ProfileDef::DISPLAY_NAME@ + " = $1"@, query@),
        occurs_in(ProfileDef::BIO@ + " = $2"@, query@),
        occurs_in("WHERE "@ + ProfileDef::ID@ + " = $5"@, query@),
{
    proof {
        lemma_profile_update_parameters();
    }
    let mut query = String::from_str("\n            UPDATE ");
    query.append(ProfileDef::TABLE);
    query.append("\n            SET ");
    query.append(ProfileDef::DISPLAY_NAME);
    query.append(" = $1, ");
    query.append(ProfileDef::BIO);
    query.append(" = $2,\n            ");
    query.append(ProfileDef::BANNER);
    query.append(" = COALESCE($3, ");
    query.append(ProfileDef::BANNER);
    query.append("),\n            ");
    query.append(ProfileDef::PROFILE_PICTURE);
    query.append(" = COALESCE($4, ");
    query.append(ProfileDef::PROFILE_PICTURE);
    query.append(")\n            WHERE ");
    query.append(ProfileDef::ID);
    query.append(" = $5\n            ");
    query
}

/// Counts all profiles.
pub open spec fn count_profiles_sql() -> Seq<char> {
    "SELECT count(*) FROM "@ + ProfileDef::TABLE@
}

/// Counts all profiles.
pub fn count_profiles_query() -> (query: String)
    ensures
        query@ == count_profiles_sql(),
{
    let mut query = String::from_str("SELECT count(*) FROM ");
    query.append(ProfileDef::TABLE);
    query
}

/// The profile update sets the display name from `$1` and the bio from `$2`,
/// the banner from `$3` and the picture from `$4` only where those are not null,
/// and changes only the profile whose id is `$5`.
#[verifier::spinoff_prover]
#[verifier::rlimit(40)]
pub proof fn lemma_profile_update_parameters()
    ensures
        occurs_in(ProfileDef::DISPLAY_NAME@ + " = $1"@, update_profile_sql()),
        occurs_in(ProfileDef::BIO@ + " = $2"@, update_profile_sql()),
        occurs_in(
            ProfileDef::BANNER@ + " = COALESCE($3, "@ + ProfileDef::BANNER@ + ")"@,
            update_profile_sql(),
        ),
        occurs_in(
            ProfileDef::PROFILE_PICTURE@ + " = COALESCE($4, "@ + ProfileDef::PROFILE_PICTURE@ + ")"@,
            update_profile_sql(),
        ),
        occurs_in("WHERE "@ + ProfileDef::ID@ + " = $5"@, update_profile_sql()),
{
    reveal_strlit(" = $1, ");
    reveal_strlit(" = $1");
    reveal_strlit(" = $2,\n            ");
    reveal_strlit(" = $2");
    reveal_strlit("),\n            ");
    reveal_strlit(")\n            WHERE ");
    reveal_strlit(")");
    reveal_strlit("WHERE ");
    reveal_strlit(" = $5\n            ");
    reveal_strlit(" = $5");
    let s = update_profile_sql();
    let p0 = "\n            UPDATE "@ + ProfileDef::TABLE@ + "\n            SET "@;
    let t1 = ProfileDef::DISPLAY_NAME@ + " = $1"@;
    assert(s.subrange(p0.len() as int, (p0.len() + t1.len()) as int) =~= t1);
    let p1 = p0 + ProfileDef::DISPLAY_NAME@ + " = $1, "@;
    let t2 = ProfileDef::BIO@ + " = $2"@;
    assert(s.subrange(p1.len() as int, (p1.len() + t2.len()) as int) =~= t2);
    let p2 = p1 + ProfileDef::BIO@ + " = $2,\n            "@;
    let t3 = ProfileDef::BANNER@ + " = COALESCE($3, "@ + ProfileDef::BANNER@ + ")"@;
    assert(s.subrange(p2.len() as int, (p2.len() + t3.len()) as int) =~= t3);
    let p3 = p2 + ProfileDef::BANNER@ + " = COALESCE($3, "@ + ProfileDef::BANNER@ + "),\n            "@;
    let t4 = ProfileDef::PROFILE_PICTURE@ + " = COALESCE($4, "@ + ProfileDef::PROFILE_PICTURE@ + ")"@;
    assert(s.subrange(p3.len() as int, (p3.len() + t4.len()) as int) =~= t4);
    let p4 = p3 + ProfileDef::PROFILE_PICTURE@ + " = COALESCE($4, "@ + ProfileDef::PROFILE_PICTURE@;
    let t5 = "WHERE "@ + ProfileDef::ID@ + " = $5"@;
    let k5 = p4.len() + ")\n            "@.len();
    reveal_strlit(")\n            ");
    assert(s.subrange(k5 as int, (k5 + t5.len()) as int) =~= t5);
}

/// A profile is looked up by its id, or by the id of its user, given as `$1`.
pub proof fn lemma_profile_lookups()
    ensures
        select_profile_by_id_sql().subrange(
            select_profile_by_id_sql().len() - (ProfileDef::ID@ + " = $1"@).len(),
            select_profile_by_id_sql().len() as int,
        ) == ProfileDef::ID@ + " = $1"@,
        select_profile_by_user_id_sql().subrange(
            select_profile_by_user_id_sql().len() - (ProfileDef::USER_ID@ + " = $1"@).len(),
            select_profile_by_user_id_sql().len() as int,
        ) == ProfileDef::USER_ID@ + " = $1"@,
{
    let s = select_profile_by_id_sql();
    let t = ProfileDef::ID@ + " = $1"@;
    assert(s.subrange(s.len() - t.len(), s.len() as int) =~= t);
    let s2 = select_profile_by_user_id_sql();
    let t2 = ProfileDef::USER_ID@ + " = $1"@;
    assert(s2.subrange(s2.len() - t2.len(), s2.len() as int) =~= t2);
}

/// A new profile takes its username from `$1` and its user from `$2`.
#[verifier::spinoff_prover]
#[verifier::rlimit(40)]
pub proof fn lemma_profile_insert_parameters()
    ensures
        occurs_in(
            " ("@ + ProfileDef::USERNAME@ + ", "@ + ProfileDef::USER_ID@ + ")\n            VALUES ($1, $2)"@,
            insert_profile_sql(),
        ),
{
    reveal_strlit(")\n            VALUES ($1, $2)\n            RETURNING ");
    reveal_strlit(")\n            VALUES ($1, $2)");
    let s = insert_profile_sql();
    let p0 = "\n            INSERT INTO "@ + ProfileDef::TABLE@;
    let t = " ("@ + ProfileDef::USERNAME@ + ", "@ + ProfileDef::USER_ID@ + ")\n            VALUES ($1, $2)"@;
    assert(s.subrange(p0.len() as int, (p0.len() + t.len()) as int) =~= t);
}

} // verus!
