//! SQL text of the figure repository.

use crate::infrastructure::figure::FigureDef;
use crate::infrastructure::profile::ProfileDef;
use crate::text::{append_i64_decimal, ends_with, int_decimal, occurs_in};
use vstd::prelude::*;

verus! {

/// How many figures a browsed page holds.
pub const BROWSE_PAGE_SIZE: i32 = 3;

/// How many figures the landing page shows.
pub const LANDING_PAGE_SIZE: i32 = 9;

/// Inserts a figure and returns its new id.
pub open spec fn insert_figure_sql() -> Seq<char> {
    "\n            INSERT INTO "@ + FigureDef::TABLE@ + "\n            ("@ + FigureDef::ID@ + ", "@ + FigureDef::TITLE@ + ", "@ + FigureDef::DESCRIPTION@ + ",\n            "@ + FigureDef::WIDTH@ + ", "@ + FigureDef::HEIGHT@ + ", "@ + FigureDef::URL@ + ",\n            "@ + FigureDef::PROFILE_ID@ + ")\n            VALUES (DEFAULT, $1, $2, $3, $4, $5, $6)\n            RETURNING "@ + FigureDef::ID@ + ";\n            "@
}

/// Inserts a figure and returns its new id.
pub fn insert_figure_query() -> (query: String)
    ensures
        query@ == insert_figure_sql(),
{
    let mut query = String::from_str("\n            INSERT INTO ");
    query.append(FigureDef::TABLE);
    query.append("\n            (");
    query.append(FigureDef::ID);
    query.append(", ");
    query.append(FigureDef::TITLE);
    query.append(", ");
    query.append(FigureDef::DESCRIPTION);
    query.append(",\n            ");
    query.append(FigureDef::WIDTH);
    query.append(", ");
    query.append(FigureDef::HEIGHT);
    query.append(", ");
    query.append(FigureDef::URL);
    query.append(",\n            ");
    query.append(FigureDef::PROFILE_ID);
    query.append(")\n            VALUES (DEFAULT, $1, $2, $3, $4, $5, $6)\n            RETURNING ");
    query.append(FigureDef::ID);
    query.append(";\n            ");
    query
}

/// Selects the figure with id `$1` joined with the profile that posted it.
pub open spec fn select_figure_with_profile_sql() -> Seq<char> {
    "\n            SELECT\n            "@ + FigureDef::ID@ + " AS "@ + FigureDef::ID_UNIQUE@ + ", "@ + FigureDef::TITLE@ + ", "@ + FigureDef::DESCRIPTION@ + ",\n            "@ + FigureDef::URL@ + ", "@ + FigureDef::WIDTH@ + ", "@ + FigureDef::HEIGHT@ + ", "@ + FigureDef::PROFILE_ID@ + ",\n\n            "@ + ProfileDef::ID@ + " AS "@ + ProfileDef::ID_UNIQUE@ + ", "@ + ProfileDef::USERNAME@ + ", "@ + ProfileDef::DISPLAY_NAME@ + ",\n            "@ + ProfileDef::BIO@ + ", "@ + ProfileDef::BANNER@ + ", "@ + ProfileDef::PROFILE_PICTURE@ + ", "@ + ProfileDef::USER_ID@ + "\n\n            FROM "@ + FigureDef::TABLE@ + "\n            INNER JOIN "@ + ProfileDef::TABLE@ + "\n            ON "@ + FigureDef::PROFILE_ID@ + " = "@ + ProfileDef::ID@ + "\n            WHERE "@ + FigureDef::ID@ + " = $1\n            "@
}

/// Selects the figure with id `$1` joined with the profile that posted it.
pub fn select_figure_with_profile_query() -> (query: String)
    ensures
        query@ == select_figure_with_profile_sql(),
        occurs_in(FigureDef::ID@ + " AS "@ + FigureDef::ID_UNIQUE@, query@),
        occurs_in(ProfileDef::ID@ + " AS "@ + ProfileDef::ID_UNIQUE@, query@),
{
    proof {
        lemma_figure_lookup_aliases();
    }
    let mut query = String::from_str("\n            SELECT\n            ");
    query.append(FigureDef::ID);
    query.append(" AS ");
    query.append(FigureDef::ID_UNIQUE);
    query.append(", ");
    query.append(FigureDef::TITLE);
    query.append(", ");
    query.append(FigureDef::DESCRIPTION);
    query.append(",\n            ");
    query.append(FigureDef::URL);
    query.append(", ");
    query.append(FigureDef::WIDTH);
    query.append(", ");
    query.append(FigureDef::HEIGHT);
    query.append(", ");
    query.append(FigureDef::PROFILE_ID);
    query.append(",\n\n            ");
    query.append(ProfileDef::ID);
    query.append(" AS ");
    query.append(ProfileDef::ID_UNIQUE);
    query.append(", ");
    query.append(ProfileDef::USERNAME);
    query.append(", ");
    query.append(ProfileDef::DISPLAY_NAME);
    query.append(",\n            ");
    query.append(ProfileDef::BIO);
    query.append(", ");
    query.append(ProfileDef::BANNER);
    query.append(", ");
    query.append(ProfileDef::PROFILE_PICTURE);
    query.append(", ");
    query.append(ProfileDef::USER_ID);
    query.append("\n\n            FROM ");
    query.append(FigureDef::TABLE);
    query.append("\n            INNER JOIN ");
    query.append(ProfileDef::TABLE);
    query.append("\n            ON ");
    query.append(FigureDef::PROFILE_ID);
    query.append(" = ");
    query.append(ProfileDef::ID);
    query.append("\n            WHERE ");
    query.append(FigureDef::ID);
    query.append(" = $1\n            ");
    query
}

/// Selects every figure joined with the profile that posted it, unfiltered and unordered.
pub open spec fn browse_base_sql() -> Seq<char> {
    "\n            SELECT "@ + FigureDef::ID@ + " AS "@ + FigureDef::ID_UNIQUE@ + ", "@ + FigureDef::TITLE@ + ", "@ + FigureDef::DESCRIPTION@ + ", "@ + FigureDef::URL@ + ", "@ + FigureDef::WIDTH@ + ", "@ + FigureDef::HEIGHT@ + ", "@ + FigureDef::PROFILE_ID@ + ",\n            "@ + ProfileDef::ID@ + " AS "@ + ProfileDef::ID_UNIQUE@ + ", "@ + ProfileDef::USERNAME@ + ", "@ + ProfileDef::DISPLAY_NAME@ + ", "@ + ProfileDef::BIO@ + ", "@ + ProfileDef::BANNER@ + ", "@ + ProfileDef::PROFILE_PICTURE@ + ", "@ + ProfileDef::USER_ID@ + "\n            FROM "@ + FigureDef::TABLE@ + "\n            INNER JOIN "@ + ProfileDef::TABLE@ + "\n            ON "@ + FigureDef::PROFILE_ID@ + " = "@ + ProfileDef::ID@ + "\n            "@
}

/// Selects every figure joined with the profile that posted it, unfiltered and unordered.
pub fn browse_base_query() -> (query: String)
    ensures
        query@ == browse_base_sql(),
{
    let mut query = String::from_str("\n            SELECT ");
    query.append(FigureDef::ID);
    query.append(" AS ");
    query.append(FigureDef::ID_UNIQUE);
    query.append(", ");
    query.append(FigureDef::TITLE);
    query.append(", ");
    query.append(FigureDef::DESCRIPTION);
    query.append(", ");
    query.append(FigureDef::URL);
    query.append(", ");
    query.append(FigureDef::WIDTH);
    query.append(", ");
    query.append(FigureDef::HEIGHT);
    query.append(", ");
    query.append(FigureDef::PROFILE_ID);
    query.append(",\n            ");
    query.append(ProfileDef::ID);
    query.append(" AS ");
    query.append(ProfileDef::ID_UNIQUE);
    query.append(", ");
    query.append(ProfileDef::USERNAME);
    query.append(", ");
    query.append(ProfileDef::DISPLAY_NAME);
    query.append(", ");
    query.append(ProfileDef::BIO);
    query.append(", ");
    query.append(ProfileDef::BANNER);
    query.append(", ");
    query.append(ProfileDef::PROFILE_PICTURE);
    query.append(", ");
    query.append(ProfileDef::USER_ID);
    query.append("\n            FROM ");
    query.append(FigureDef::TABLE);
    query.append("\n            INNER JOIN ");
    query.append(ProfileDef::TABLE);
    query.append("\n            ON ");
    query.append(FigureDef::PROFILE_ID);
    query.append(" = ");
    query.append(ProfileDef::ID);
    query.append("\n            ");
    query
}

/// Updates title, description, url, width and height of the figure with id `$1`.
pub open spec fn update_figure_sql() -> Seq<char> {
    "\n            UPDATE "@ + FigureDef::TABLE@ + "\n            SET "@ + FigureDef::TITLE@ + " = $2, "@ + FigureDef::DESCRIPTION@ + " = $3, "@ + FigureDef::URL@ + " = $4, "@ + FigureDef::WIDTH@ + " = $5, "@ + FigureDef::HEIGHT@ + " = $6\n            WHERE "@ + FigureDef::ID@ + " = $1\n            "@
}

/// Updates title, description, url, width and height of the figure with id `$1`.
pub fn update_figure_query() -> (query: String)
    ensures
        query@ == update_figure_sql(),
        occurs_in(FigureDef::TITLE@ + " = $2"@, query@),
        occurs_in(FigureDef::DESCRIPTION@ + " = $3"@, query@),
        occurs_in(FigureDef::URL@ + " = $4"@, query@),
        occurs_in(FigureDef::WIDTH@ + " = $5"@, query@),
        occurs_in(FigureDef::HEIGHT@ + " = $6"@, query@),
        occurs_in("WHERE "@ + FigureDef::ID@ + " = $1"@, query@),
{
    proof {
        lemma_figure_update_parameters();
    }
    let mut query = String::from_str("\n            UPDATE ");
    query.append(FigureDef::TABLE);
    query.append("\n            SET ");
    query.append(FigureDef::TITLE);
    query.append(" = $2, ");
    query.append(FigureDef::DESCRIPTION);
    query.append(" = $3, ");
    query.append(FigureDef::URL);
    query.append(" = $4, ");
    query.append(FigureDef::WIDTH);
    query.append(" = $5, ");
    query.append(FigureDef::HEIGHT);
    query.append(" = $6\n            WHERE ");
    query.append(FigureDef::ID);
    query.append(" = $1\n            ");
    query
}

/// Deletes the figure with id `$1`.
pub open spec fn delete_figure_sql() -> Seq<char> {
    "\n            DELETE FROM "@ + FigureDef::TABLE@ + "\n            WHERE "@ + FigureDef::ID@ + " = $1\n            "@
}

/// Deletes the figure with id `$1`.
pub fn delete_figure_query() -> (query: String)
    ensures
        query@ == delete_figure_sql(),
{
    let mut query = String::from_str("\n            DELETE FROM ");
    query.append(FigureDef::TABLE);
    query.append("\n            WHERE ");
    query.append(FigureDef::ID);
    query.append(" = $1\n            ");
    query
}

/// Counts the figures of the profile with id `$1`.
pub open spec fn count_figures_by_profile_sql() -> Seq<char> {
    "\n        SELECT count(*) FROM "@ + FigureDef::TABLE@ + "\n        where "@ + FigureDef::PROFILE_ID@ + " = $1\n        "@
}

/// Counts the figures of the profile with id `$1`.
pub fn count_figures_by_profile_query() -> (query: String)
    ensures
        query@ == count_figures_by_profile_sql(),
{
    let mut query = String::from_str("\n        SELECT count(*) FROM ");
    query.append(FigureDef::TABLE);
    query.append("\n        where ");
    query.append(FigureDef::PROFILE_ID);
    query.append(" = $1\n        ");
    query
}

/// Counts all figures.
pub open spec fn count_figures_sql() -> Seq<char> {
    "\n        SELECT count(*) FROM "@ + FigureDef::TABLE@ + "\n        "@
}

/// Counts all figures.
pub fn count_figures_query() -> (query: String)
    ensures
        query@ == count_figures_sql(),
{
    let mut query = String::from_str("\n        SELECT count(*) FROM ");
    query.append(FigureDef::TABLE);
    query.append("\n        ");
    query
}

/// The filter restricting figures to those of one profile: it opens the WHERE
/// clause unless a bound on the figure id already did.
pub open spec fn profile_filter_sql(profile_id: i64, after_where: bool) -> Seq<char> {
    (if after_where {
        "AND "@
    } else {
        "WHERE "@
    }) + FigureDef::PROFILE_ID@ + " = "@ + int_decimal(profile_id as int)
}

/// A page of figures with their profiles: only figures with an id below
/// `figure_id` when given, only those of `profile_id` when given, newest first,
/// at most `limit` of them.
pub open spec fn browse_sql(figure_id: Option<i64>, profile_id: Option<i64>, limit: i32) -> Seq<char> {
    let bounded = match figure_id {
        Some(start) => "\n            "@ + browse_base_sql() + "\n            WHERE "@ + FigureDef::ID@
            + " < "@ + int_decimal(start as int) + "\n            "@,
        None => browse_base_sql(),
    };
    let filtered = match profile_id {
        Some(owner) => "\n            "@ + bounded + "\n            "@ + profile_filter_sql(
            owner,
            figure_id is Some,
        ) + "\n            "@,
        None => bounded,
    };
    "\n        "@ + filtered + "\n        ORDER BY "@ + FigureDef::ID@ + " DESC\n        LIMIT "@
        + int_decimal(limit as int) + "\n        "@
}

/// The query of a page of figures with their profiles (see `browse_sql`).
pub fn browse_query(figure_id: Option<i64>, profile_id: Option<i64>, limit: i32) -> (query: String)
    ensures
        query@ == browse_sql(figure_id, profile_id, limit),
        ends_with(
            query@,
            "\n        ORDER BY "@ + FigureDef::ID@ + " DESC\n        LIMIT "@ + int_decimal(limit as int)
                + "\n        "@,
        ),
        figure_id matches Some(start) ==> occurs_in(
            "WHERE "@ + FigureDef::ID@ + " < "@ + int_decimal(start as int),
            query@,
        ),
        profile_id matches Some(owner) ==> occurs_in(
            FigureDef::PROFILE_ID@ + " = "@ + int_decimal(owner as int),
            query@,
        ),
{
    proof {
        lemma_browse_newest_first(figure_id, profile_id, limit);
        lemma_browse_filters(figure_id, profile_id, limit);
    }
    let mut query_string = browse_base_query();
    // Only figures older than the given one.
    if let Some(starting_from_id) = figure_id {
        let mut bounded = String::from_str("\n            ");
        bounded.append(query_string.as_str());
        bounded.append("\n            WHERE ");
        bounded.append(FigureDef::ID);
        bounded.append(" < ");
        append_i64_decimal(&mut bounded, starting_from_id);
        bounded.append("\n            ");
        query_string = bounded;
    }
    // Only figures of the given profile; a WHERE clause exists only after a figure bound.
    if let Some(from_profile) = profile_id {
        let mut filter = if figure_id.is_some() {
            String::from_str("AND ")
        } else {
            String::from_str("WHERE ")
        };
        filter.append(FigureDef::PROFILE_ID);
        filter.append(" = ");
        append_i64_decimal(&mut filter, from_profile);
        let mut filtered = String::from_str("\n            ");
        filtered.append(query_string.as_str());
        filtered.append("\n            ");
        filtered.append(filter.as_str());
        filtered.append("\n            ");
        query_string = filtered;
    }
    // Newest first, limited.
    let mut query = String::from_str("\n        ");
    query.append(query_string.as_str());
    query.append("\n        ORDER BY ");
    query.append(FigureDef::ID);
    query.append(" DESC\n        LIMIT ");
    append_i64_decimal(&mut query, limit as i64);
    query.append("\n        ");
    query
}

/// The figure lookup selects the figure's id under the figure alias and the
/// profile's id under the profile alias, joins each figure with the profile
/// that posted it, and picks the figure by the id `$1`.
#[verifier::spinoff_prover]
#[verifier::rlimit(40)]
pub proof fn lemma_figure_lookup_aliases()
    ensures
        occurs_in(FigureDef::ID@ + " AS "@ + FigureDef::ID_UNIQUE@, select_figure_with_profile_sql()),
        occurs_in(ProfileDef::ID@ + " AS "@ + ProfileDef::ID_UNIQUE@, select_figure_with_profile_sql()),
        occurs_in(
            "ON "@ + FigureDef::PROFILE_ID@ + " = "@ + ProfileDef::ID@,
            select_figure_with_profile_sql(),
        ),
        ends_with(select_figure_with_profile_sql(), "WHERE "@ + FigureDef::ID@ + " = $1\n            "@),
{
    let s = select_figure_with_profile_sql();
    let fig = FigureDef::ID@ + " AS "@ + FigureDef::ID_UNIQUE@;
    let k1: int = "\n            SELECT\n            "@.len() as int;
    assert(s.subrange(k1 as int, (k1 + fig.len()) as int) =~= fig);
    let prof = ProfileDef::ID@ + " AS "@ + ProfileDef::ID_UNIQUE@;
    let before_prof = "\n            SELECT\n            "@ + FigureDef::ID@ + " AS "@ + FigureDef::ID_UNIQUE@ + ", "@ + FigureDef::TITLE@ + ", "@ + FigureDef::DESCRIPTION@ + ",\n            "@ + FigureDef::URL@ + ", "@ + FigureDef::WIDTH@ + ", "@ + FigureDef::HEIGHT@ + ", "@ + FigureDef::PROFILE_ID@ + ",\n\n            "@;
    assert(s.subrange(before_prof.len() as int, (before_prof.len() + prof.len()) as int) =~= prof);
    reveal_strlit("ON ");
    reveal_strlit("\n            ON ");
    reveal_strlit("WHERE ");
    reveal_strlit("\n            WHERE ");
    let on = "ON "@ + FigureDef::PROFILE_ID@ + " = "@ + ProfileDef::ID@;
    let before_on = before_prof + ProfileDef::ID@ + " AS "@ + ProfileDef::ID_UNIQUE@ + ", "@ + ProfileDef::USERNAME@ + ", "@ + ProfileDef::DISPLAY_NAME@ + ",\n            "@ + ProfileDef::BIO@ + ", "@ + ProfileDef::BANNER@ + ", "@ + ProfileDef::PROFILE_PICTURE@ + ", "@ + ProfileDef::USER_ID@ + "\n\n            FROM "@ + FigureDef::TABLE@ + "\n            INNER JOIN "@ + ProfileDef::TABLE@ + "\n            "@;
    assert("\n            ON "@ =~= "\n            "@ + "ON "@) by {
        reveal_strlit("\n            ");
    }
    assert(s.subrange(before_on.len() as int, (before_on.len() + on.len()) as int) =~= on);
    let tail = "WHERE "@ + FigureDef::ID@ + " = $1\n            "@;
    assert(s.subrange(s.len() - tail.len(), s.len() as int) =~= tail);
}

/// The figures (with their profiles) a browsed page is taken from: those below
/// the figure bound when given, and of the profile when given.
pub open spec fn browse_filtered_sql(figure_id: Option<i64>, profile_id: Option<i64>) -> Seq<char> {
    let bounded = match figure_id {
        Some(start) => "\n            "@ + browse_base_sql() + "\n            WHERE "@ + FigureDef::ID@
            + " < "@ + int_decimal(start as int) + "\n            "@,
        None => browse_base_sql(),
    };
    match profile_id {
        Some(owner) => "\n            "@ + bounded + "\n            "@ + profile_filter_sql(
            owner,
            figure_id is Some,
        ) + "\n            "@,
        None => bounded,
    }
}

/// A browsed page is ordered newest first (by descending figure id) and holds at
/// most `limit` figures.
#[verifier::spinoff_prover]
#[verifier::rlimit(40)]
pub proof fn lemma_browse_newest_first(figure_id: Option<i64>, profile_id: Option<i64>, limit: i32)
    ensures
        ends_with(
            browse_sql(figure_id, profile_id, limit),
            "\n        ORDER BY "@ + FigureDef::ID@ + " DESC\n        LIMIT "@ + int_decimal(limit as int)
                + "\n        "@,
        ),
{
    let s = browse_sql(figure_id, profile_id, limit);
    let filtered = browse_filtered_sql(figure_id, profile_id);
    let tail = "\n        ORDER BY "@ + FigureDef::ID@ + " DESC\n        LIMIT "@ + int_decimal(limit as int)
        + "\n        "@;
    assert(s =~= "\n        "@ + filtered + "\n        ORDER BY "@ + FigureDef::ID@ + " DESC\n        LIMIT "@
        + int_decimal(limit as int) + "\n        "@);
    assert(s.subrange(s.len() - tail.len(), s.len() as int) =~= tail);
}

proof fn lemma_nested_occurrence(s: Seq<char>, x: Seq<char>, t: Seq<char>, a: int, b: int)
    requires
        0 <= a,
        a + x.len() <= s.len(),
        s.subrange(a, a + x.len()) == x,
        0 <= b,
        b + t.len() <= x.len(),
        x.subrange(b, b + t.len()) == t,
    ensures
        s.subrange(a + b, a + b + t.len()) == t,
{
    assert(s.subrange(a + b, a + b + t.len()) =~= x.subrange(b, b + t.len()));
}

/// Where the unfiltered selection starts inside the filtered text.
#[verifier::spinoff_prover]
#[verifier::rlimit(40)]
proof fn lemma_base_in_filtered(figure_id: Option<i64>, profile_id: Option<i64>) -> (at: int)
    ensures
        0 <= at,
        at + browse_base_sql().len() <= browse_filtered_sql(figure_id, profile_id).len(),
        browse_filtered_sql(figure_id, profile_id).subrange(at, at + browse_base_sql().len())
            == browse_base_sql(),
{
    let base = browse_base_sql();
    let nl = "\n            "@;
    let bounded = match figure_id {
        Some(start) => nl + base + "\n            WHERE "@ + FigureDef::ID@ + " < "@ + int_decimal(start as int) + nl,
        None => base,
    };
    let b: int = if figure_id is Some { nl.len() as int } else { 0 };
    assert(bounded.subrange(b, b + base.len()) =~= base);
    match profile_id {
        Some(owner) => {
            let f = browse_filtered_sql(figure_id, profile_id);
            let rest = profile_filter_sql(owner, figure_id is Some);
            assert(f =~= nl + bounded + nl + rest + nl);
            assert(f.subrange(nl.len() as int, (nl.len() + bounded.len()) as int) =~= bounded);
            lemma_nested_occurrence(f, bounded, base, nl.len() as int, b);
            nl.len() + b
        },
        None => b,
    }
}

/// Where the figure and profile aliases stand inside the unfiltered selection.
#[verifier::spinoff_prover]
#[verifier::rlimit(40)]
proof fn lemma_base_aliases() -> (at: (int, int))
    ensures
        0 <= at.0,
        at.0 + (FigureDef::ID@ + " AS "@ + FigureDef::ID_UNIQUE@).len() <= browse_base_sql().len(),
        browse_base_sql().subrange(at.0, at.0 + (FigureDef::ID@ + " AS "@ + FigureDef::ID_UNIQUE@).len())
            == FigureDef::ID@ + " AS "@ + FigureDef::ID_UNIQUE@,
        0 <= at.1,
        at.1 + (ProfileDef::ID@ + " AS "@ + ProfileDef::ID_UNIQUE@).len() <= browse_base_sql().len(),
        browse_base_sql().subrange(at.1, at.1 + (ProfileDef::ID@ + " AS "@ + ProfileDef::ID_UNIQUE@).len())
            == ProfileDef::ID@ + " AS "@ + ProfileDef::ID_UNIQUE@,
{
    let base = browse_base_sql();
    let fig = FigureDef::ID@ + " AS "@ + FigureDef::ID_UNIQUE@;
    let prof = ProfileDef::ID@ + " AS "@ + ProfileDef::ID_UNIQUE@;
    let k1: int = "\n            SELECT "@.len() as int;
    assert(base.subrange(k1, k1 + fig.len()) =~= fig);
    let before_prof = "\n            SELECT "@ + FigureDef::ID@ + " AS "@ + FigureDef::ID_UNIQUE@ + ", "@ + FigureDef::TITLE@ + ", "@ + FigureDef::DESCRIPTION@ + ", "@ + FigureDef::URL@ + ", "@ + FigureDef::WIDTH@ + ", "@ + FigureDef::HEIGHT@ + ", "@ + FigureDef::PROFILE_ID@ + ",\n            "@;
    let k2: int = before_prof.len() as int;
    assert(base.subrange(k2, k2 + prof.len()) =~= prof);
    (k1, k2)
}

/// The filtered text stands right after the opening line of a browsed page.
#[verifier::spinoff_prover]
#[verifier::rlimit(40)]
proof fn lemma_filtered_in_browse(figure_id: Option<i64>, profile_id: Option<i64>, limit: i32)
    ensures
        "\n        "@.len() + browse_filtered_sql(figure_id, profile_id).len() <= browse_sql(figure_id, profile_id, limit).len(),
        browse_sql(figure_id, profile_id, limit).subrange(
            "\n        "@.len() as int,
            ("\n        "@.len() + browse_filtered_sql(figure_id, profile_id).len()) as int,
        ) == browse_filtered_sql(figure_id, profile_id),
{
    let s = browse_sql(figure_id, profile_id, limit);
    let filtered = browse_filtered_sql(figure_id, profile_id);
    let outer = "\n        "@;
    assert(s =~= outer + filtered + "\n        ORDER BY "@ + FigureDef::ID@ + " DESC\n        LIMIT "@
        + int_decimal(limit as int) + "\n        "@);
    assert(s.subrange(outer.len() as int, (outer.len() + filtered.len()) as int) =~= filtered);
}

/// Where the figure bound stands inside the filtered text.
#[verifier::spinoff_prover]
#[verifier::rlimit(40)]
proof fn lemma_bound_in_filtered(start: i64, profile_id: Option<i64>) -> (at: int)
    ensures
        0 <= at,
        at + ("WHERE "@ + FigureDef::ID@ + " < "@ + int_decimal(start as int)).len()
            <= browse_filtered_sql(Some(start), profile_id).len(),
        browse_filtered_sql(Some(start), profile_id).subrange(
            at,
            at + ("WHERE "@ + FigureDef::ID@ + " < "@ + int_decimal(start as int)).len(),
        ) == "WHERE "@ + FigureDef::ID@ + " < "@ + int_decimal(start as int),
{
    reveal_strlit("WHERE ");
    reveal_strlit("\n            WHERE ");
    reveal_strlit("\n            ");
    let nl = "\n            "@;
    let base = browse_base_sql();
    let bounded = nl + base + "\n            WHERE "@ + FigureDef::ID@ + " < "@ + int_decimal(start as int) + nl;
    let w = "WHERE "@ + FigureDef::ID@ + " < "@ + int_decimal(start as int);
    assert("\n            WHERE "@ =~= nl + "WHERE "@);
    let b: int = (nl.len() + base.len() + nl.len()) as int;
    assert(bounded.subrange(b, b + w.len()) =~= w);
    match profile_id {
        Some(owner) => {
            let f = browse_filtered_sql(Some(start), profile_id);
            assert(f =~= nl + bounded + nl + profile_filter_sql(owner, true) + nl);
            assert(f.subrange(nl.len() as int, (nl.len() + bounded.len()) as int) =~= bounded);
            lemma_nested_occurrence(f, bounded, w, nl.len() as int, b);
            nl.len() + b
        },
        None => b,
    }
}

/// Where the profile filter stands inside the filtered text.
#[verifier::spinoff_prover]
#[verifier::rlimit(40)]
proof fn lemma_owner_in_filtered(figure_id: Option<i64>, owner: i64) -> (at: int)
    ensures
        0 <= at,
        at + (FigureDef::PROFILE_ID@ + " = "@ + int_decimal(owner as int)).len()
            <= browse_filtered_sql(figure_id, Some(owner)).len(),
        browse_filtered_sql(figure_id, Some(owner)).subrange(
            at,
            at + (FigureDef::PROFILE_ID@ + " = "@ + int_decimal(owner as int)).len(),
        ) == FigureDef::PROFILE_ID@ + " = "@ + int_decimal(owner as int),
{
    let nl = "\n            "@;
    let bounded = match figure_id {
        Some(start) => nl + browse_base_sql() + "\n            WHERE "@ + FigureDef::ID@ + " < "@
            + int_decimal(start as int) + nl,
        None => browse_base_sql(),
    };
    let lead = if figure_id is Some { "AND "@ } else { "WHERE "@ };
    let f = lead + FigureDef::PROFILE_ID@ + " = "@ + int_decimal(owner as int);
    let p = FigureDef::PROFILE_ID@ + " = "@ + int_decimal(owner as int);
    let filtered = browse_filtered_sql(figure_id, Some(owner));
    assert(filtered =~= nl + bounded + nl + f + nl);
    assert(f.subrange(lead.len() as int, (lead.len() + p.len()) as int) =~= p);
    let a: int = (nl.len() + bounded.len() + nl.len()) as int;
    assert(filtered.subrange(a, a + f.len()) =~= f);
    lemma_nested_occurrence(filtered, f, p, a, lead.len() as int);
    a + lead.len()
}

/// A figure bound keeps only figures with a smaller id, and a profile filter
/// keeps only the figures of that profile.
pub proof fn lemma_browse_filters(figure_id: Option<i64>, profile_id: Option<i64>, limit: i32)
    ensures
        figure_id matches Some(start) ==> occurs_in(
            "WHERE "@ + FigureDef::ID@ + " < "@ + int_decimal(start as int),
            browse_sql(figure_id, profile_id, limit),
        ),
        profile_id matches Some(owner) ==> occurs_in(
            FigureDef::PROFILE_ID@ + " = "@ + int_decimal(owner as int),
            browse_sql(figure_id, profile_id, limit),
        ),
{
    let s = browse_sql(figure_id, profile_id, limit);
    let filtered = browse_filtered_sql(figure_id, profile_id);
    let outer: int = "\n        "@.len() as int;
    lemma_filtered_in_browse(figure_id, profile_id, limit);
    if let Some(start) = figure_id {
        let w = "WHERE "@ + FigureDef::ID@ + " < "@ + int_decimal(start as int);
        let b = lemma_bound_in_filtered(start, profile_id);
        lemma_nested_occurrence(s, filtered, w, outer, b);
    }
    if let Some(owner) = profile_id {
        let p = FigureDef::PROFILE_ID@ + " = "@ + int_decimal(owner as int);
        let b = lemma_owner_in_filtered(figure_id, owner);
        lemma_nested_occurrence(s, filtered, p, outer, b);
    }
}

/// A browsed page selects each figure's id under the figure alias and its
/// profile's id under the profile alias.
pub proof fn lemma_browse_aliases(figure_id: Option<i64>, profile_id: Option<i64>, limit: i32)
    ensures
        occurs_in(FigureDef::ID@ + " AS "@ + FigureDef::ID_UNIQUE@, browse_sql(figure_id, profile_id, limit)),
        occurs_in(ProfileDef::ID@ + " AS "@ + ProfileDef::ID_UNIQUE@, browse_sql(figure_id, profile_id, limit)),
{
    let s = browse_sql(figure_id, profile_id, limit);
    let filtered = browse_filtered_sql(figure_id, profile_id);
    let base = browse_base_sql();
    let fig = FigureDef::ID@ + " AS "@ + FigureDef::ID_UNIQUE@;
    let prof = ProfileDef::ID@ + " AS "@ + ProfileDef::ID_UNIQUE@;
    let outer: int = "\n        "@.len() as int;
    lemma_filtered_in_browse(figure_id, profile_id, limit);
    let b = lemma_base_in_filtered(figure_id, profile_id);
    let (k1, k2) = lemma_base_aliases();
    lemma_nested_occurrence(s, filtered, base, outer, b);
    lemma_nested_occurrence(s, base, fig, outer + b, k1);
    lemma_nested_occurrence(s, base, prof, outer + b, k2);
}

/// The figure update changes only the figure whose id is `$1`, setting the
/// title from `$2`, the description from `$3`, the url from `$4`, the width
/// from `$5` and the height from `$6`.
#[verifier::spinoff_prover]
#[verifier::rlimit(40)]
pub proof fn lemma_figure_update_parameters()
    ensures
        occurs_in(FigureDef::TITLE@ + " = $2"@, update_figure_sql()),
        occurs_in(FigureDef::DESCRIPTION@ + " = $3"@, update_figure_sql()),
        occurs_in(FigureDef::URL@ + " = $4"@, update_figure_sql()),
        occurs_in(FigureDef::WIDTH@ + " = $5"@, update_figure_sql()),
        occurs_in(FigureDef::HEIGHT@ + " = $6"@, update_figure_sql()),
        occurs_in("WHERE "@ + FigureDef::ID@ + " = $1"@, update_figure_sql()),
{
    reveal_strlit(" = $2, ");
    reveal_strlit(" = $2");
    reveal_strlit(" = $3, ");
    reveal_strlit(" = $3");
    reveal_strlit(" = $4, ");
    reveal_strlit(" = $4");
    reveal_strlit(" = $5, ");
    reveal_strlit(" = $5");
    reveal_strlit(" = $6\n            WHERE ");
    reveal_strlit(" = $6");
    reveal_strlit("WHERE ");
    reveal_strlit(" = $1\n            ");
    reveal_strlit(" = $1");
    let s = update_figure_sql();
    let p0 = "\n            UPDATE "@ + FigureDef::TABLE@ + "\n            SET "@;
    let t1 = FigureDef::TITLE@ + " = $2"@;
    assert(s.subrange(p0.len() as int, (p0.len() + t1.len()) as int) =~= t1);
    let p1 = p0 + FigureDef::TITLE@ + " = $2, "@;
    let t2 = FigureDef::DESCRIPTION@ + " = $3"@;
    assert(s.subrange(p1.len() as int, (p1.len() + t2.len()) as int) =~= t2);
    let p2 = p1 + FigureDef::DESCRIPTION@ + " = $3, "@;
    let t3 = FigureDef::URL@ + " = $4"@;
    assert(s.subrange(p2.len() as int, (p2.len() + t3.len()) as int) =~= t3);
    let p3 = p2 + FigureDef::URL@ + " = $4, "@;
    let t4 = FigureDef::WIDTH@ + " = $5"@;
    assert(s.subrange(p3.len() as int, (p3.len() + t4.len()) as int) =~= t4);
    let p4 = p3 + FigureDef::WIDTH@ + " = $5, "@;
    let t5 = FigureDef::HEIGHT@ + " = $6"@;
    assert(s.subrange(p4.len() as int, (p4.len() + t5.len()) as int) =~= t5);
    let k6 = p4.len() + FigureDef::HEIGHT@.len() + " = $6\n            "@.len();
    reveal_strlit(" = $6\n            ");
    let t6 = "WHERE "@ + FigureDef::ID@ + " = $1"@;
    assert(s.subrange(k6 as int, (k6 + t6.len()) as int) =~= t6);
}

/// A new figure takes its title from `$1`, its description from `$2`, its width
/// from `$3`, its height from `$4`, its url from `$5` and its profile from `$6`,
/// and gets an id of the database's choosing, which is returned.
#[verifier::spinoff_prover]
#[verifier::rlimit(40)]
pub proof fn lemma_figure_insert_parameters()
    ensures
        occurs_in(
            "("@ + FigureDef::ID@ + ", "@ + FigureDef::TITLE@ + ", "@ + FigureDef::DESCRIPTION@ + ",\n            "@
                + FigureDef::WIDTH@ + ", "@ + FigureDef::HEIGHT@ + ", "@ + FigureDef::URL@ + ",\n            "@
                + FigureDef::PROFILE_ID@ + ")\n            VALUES (DEFAULT, $1, $2, $3, $4, $5, $6)"@,
            insert_figure_sql(),
        ),
        occurs_in("RETURNING "@ + FigureDef::ID@, insert_figure_sql()),
{
    reveal_strlit("\n            (");
    reveal_strlit("(");
    reveal_strlit(")\n            VALUES (DEFAULT, $1, $2, $3, $4, $5, $6)\n            RETURNING ");
    reveal_strlit(")\n            VALUES (DEFAULT, $1, $2, $3, $4, $5, $6)");
    reveal_strlit("RETURNING ");
    let s = insert_figure_sql();
    let p0 = "\n            INSERT INTO "@ + FigureDef::TABLE@ + "\n            "@;
    reveal_strlit("\n            ");
    let t = "("@ + FigureDef::ID@ + ", "@ + FigureDef::TITLE@ + ", "@ + FigureDef::DESCRIPTION@ + ",\n            "@
        + FigureDef::WIDTH@ + ", "@ + FigureDef::HEIGHT@ + ", "@ + FigureDef::URL@ + ",\n            "@
        + FigureDef::PROFILE_ID@ + ")\n            VALUES (DEFAULT, $1, $2, $3, $4, $5, $6)"@;
    assert(s.subrange(p0.len() as int, (p0.len() + t.len()) as int) =~= t);
    let r = "RETURNING "@ + FigureDef::ID@;
    let k = p0.len() + t.len() + "\n            "@.len();
    assert(s.subrange(k as int, (k + r.len()) as int) =~= r);
}

} // verus!
