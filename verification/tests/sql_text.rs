use figure_backend::entities::figure::FigureDef as FigureColumns;
use figure_backend::entities::profile::ProfileDef as ProfileColumns;
use figure_backend::entities::user::UserDef as UserColumns;
use figure_backend::infrastructure::user::UserDef as QuotedUserColumns;
use figure_backend::infrastructure::user_table::UserDef as UserTable;
use figure_backend::queries::figure::{
    browse_base_query, browse_query, count_figures_by_profile_query, count_figures_query, delete_figure_query,
    insert_figure_query, select_figure_with_profile_query, update_figure_query, BROWSE_PAGE_SIZE, LANDING_PAGE_SIZE,
};
use figure_backend::queries::profile::{
    count_profiles_query, insert_profile_query, select_profile_by_id_query, select_profile_by_user_id_query,
    update_profile_query,
};
use figure_backend::queries::user::{insert_user_query, select_user_by_email_query, select_user_by_id_query};

const BASE: &str = "\n            SELECT figure.id AS u_figure_id, figure.title, figure.description, figure.url, figure.width, figure.height, figure.profile_id,\n            profile.id AS u_profile_id, profile.username, profile.display_name, profile.bio, profile.banner, profile.profile_picture, profile.user_id\n            FROM figure\n            INNER JOIN profile\n            ON figure.profile_id = profile.id\n            ";

#[test]
fn browse_query_without_filters() {
    assert_eq!(browse_base_query(), BASE);
    let expected = format!("\n        {BASE}\n        ORDER BY figure.id DESC\n        LIMIT 9\n        ");
    assert_eq!(browse_query(None, None, LANDING_PAGE_SIZE), expected);
}

#[test]
fn browse_query_with_figure_bound() {
    let bounded = format!("\n            {BASE}\n            WHERE figure.id < 120\n            ");
    let expected = format!("\n        {bounded}\n        ORDER BY figure.id DESC\n        LIMIT 3\n        ");
    assert_eq!(browse_query(Some(120), None, BROWSE_PAGE_SIZE), expected);
}

#[test]
fn browse_query_with_profile_filter() {
    let filtered = format!("\n            {BASE}\n            WHERE figure.profile_id = 7\n            ");
    let expected = format!("\n        {filtered}\n        ORDER BY figure.id DESC\n        LIMIT 3\n        ");
    assert_eq!(browse_query(None, Some(7), 3), expected);
}

#[test]
fn browse_query_with_both_filters() {
    let bounded = format!("\n            {BASE}\n            WHERE figure.id < 0\n            ");
    let filtered = format!("\n            {bounded}\n            AND figure.profile_id = -9223372036854775808\n            ");
    let expected = format!("\n        {filtered}\n        ORDER BY figure.id DESC\n        LIMIT -1\n        ");
    assert_eq!(browse_query(Some(0), Some(i64::MIN), -1), expected);
    let big = browse_query(Some(i64::MAX), Some(1234567890), 100);
    assert!(big.contains("WHERE figure.id < 9223372036854775807"));
    assert!(big.contains("AND figure.profile_id = 1234567890"));
    assert!(big.contains("LIMIT 100"));
}

#[test]
fn figure_statements() {
    assert_eq!(
        insert_figure_query(),
        "\n            INSERT INTO figure\n            (figure.id, figure.title, figure.description,\n            figure.width, figure.height, figure.url,\n            figure.profile_id)\n            VALUES (DEFAULT, $1, $2, $3, $4, $5, $6)\n            RETURNING figure.id;\n            "
    );
    assert!(select_figure_with_profile_query().contains("WHERE figure.id = $1"));
    assert!(select_figure_with_profile_query().contains("ON figure.profile_id = profile.id"));
    assert_eq!(
        update_figure_query(),
        "\n            UPDATE figure\n            SET figure.title = $2, figure.description = $3, figure.url = $4, figure.width = $5, figure.height = $6\n            WHERE figure.id = $1\n            "
    );
    assert_eq!(delete_figure_query(), "\n            DELETE FROM figure\n            WHERE figure.id = $1\n            ");
    assert_eq!(
        count_figures_by_profile_query(),
        "\n        SELECT count(*) FROM figure\n        where figure.profile_id = $1\n        "
    );
    assert_eq!(count_figures_query(), "\n        SELECT count(*) FROM figure\n        ");
}

#[test]
fn profile_statements() {
    assert_eq!(
        insert_profile_query(),
        "\n            INSERT INTO profile (profile.username, profile.user_id)\n            VALUES ($1, $2)\n            RETURNING profile.id, profile.username, profile.user_id"
    );
    assert_eq!(select_profile_by_id_query(), "SELECT * FROM profile WHERE profile.id = $1");
    assert_eq!(select_profile_by_user_id_query(), "SELECT * FROM profile WHERE profile.user_id = $1");
    assert!(update_profile_query().contains("profile.banner = COALESCE($3, profile.banner)"));
    assert_eq!(count_profiles_query(), "SELECT count(*) FROM profile");
}

#[test]
fn user_statements() {
    assert_eq!(
        insert_user_query(),
        "\n            INSERT INTO users (email, password, role)\n            VALUES ($1, $2, 'user')\n            RETURNING id"
    );
    assert_eq!(
        select_user_by_email_query(),
        "\n        SELECT users.id AS user_id, users.email, users.password, users.role\n        FROM users\n        WHERE email = $1\n        "
    );
    assert!(select_user_by_id_query().ends_with("WHERE id = $1\n        "));
}

#[test]
fn column_names() {
    assert_eq!(FigureColumns::Table.as_str(), "figures");
    assert_eq!(FigureColumns::Url.as_table_str(), "figures.url");
    assert_eq!(FigureColumns::Id.unique(), "figure_id");
    assert_eq!(FigureColumns::Title.unique(), "figures.title");
    assert_eq!(ProfileColumns::ProfilePicture.as_str(), "profile_picture");
    assert_eq!(ProfileColumns::Id.unique(), "profile_id");
    assert_eq!(ProfileColumns::Bio.unique(), "profile.bio");
    assert_eq!(UserColumns::Table.as_table_str(), "users");
    assert_eq!(UserColumns::Id.unique(), "user_id");
    assert_eq!(QuotedUserColumns::Table.as_str(), "\"user\"");
    assert_eq!(QuotedUserColumns::Email.as_table_str(), "\"user\".email");
    assert_eq!(QuotedUserColumns::Id.unique(), "user_id");
    assert_eq!(QuotedUserColumns::Role.unique(), "\"user\".role");
    assert_eq!(UserTable::with_table("email"), "\"user\".email");
    assert_eq!(UserTable::ID_UNIQUE, "u_user_id");
}

#[test]
fn qualified_names_are_table_dot_column() {
    for column in [
        FigureColumns::Id,
        FigureColumns::Title,
        FigureColumns::Description,
        FigureColumns::Width,
        FigureColumns::Height,
        FigureColumns::Url,
        FigureColumns::ProfileId,
    ] {
        assert_eq!(column.as_table_str(), format!("{}.{}", FigureColumns::Table.as_str(), column.as_str()));
    }
    for column in [
        ProfileColumns::Id,
        ProfileColumns::Username,
        ProfileColumns::DisplayName,
        ProfileColumns::Bio,
        ProfileColumns::Banner,
        ProfileColumns::ProfilePicture,
        ProfileColumns::UserId,
    ] {
        assert_eq!(column.as_table_str(), format!("{}.{}", ProfileColumns::Table.as_str(), column.as_str()));
    }
    for column in [UserColumns::Id, UserColumns::Email, UserColumns::Password, UserColumns::Role] {
        assert_eq!(column.as_table_str(), format!("{}.{}", UserColumns::Table.as_str(), column.as_str()));
    }
    for column in [QuotedUserColumns::Id, QuotedUserColumns::Email, QuotedUserColumns::Password, QuotedUserColumns::Role] {
        assert_eq!(column.as_table_str(), format!("{}.{}", QuotedUserColumns::Table.as_str(), column.as_str()));
    }
}
