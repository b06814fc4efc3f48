use figure_backend::db::{
    constraint_or_internal, created_figure, created_profile, created_user, internal_error, not_found_or_internal,
    user_insert_parameters, user_lookup, with_internal_errors, with_not_found, DbFailure, DbFailureKind, FigureAndProfile,
    PROFILE_USERNAME_CONSTRAINT, USER_EMAIL_CONSTRAINT,
};
use figure_backend::domain::figure::Figure;
use figure_backend::domain::profile::Profile;
use figure_backend::domain::user::User;
use figure_backend::dtos::{
    FigureDTO, FigureWithProfileDTO, FiguresDTO, FiguresWithProfileDTO, ProfileDTO, ProfileWithoutUserIdDTO, UserDTO,
};
use figure_backend::error::ServerError;

fn sample_profile() -> Profile {
    Profile::new_raw(
        4,
        "artist".to_string(),
        Some("Artist".to_string()),
        Some("bio".to_string()),
        Some("banner".to_string()),
        Some("pic".to_string()),
        11,
    )
}

fn sample_figure() -> Figure {
    Figure::new_raw(8, "Sunset".to_string(), Some("Over the sea".to_string()), 640, 480, "figures/8".to_string(), 4)
}

fn failure(kind: DbFailureKind) -> DbFailure {
    DbFailure { kind, message: "boom".to_string() }
}

#[test]
fn profile_dtos_show_public_fields() {
    let dto = ProfileDTO::from(sample_profile());
    assert_eq!(dto, ProfileDTO { id: 4, username: "artist".to_string(), display_name: Some("Artist".to_string()) });
    let full = ProfileWithoutUserIdDTO::from(sample_profile());
    assert_eq!(
        full,
        ProfileWithoutUserIdDTO {
            id: 4,
            username: "artist".to_string(),
            display_name: Some("Artist".to_string()),
            bio: Some("bio".to_string()),
            banner: Some("banner".to_string()),
            profile_picture: Some("pic".to_string()),
        }
    );
}

#[test]
fn figure_dtos_carry_the_profile_summary() {
    let dto = FigureDTO::from(sample_figure(), sample_profile());
    assert_eq!(dto.id, 8);
    assert_eq!(dto.title, "Sunset");
    assert_eq!(dto.description, Some("Over the sea".to_string()));
    assert_eq!((dto.width, dto.height), (640, 480));
    assert_eq!(dto.url, "figures/8");
    assert_eq!(dto.profile, ProfileDTO::from(sample_profile()));
    let with_profile = FigureWithProfileDTO::from(sample_figure(), sample_profile());
    assert_eq!(with_profile.title, "Sunset");
    assert_eq!(with_profile.profile.username, "artist");
    let list = FiguresWithProfileDTO::from(vec![with_profile]);
    assert_eq!(list.into_figures().len(), 1);
    let figures = FiguresDTO::from(vec![dto, FigureDTO::from(sample_figure(), sample_profile())]);
    assert_eq!(figures.into_figures().len(), 2);
}

#[test]
fn user_dto_hides_the_password() {
    let user = User::new_raw(3, "a@b.cd".to_string(), "secret".to_string(), "user".to_string());
    assert_eq!(UserDTO::from(user), UserDTO { email: "a@b.cd".to_string(), role: "user".to_string(), id: 3 });
}

#[test]
fn joined_rows_split_back() {
    let row = FigureAndProfile::new(sample_figure(), sample_profile());
    let (figure, profile) = row.get_figure_and_profile();
    assert_eq!(figure.get_id(), 8);
    assert_eq!(profile, sample_profile());
}

#[test]
fn failures_become_errors() {
    assert_eq!(internal_error(failure(DbFailureKind::RowNotFound)), ServerError::InternalError("boom".to_string()));
    assert_eq!(not_found_or_internal(failure(DbFailureKind::RowNotFound)), ServerError::ResourceNotFound);
    assert_eq!(not_found_or_internal(failure(DbFailureKind::Other)), ServerError::InternalError("boom".to_string()));
    assert_eq!(
        constraint_or_internal(
            failure(DbFailureKind::Database { constraint: Some("x".to_string()) }),
            "x",
            ServerError::EmailAlreadyInUse
        ),
        ServerError::EmailAlreadyInUse
    );
    assert_eq!(
        constraint_or_internal(
            failure(DbFailureKind::Database { constraint: Some("y".to_string()) }),
            "x",
            ServerError::EmailAlreadyInUse
        ),
        ServerError::InternalError("boom".to_string())
    );
    assert_eq!(with_internal_errors::<i64>(Ok(3)), Ok(3));
    assert_eq!(
        with_internal_errors::<i64>(Err(failure(DbFailureKind::RowNotFound))),
        Err(ServerError::InternalError("boom".to_string()))
    );
    assert_eq!(with_not_found::<i64>(Err(failure(DbFailureKind::RowNotFound))), Err(ServerError::ResourceNotFound));
    assert_eq!(user_lookup(Err(failure(DbFailureKind::Other))), Err(ServerError::ResourceNotFound));
}

#[test]
fn created_rows_get_their_ids() {
    let figure = created_figure(sample_figure(), Ok(42)).unwrap();
    assert_eq!(figure.get_id(), 42);
    assert_eq!(figure.get_title(), "Sunset");
    assert!(matches!(
        created_figure(sample_figure(), Err(failure(DbFailureKind::Other))),
        Err(ServerError::InternalError(_))
    ));

    let profile = created_profile(sample_profile(), Ok(5)).unwrap();
    assert_eq!(profile.get_id(), 5);
    assert_eq!(
        created_profile(
            sample_profile(),
            Err(failure(DbFailureKind::Database { constraint: Some(PROFILE_USERNAME_CONSTRAINT.to_string()) }))
        ),
        Err(ServerError::UsernameAlreadyTaken)
    );

    let user = User::new_raw(0, "a@b.cd".to_string(), "hash".to_string(), "admin".to_string());
    let stored = created_user(user.clone(), Ok(12)).unwrap();
    assert_eq!(stored.get_id(), 12);
    assert_eq!(stored.get_role(), "user");
    assert_eq!(stored.get_email(), "a@b.cd");
    assert_eq!(
        created_user(
            user,
            Err(failure(DbFailureKind::Database { constraint: Some(USER_EMAIL_CONSTRAINT.to_string()) }))
        ),
        Err(ServerError::EmailAlreadyInUse)
    );
}

#[test]
fn users_are_inserted_with_a_lower_cased_address() {
    let mut user = User::new_raw(0, "a@b.de".to_string(), "hash".to_string(), "user".to_string());
    user.set_email("MiXeD@Example.DE".to_string());
    assert_eq!(
        user_insert_parameters(&user),
        ("mixed@example.de".to_string(), "hash".to_string())
    );
}
