use figure_backend::domain::profile::Profile;
use figure_backend::domain::user::User;
use figure_backend::dtos::ProfileDTO;
use figure_backend::error::ServerError;
use figure_backend::session::Session;

/// The checks a sign-up goes through, in the order the fields are named.
fn sign_up_checks(email: &str, password: &str, username: &str) -> Result<(), ServerError> {
    User::validate_email(email)?;
    User::validate_password(password)?;
    Profile::validate_username(username)?;
    Ok(())
}

#[test]
fn sign_up() {
    assert_eq!(sign_up_checks("test@test.test", "test1234", "test"), Ok(()));

    let user = User::new(0, "test@test.test".to_string(), "hash".to_string(), "user".to_string()).unwrap();
    let profile = Profile::new(0, "test".to_string(), None, None, None, None, 0).unwrap();
    let profile_dto = ProfileDTO::from(profile.clone());
    let expected_profile_dto = ProfileDTO { id: 0, username: "test".to_string(), display_name: None };
    let session = Session::new(0.to_string(), 0, 0, Some(86400));

    assert_eq!(user.get_email(), "test@test.test");
    assert_eq!(user.get_role(), "user");
    assert_eq!(profile.get_username(), "test");
    assert_eq!(profile_dto, expected_profile_dto);
    assert_eq!(session.get_id(), "0");
    assert_eq!(session.get_user_id(), 0);
    assert_eq!(session.get_profile_id(), 0);
    assert_eq!(session.get_time_until_expiration(), Some(86400));
}

#[test]
fn password_too_short() {
    assert_eq!(sign_up_checks("test@test.test", "1234567", "test"), Err(ServerError::PasswordTooShort));
}

#[test]
fn password_too_long() {
    let password = "1".repeat(129);
    assert_eq!(sign_up_checks("test@test.test", &password, "test"), Err(ServerError::PasswordTooLong));
}

#[test]
fn missing_at_symbol_in_email() {
    assert_eq!(sign_up_checks("testtest.test", "12345678", "test"), Err(ServerError::InvalidEmail));
}

#[test]
fn missing_tld_in_email() {
    assert_eq!(sign_up_checks("test@test", "12345678", "test"), Err(ServerError::InvalidEmail));
}

#[test]
fn missing_username_in_email() {
    assert_eq!(sign_up_checks("@test.test", "12345678", "test"), Err(ServerError::InvalidEmail));
}

#[test]
fn missing_username_and_domain_in_email() {
    assert_eq!(sign_up_checks("@", "12345678", "test"), Err(ServerError::InvalidEmail));
}

#[test]
fn empty_email() {
    assert_eq!(sign_up_checks("", "12345678", "test"), Err(ServerError::InvalidEmail));
}

#[test]
fn email_too_long() {
    assert_eq!(
        sign_up_checks("1234567890123456789012345678901234567890123456789012345678901", "12345678", "test"),
        Err(ServerError::InvalidEmail)
    );
}

#[test]
fn invalid_username() {
    assert_eq!(sign_up_checks("test@test.test", "12345678", ""), Err(ServerError::InvalidUsername));
}
