use figure_backend::domain::figure::Figure;
use figure_backend::domain::profile::{username_verdict, Profile};
use figure_backend::domain::syntax::{is_email_shaped, is_username_shaped};
use figure_backend::domain::user::{email_verdict, password_verdict, User};
use figure_backend::error::ServerError;

#[test]
fn email_shapes() {
    assert!(is_email_shaped("test@test.test"));
    assert!(is_email_shaped("a.b@c.de"));
    assert!(is_email_shaped("A+B&C*D-E_F@x-y.example.COM"));
    assert!(is_email_shaped("a@-.de"));
    assert!(is_email_shaped("a@b.c.de"));
    assert!(!is_email_shaped("a..b@c.de"));
    assert!(!is_email_shaped(".a@c.de"));
    assert!(!is_email_shaped("a.@c.de"));
    assert!(!is_email_shaped("a@b.c"));
    assert!(!is_email_shaped("a@b.c1"));
    assert!(!is_email_shaped("a@b..de"));
    assert!(!is_email_shaped("a@.de"));
    assert!(!is_email_shaped("a@@b.de"));
    assert!(!is_email_shaped("a@b@c.de"));
    assert!(!is_email_shaped("a b@c.de"));
    assert!(!is_email_shaped("ä@c.de"));
    assert!(!is_email_shaped("a@c.de."));
    assert!(!is_email_shaped("a@cde"));
}

#[test]
fn email_length_limits() {
    // 60 characters with the shape of an address are accepted, 61 are not.
    let local = "a".repeat(54);
    let sixty = format!("{}@bb.cc", local);
    assert_eq!(sixty.chars().count(), 60);
    assert_eq!(User::validate_email(&sixty), Ok(()));
    let sixty_one = format!("{}a@bb.cc", local);
    assert_eq!(User::validate_email(&sixty_one), Err(ServerError::InvalidEmail));
    assert_eq!(User::validate_email("a@b.cd"), Ok(()));
}

#[test]
fn password_limits() {
    assert_eq!(User::validate_password("12345678"), Ok(()));
    assert_eq!(User::validate_password(&"x".repeat(128)), Ok(()));
    assert_eq!(User::validate_password(&"x".repeat(129)), Err(ServerError::PasswordTooLong));
    assert_eq!(User::validate_password(""), Err(ServerError::PasswordTooShort));
    // Graphemes are counted, not characters: each "e\u{301}" is one cluster of two characters.
    assert_eq!(User::validate_password(&"e\u{301}".repeat(7)), Err(ServerError::PasswordTooShort));
    assert_eq!(User::validate_password(&"e\u{301}".repeat(8)), Ok(()));
}

#[test]
fn username_shapes_and_limits() {
    assert!(is_username_shaped("ab"));
    assert!(is_username_shaped("a-b"));
    assert!(!is_username_shaped("ab--cd"));
    assert!(!is_username_shaped("a---b"));
    assert!(is_username_shaped("ab-cd"));
    assert!(!is_username_shaped("a"));
    assert!(!is_username_shaped("-ab"));
    assert!(!is_username_shaped("ab-"));
    assert!(!is_username_shaped("ab-c-d"));
    assert!(!is_username_shaped("a_b"));
    assert!(!is_username_shaped(""));
    assert_eq!(Profile::validate_username("test"), Ok(()));
    assert_eq!(Profile::validate_username("a-b"), Ok(()));
    assert_eq!(Profile::validate_username("ab"), Err(ServerError::InvalidUsername));
    assert_eq!(Profile::validate_username("ab--cd"), Err(ServerError::InvalidUsername));
    assert_eq!(Profile::validate_username("ab-cd"), Ok(()));
    assert_eq!(Profile::validate_username("abcdefghijklmno"), Ok(()));
    assert_eq!(Profile::validate_username("abcdefghijklmnop"), Err(ServerError::InvalidUsername));
    assert_eq!(Profile::validate_username("äbc"), Err(ServerError::InvalidUsername));
}

#[test]
fn user_email_is_lowercased() {
    let user = User::new(7, "TeSt@Example.COM".to_string(), "hash".to_string(), "user".to_string()).unwrap();
    assert_eq!(user.get_id(), 7);
    assert_eq!(user.get_email(), "test@example.com");
    assert_eq!(user.get_password(), "hash");
    let raw = User::new_raw(1, "ÄB".to_string(), "p".to_string(), "admin".to_string());
    assert_eq!(raw.get_email(), "äb");
    assert_eq!(raw.get_role(), "admin");
    assert_eq!(
        User::new(1, "not an address".to_string(), "p".to_string(), "user".to_string()),
        Err(ServerError::InvalidEmail)
    );
}

#[test]
fn user_setters() {
    let mut user = User::new_raw(1, "a@b.cd".to_string(), "p".to_string(), "user".to_string());
    user.set_id(2);
    user.set_email("X@Y.ZZ".to_string());
    user.set_password("q".to_string());
    user.set_role("admin".to_string());
    assert_eq!(user.get_id(), 2);
    assert_eq!(user.get_email(), "X@Y.ZZ");
    assert_eq!(user.get_password(), "q");
    assert_eq!(user.get_role(), "admin");
}

#[test]
fn profile_accessors() {
    let mut profile = Profile::new(
        3,
        "artist".to_string(),
        Some("The Artist".to_string()),
        None,
        Some("banners/x".to_string()),
        None,
        9,
    )
    .unwrap();
    assert_eq!(profile.get_id(), 3);
    assert_eq!(profile.get_username(), "artist");
    assert_eq!(profile.get_display_name(), &Some("The Artist".to_string()));
    assert_eq!(profile.get_bio(), &None);
    assert_eq!(profile.get_banner(), &Some("banners/x".to_string()));
    assert_eq!(profile.get_profile_picture(), &None);
    assert_eq!(profile.get_user_id(), 9);
    profile.set_id(4);
    profile.set_username("painter".to_string());
    profile.set_display_name(None);
    profile.set_bio(Some("bio".to_string()));
    profile.set_banner(None);
    profile.set_profile_picture(Some("pic".to_string()));
    profile.set_user_id(10);
    assert_eq!(
        profile,
        Profile::new_raw(4, "painter".to_string(), None, Some("bio".to_string()), None, Some("pic".to_string()), 10)
    );
    assert_eq!(
        Profile::new(1, "x".to_string(), None, None, None, None, 1),
        Err(ServerError::InvalidUsername)
    );
}

#[test]
fn figure_size_limits() {
    assert_eq!(Figure::check_size(3000, 3000), Ok(()));
    assert_eq!(Figure::check_size(3000, 3001), Err(ServerError::ImageDimensionsTooLarge));
    assert_eq!(Figure::check_size(0, 0), Ok(()));
    assert_eq!(Figure::check_size_i32(6000, 0), Ok(()));
    assert_eq!(Figure::check_size_i32(-1, 0), Err(ServerError::ImageDimensionsTooLarge));
    assert!(Figure::new(1, "t".to_string(), None, 4000, 2001, "u".to_string(), 2).is_err());
    let figure = Figure::new(1, "t".to_string(), Some("d".to_string()), 4000, 2000, "u".to_string(), 2).unwrap();
    assert_eq!(figure.get_width(), 4000);
    assert_eq!(figure.get_height(), 2000);
}

#[test]
fn figure_accessors() {
    let mut figure = Figure::new_raw(1, "title".to_string(), None, 10, 20, "url".to_string(), 5);
    assert_eq!(figure.get_id(), 1);
    assert_eq!(figure.get_title(), "title");
    assert_eq!(figure.get_description(), None);
    assert_eq!(figure.get_url(), "url");
    assert_eq!(figure.get_profile_id(), 5);
    figure.set_id(2);
    figure.set_title("other".to_string());
    figure.set_description(Some("desc".to_string()));
    figure.set_width(30);
    figure.set_height(40);
    figure.set_url("elsewhere".to_string());
    figure.set_profile_id(6);
    assert_eq!(figure.get_id(), 2);
    assert_eq!(figure.get_title(), "other");
    assert_eq!(figure.get_description(), Some(&"desc".to_string()));
    assert_eq!(figure.get_width(), 30);
    assert_eq!(figure.get_height(), 40);
    assert_eq!(figure.get_url(), "elsewhere");
    assert_eq!(figure.get_profile_id(), 6);
}

#[test]
fn email_verdict_counts_the_clusters_it_is_given() {
    // The address itself is well formed; only the number of clusters decides.
    assert_eq!(email_verdict("a@b.de", &vec!["a"; 3]), Ok(()));
    assert_eq!(email_verdict("a@b.de", &vec!["a"; 60]), Ok(()));
    assert_eq!(email_verdict("a@b.de", &vec!["a"; 2]), Err(ServerError::InvalidEmail));
    assert_eq!(email_verdict("a@b.de", &vec!["a"; 61]), Err(ServerError::InvalidEmail));
    assert_eq!(email_verdict("a@b", &vec!["a"; 10]), Err(ServerError::InvalidEmail));
}

#[test]
fn password_verdict_counts_the_clusters_it_is_given() {
    assert_eq!(password_verdict(&vec!["x"; 7]), Err(ServerError::PasswordTooShort));
    assert_eq!(password_verdict(&vec!["x"; 8]), Ok(()));
    assert_eq!(password_verdict(&vec!["x"; 128]), Ok(()));
    assert_eq!(password_verdict(&vec!["x"; 129]), Err(ServerError::PasswordTooLong));
    assert_eq!(password_verdict(&vec![]), Err(ServerError::PasswordTooShort));
}

#[test]
fn username_verdict_counts_the_clusters_it_is_given() {
    assert_eq!(username_verdict("abc", &vec!["a"; 3]), Ok(()));
    assert_eq!(username_verdict("abc", &vec!["a"; 15]), Ok(()));
    assert_eq!(username_verdict("abc", &vec!["a"; 2]), Err(ServerError::InvalidUsername));
    assert_eq!(username_verdict("abc", &vec!["a"; 16]), Err(ServerError::InvalidUsername));
    assert_eq!(username_verdict("a_c", &vec!["a"; 3]), Err(ServerError::InvalidUsername));
}

#[test]
fn errors_are_answered_with_their_status() {
    assert_eq!(ServerError::InvalidEmail.status_code(), 400);
    assert_eq!(ServerError::PasswordTooShort.status_code(), 400);
    assert_eq!(ServerError::InvalidMultipart.status_code(), 400);
    assert_eq!(ServerError::ResourceNotFound.status_code(), 404);
    assert_eq!(ServerError::EmailAlreadyInUse.status_code(), 409);
    assert_eq!(ServerError::UsernameAlreadyTaken.status_code(), 409);
    assert_eq!(ServerError::NoSessionReceived.status_code(), 401);
    assert_eq!(ServerError::InternalError("down".to_string()).status_code(), 500);
}

#[test]
fn ascii_text_has_one_cluster_per_character() {
    let local = "a".repeat(53);
    let too_long = format!("{}@test.de", local);
    assert_eq!(too_long.len(), 61);
    assert_eq!(User::validate_email(&too_long), Err(ServerError::InvalidEmail));
    let just_fits = format!("{}@test.de", "a".repeat(52));
    assert_eq!(User::validate_email(&just_fits), Ok(()));
    assert_eq!(User::validate_password("abcdefg"), Err(ServerError::PasswordTooShort));
    let user = User::new_raw(1, "Ab@C.de".to_string(), "p".to_string(), "user".to_string());
    assert_eq!(user.get_email(), "ab@c.de");
}

#[test]
fn profile_new_on_ascii_usernames() {
    assert!(Profile::new(1, "ab-cd".to_string(), None, None, None, None, 2).is_ok());
    assert_eq!(
        Profile::new(1, "ab--cd".to_string(), None, None, None, None, 2).unwrap_err(),
        ServerError::InvalidUsername
    );
    assert_eq!(
        Profile::new(1, "a".repeat(16), None, None, None, None, 2).unwrap_err(),
        ServerError::InvalidUsername
    );
}
