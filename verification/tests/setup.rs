use figure_backend::context::{Context, ProfileService, RepositoryContext, ServiceContext};
use figure_backend::environment::{cookie_domain, domain_of_host, server_port, OriginError};
use figure_backend::requests::{CorrelationId, SignInForm, SignUpForm};
use figure_backend::storage::{banner_key, object_url, profile_picture_key};

#[test]
fn ports() {
    assert_eq!(server_port(None), Some(8000));
    assert_eq!(server_port(Some("8080")), Some(8080));
    assert_eq!(server_port(Some("+80")), Some(80));
    assert_eq!(server_port(Some("0065535")), Some(65535));
    assert_eq!(server_port(Some("65536")), None);
    assert_eq!(server_port(Some("")), None);
    assert_eq!(server_port(Some("+")), None);
    assert_eq!(server_port(Some("-1")), None);
    assert_eq!(server_port(Some("80a")), None);
    assert_eq!(server_port(Some(" 80")), None);
    assert_eq!(Some("8080").and_then(|s| s.parse::<u16>().ok()), server_port(Some("8080")));
}

#[test]
fn storage_keys() {
    assert_eq!(banner_key("123e4567"), "banners/123e4567");
    assert_eq!(profile_picture_key("abc"), "profile_pictures/abc");
}

#[test]
fn contexts_hold_what_they_were_given() {
    let services = ServiceContext::new(1u8, 2u16, 3u32);
    assert_eq!((*services.user_service(), *services.profile_service(), *services.figure_service()), (1, 2, 3));
    let repositories: RepositoryContext<(), u8, u8, u8, u8, u8> = RepositoryContext::new(1, 2, 3, 4, 5);
    assert_eq!(*repositories.user_repository(), 1);
    assert_eq!(*repositories.profile_repository(), 2);
    assert_eq!(*repositories.figure_repository(), 3);
    assert_eq!(*repositories.session_repository(), 4);
    assert_eq!(*repositories.transaction_starter(), 5);
    let context = Context::new("services", "repositories");
    assert_eq!(*context.service_context(), "services");
    assert_eq!(*context.repository_context(), "repositories");
    let profile_service: ProfileService<(), &str, &str> = ProfileService::new("repository", "store");
    assert_eq!(*profile_service.profile_repository(), "repository");
    assert_eq!(*profile_service.storage(), "store");
}

#[test]
fn request_bodies() {
    let form = SignUpForm { email: "a@b.cd".to_string(), password: "12345678".to_string(), username: "abc".to_string() };
    assert_eq!(form.clone(), form);
    let sign_in = SignInForm { email: "a@b.cd".to_string(), password: "x".to_string() };
    assert_eq!(sign_in.email, "a@b.cd");
    assert_eq!(CorrelationId("id".to_string()).0, "id");
}

#[test]
fn object_addresses() {
    assert_eq!(
        object_url("https://cdn.example.com", "banners/abc"),
        "https://cdn.example.com/banners/abc"
    );
    assert_eq!(object_url("", ""), "/");
}

#[test]
fn cookie_domains() {
    assert_eq!(cookie_domain("https://figures.example.com"), Ok("figures.example.com".to_string()));
    assert_eq!(cookie_domain("http://localhost:3000"), Ok("localhost".to_string()));
    assert_eq!(cookie_domain("not a url"), Err(OriginError::NotAUrl));
    assert_eq!(cookie_domain("mailto:someone@example.com"), Err(OriginError::NoHost));
    assert_eq!(domain_of_host(None), Err(OriginError::NotAUrl));
    assert_eq!(domain_of_host(Some(None)), Err(OriginError::NoHost));
    assert_eq!(domain_of_host(Some(Some("a.b".to_string()))), Ok("a.b".to_string()));
}
