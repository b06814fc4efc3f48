use figure_backend::error::ServerError;
use figure_backend::session::{
    attached_session, create_authentication_extension, found_session, removal_cookie, removed_session, session_cookie,
    session_id_required, session_read, session_write, stored_session, uploader_profile, SameSitePolicy, Session, SessionCookie,
    SessionFromStore, SessionOption, SessionRead, SessionValueInStore, SessionWrite, StoreLookup,
    SESSION_LIFETIME_SECONDS,
};

#[test]
fn session_accessors() {
    let session = Session::new("abc".to_string(), 1, 2, Some(60));
    assert_eq!(session.get_id(), "abc");
    assert_eq!(session.get_user_id(), 1);
    assert_eq!(session.get_profile_id(), 2);
    assert_eq!(session.get_time_until_expiration(), Some(60));
    let stored = SessionFromStore::from(session.clone());
    assert_eq!(stored.get_id(), "abc");
    assert_eq!(stored.get_user_id(), 1);
    assert_eq!(stored.get_profile_id(), 2);
    let other = SessionFromStore::new("x".to_string(), 3, 4);
    assert_eq!(other.get_profile_id(), 4);
    let option = SessionOption::new(Some(other));
    assert!(option.session_opt.is_some());
}

#[test]
fn writes_and_reads() {
    let expiring = Session::new("s1".to_string(), 1, 2, Some(SESSION_LIFETIME_SECONDS));
    assert_eq!(
        session_write(&expiring, "{}".to_string()),
        SessionWrite::PutWithExpiry { key: "s1".to_string(), value: "{}".to_string(), seconds: 86400 }
    );
    let lasting = Session::new("s2".to_string(), 1, 2, None);
    assert_eq!(
        session_write(&lasting, "v".to_string()),
        SessionWrite::Put { key: "s2".to_string(), value: "v".to_string() }
    );
    assert_eq!(session_read("s1", Some(86400)), SessionRead::GetWithExpiry { key: "s1".to_string(), seconds: 86400 });
    assert_eq!(session_read("s1", None), SessionRead::Get { key: "s1".to_string() });
}

#[test]
fn session_read_back_after_write() {
    let session = Session::new("id-1".to_string(), 10, 20, Some(86400));
    let value = SessionValueInStore::of(&session);
    assert_eq!(value, SessionValueInStore { user_id: 10, profile_id: 20 });
    let back = found_session("id-1", StoreLookup::Found(value)).unwrap();
    assert_eq!(back, Session::new("id-1".to_string(), 10, 20, None));
    assert_eq!(found_session("id-1", StoreLookup::Missing), Err(ServerError::ResourceNotFound));
    assert_eq!(
        found_session("id-1", StoreLookup::Malformed("bad".to_string())),
        Err(ServerError::InternalError("bad".to_string()))
    );
    assert_eq!(stored_session(session.clone(), Ok(())), Ok(session.clone()));
    assert_eq!(stored_session(session, Err("down".to_string())), Err(ServerError::InternalError("down".to_string())));
    assert_eq!(removed_session(Ok(())), Ok(()));
    assert_eq!(removed_session(Err("down".to_string())), Err(ServerError::InternalError("down".to_string())));
}

#[test]
fn cookies_guard_the_session() {
    let cookie = session_cookie("abc".to_string(), "example.com".to_string());
    assert_eq!(cookie.name, "session_id");
    assert_eq!(cookie.value, "abc");
    assert!(cookie.http_only && cookie.secure && !cookie.removal);
    assert_eq!(cookie.same_site, SameSitePolicy::Strict);
    assert_eq!(cookie.domain, "example.com");
    assert_eq!(cookie.path, "/");
    let removal = removal_cookie("abc".to_string(), "example.com".to_string());
    assert!(removal.removal && removal.http_only && removal.secure);
}

#[test]
fn request_sessions() {
    assert_eq!(session_id_required(Some("x".to_string())), Ok("x".to_string()));
    assert_eq!(session_id_required(None), Err(ServerError::NoSessionReceived));
    let attached = attached_session(Ok(Session::new("x".to_string(), 1, 2, None))).unwrap();
    assert_eq!(uploader_profile(&attached), Some(2));
    assert!(attached_session(Err(ServerError::ResourceNotFound)).is_none());
    let empty = create_authentication_extension();
    assert!(empty.session_opt.is_none());
    assert_eq!(uploader_profile(&empty), None);
}

#[test]
fn removal_cookie_replaces_the_session_cookie() {
    let issued = session_cookie("abc".to_string(), "example.com".to_string());
    let removal = removal_cookie("abc".to_string(), "example.com".to_string());
    assert_ne!(issued, removal);
    assert_eq!(SessionCookie { removal: false, ..removal }, issued);
}
