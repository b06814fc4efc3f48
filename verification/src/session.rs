//! Sessions: what the session store keeps, how it is written and read back,
//! the cookie that carries a session id, and the session attached to a request.

use crate::domain::IdType;
use crate::error::ServerError;
use vstd::prelude::*;

verus! {

broadcast use vstd::string::group_string_axioms;

/// The name of the cookie that carries the session id.
pub const SESSION_COOKIE_NAME: &'static str = "session_id";

/// How long, in seconds, a session lives after it was last read.
pub const SESSION_LIFETIME_SECONDS: usize = 86400;

/// A session: its id in the store, the user and profile it belongs to, and
/// the seconds it lives for when it is written.
#[derive(Clone, Debug, PartialEq)]
pub struct Session {
    id: String,
    user_id: IdType,
    profile_id: IdType,
    time_until_expiration: Option<usize>,
}

/// What a session holds.
pub struct SessionModel {
    pub id: Seq<char>,
    pub user_id: IdType,
    pub profile_id: IdType,
    pub time_until_expiration: Option<usize>,
}

impl View for Session {
    type V = SessionModel;

    closed spec fn view(&self) -> SessionModel {
        SessionModel {
            id: self.id@,
            user_id: self.user_id,
            profile_id: self.profile_id,
            time_until_expiration: self.time_until_expiration,
        }
    }
}

impl Session {
    pub fn new(id: String, user_id: IdType, profile_id: IdType, time_until_expiration: Option<usize>) -> (session: Session)
        ensures
            session@ == (SessionModel { id: id@, user_id, profile_id, time_until_expiration }),
    {
        Session { id, user_id, profile_id, time_until_expiration }
    }

    pub fn get_id(&self) -> (id: String)
        ensures
            id@ == self@.id,
    {
        self.id.clone()
    }

    pub fn get_user_id(&self) -> (user_id: IdType)
        ensures
            user_id == self@.user_id,
    {
        self.user_id
    }

    pub fn get_profile_id(&self) -> (profile_id: IdType)
        ensures
            profile_id == self@.profile_id,
    {
        self.profile_id
    }

    pub fn get_time_until_expiration(&self) -> (time: Option<usize>)
        ensures
            time == self@.time_until_expiration,
    {
        self.time_until_expiration
    }
}

/// The session attached to a request, if any.
#[derive(Clone, Debug)]
pub struct SessionOption {
    pub session_opt: Option<SessionFromStore>,
}

impl SessionOption {
    pub fn new(session: Option<SessionFromStore>) -> (option: SessionOption)
        ensures
            option.session_opt == session,
    {
        SessionOption { session_opt: session }
    }
}

/// A session as read from the store: its id, user and profile.
#[derive(Clone, Debug)]
pub struct SessionFromStore {
    id: String,
    user_id: IdType,
    profile_id: IdType,
}

/// What a session read from the store holds.
pub struct SessionFromStoreModel {
    pub id: Seq<char>,
    pub user_id: IdType,
    pub profile_id: IdType,
}

impl View for SessionFromStore {
    type V = SessionFromStoreModel;

    closed spec fn view(&self) -> SessionFromStoreModel {
        SessionFromStoreModel { id: self.id@, user_id: self.user_id, profile_id: self.profile_id }
    }
}

impl SessionFromStore {
    pub fn new(id: String, user_id: IdType, profile_id: IdType) -> (session: SessionFromStore)
        ensures
            session@ == (SessionFromStoreModel { id: id@, user_id, profile_id }),
    {
        SessionFromStore { id, user_id, profile_id }
    }

    /// The session without its lifetime.
    pub fn from(session: Session) -> (stored: SessionFromStore)
        ensures
            stored@ == (SessionFromStoreModel {
                id: session@.id,
                user_id: session@.user_id,
                profile_id: session@.profile_id,
            }),
    {
        SessionFromStore { id: session.id, user_id: session.user_id, profile_id: session.profile_id }
    }

    pub fn get_id(&self) -> (id: String)
        ensures
            id@ == self@.id,
    {
        self.id.clone()
    }

    pub fn get_user_id(&self) -> (user_id: IdType)
        ensures
            user_id == self@.user_id,
    {
        self.user_id
    }

    pub fn get_profile_id(&self) -> (profile_id: IdType)
        ensures
            profile_id == self@.profile_id,
    {
        self.profile_id
    }
}

/// What the store keeps under a session id.
#[derive(Debug, Clone, Copy, PartialEq, Eq)]
pub struct SessionValueInStore {
    pub user_id: IdType,
    pub profile_id: IdType,
}

/// The value the store keeps for a session: its user and profile.
pub open spec fn stored_value(session: SessionModel) -> SessionValueInStore {
    SessionValueInStore { user_id: session.user_id, profile_id: session.profile_id }
}

/// The session read back under `session_id` from the stored `value`: it has no
/// lifetime of its own.
pub open spec fn read_back(session_id: Seq<char>, value: SessionValueInStore) -> SessionModel {
    SessionModel {
        id: session_id,
        user_id: value.user_id,
        profile_id: value.profile_id,
        time_until_expiration: None,
    }
}

/// A session written to the store and read back under its id is the same
/// session, for the same user and profile, without its lifetime.
pub proof fn lemma_session_read_back_after_write(session: SessionModel)
    ensures
        read_back(session.id, stored_value(session)) == (SessionModel {
            time_until_expiration: None,
            ..session
        }),
{
}

impl SessionValueInStore {
    /// The value kept for `session`.
    pub fn of(session: &Session) -> (value: SessionValueInStore)
        ensures
            value == stored_value(session@),
    {
        SessionValueInStore { user_id: session.get_user_id(), profile_id: session.get_profile_id() }
    }
}

/// How a session is written to the store.
#[derive(Debug, PartialEq)]
pub enum SessionWrite {
    /// Kept until removed.
    Put { key: String, value: String },
    /// Kept for the given number of seconds.
    PutWithExpiry { key: String, value: String, seconds: usize },
}

/// How a session is read from the store.
#[derive(Debug, PartialEq)]
pub enum SessionRead {
    /// Read as is.
    Get { key: String },
    /// Read, and its lifetime restarted at the given number of seconds.
    GetWithExpiry { key: String, seconds: usize },
}

/// What the store answered when a session was read.
#[derive(Debug)]
pub enum StoreLookup {
    /// No value under the key, or the store could not be read.
    Missing,
    /// A value that is not a stored session, with the reason.
    Malformed(String),
    /// The stored value.
    Found(SessionValueInStore),
}

/// The write of `session` whose encoded value is `value`: under the session id,
/// with the session's lifetime if it has one.
pub fn session_write(session: &Session, value: String) -> (write: SessionWrite)
    ensures
        match session@.time_until_expiration {
            Some(t) => write matches SessionWrite::PutWithExpiry { key, value: v, seconds } && key@
                == session@.id && v@ == value@ && seconds == t,
            None => write matches SessionWrite::Put { key, value: v } && key@ == session@.id && v@
                == value@,
        },
{
    match session.get_time_until_expiration() {
        Some(time) => SessionWrite::PutWithExpiry { key: session.get_id(), value, seconds: time },
        None => SessionWrite::Put { key: session.get_id(), value },
    }
}

/// The read of the session `session_id`, restarting its lifetime when one is given.
pub fn session_read(session_id: &str, time_until_expiration: Option<usize>) -> (read: SessionRead)
    ensures
        match time_until_expiration {
            Some(t) => read matches SessionRead::GetWithExpiry { key, seconds } && key@ == session_id@
                && seconds == t,
            None => read matches SessionRead::Get { key } && key@ == session_id@,
        },
{
    match time_until_expiration {
        Some(time) => SessionRead::GetWithExpiry { key: session_id.to_string(), seconds: time },
        None => SessionRead::Get { key: session_id.to_string() },
    }
}

/// The session read back: a missing value is `ResourceNotFound`, a malformed one
/// an internal error; a found one is the session of its user and profile, with
/// no lifetime.
pub fn found_session(session_id: &str, lookup: StoreLookup) -> (result: Result<Session, ServerError>)
    ensures
        match lookup {
            StoreLookup::Missing => result == Err::<Session, ServerError>(ServerError::ResourceNotFound),
            StoreLookup::Malformed(reason) => result == Err::<Session, ServerError>(
                ServerError::InternalError(reason),
            ),
            StoreLookup::Found(value) => result matches Ok(s) && s@ == read_back(session_id@, value),
        },
{
    match lookup {
        StoreLookup::Missing => Err(ServerError::ResourceNotFound),
        StoreLookup::Malformed(reason) => Err(ServerError::InternalError(reason)),
        StoreLookup::Found(value) => Ok(
            Session::new(session_id.to_string(), value.user_id, value.profile_id, None),
        ),
    }
}

/// The session once written: a failed write is an internal error.
pub fn stored_session(session: Session, written: Result<(), String>) -> (result: Result<Session, ServerError>)
    ensures
        match written {
            Ok(()) => result == Ok::<Session, ServerError>(session),
            Err(reason) => result == Err::<Session, ServerError>(ServerError::InternalError(reason)),
        },
{
    match written {
        Ok(()) => Ok(session),
        Err(reason) => Err(ServerError::InternalError(reason)),
    }
}

/// A removed session: a failed removal is an internal error.
pub fn removed_session(removed: Result<(), String>) -> (result: Result<(), ServerError>)
    ensures
        match removed {
            Ok(()) => result is Ok,
            Err(reason) => result == Err::<(), ServerError>(ServerError::InternalError(reason)),
        },
{
    match removed {
        Ok(()) => Ok(()),
        Err(reason) => Err(ServerError::InternalError(reason)),
    }
}

/// The session id a request must carry: without the cookie it is
/// `NoSessionReceived`.
pub fn session_id_required(cookie_value: Option<String>) -> (result: Result<String, ServerError>)
    ensures
        match cookie_value {
            Some(v) => result == Ok::<String, ServerError>(v),
            None => result == Err::<String, ServerError>(ServerError::NoSessionReceived),
        },
{
    match cookie_value {
        Some(v) => Ok(v),
        None => Err(ServerError::NoSessionReceived),
    }
}

/// The session attached to a request once its session id was looked up: one
/// only when the lookup succeeded.
pub fn attached_session(lookup: Result<Session, ServerError>) -> (attached: Option<SessionOption>)
    ensures
        match lookup {
            Ok(s) => attached matches Some(o) && o.session_opt matches Some(stored) && stored@ == (
            SessionFromStoreModel { id: s@.id, user_id: s@.user_id, profile_id: s@.profile_id }),
            Err(_) => attached is None,
        },
{
    match lookup {
        Ok(session) => Some(SessionOption::new(Some(SessionFromStore::from(session)))),
        Err(_) => None,
    }
}

/// The session option every request starts with: no session.
pub fn create_authentication_extension() -> (option: SessionOption)
    ensures
        option.session_opt is None,
{
    SessionOption { session_opt: None }
}

/// The profile an upload is made for: that of the request's session, if any.
pub fn uploader_profile(session: &SessionOption) -> (profile_id: Option<IdType>)
    ensures
        match session.session_opt {
            Some(s) => profile_id == Some(s@.profile_id),
            None => profile_id is None,
        },
{
    match &session.session_opt {
        Some(s) => Some(s.get_profile_id()),
        None => None,
    }
}

/// A source of random numbers, such as the ones session ids are drawn from.
pub trait RandomNumberGenerator {
    fn generate(&self) -> Result<u64, ServerError>;
}

/// The same-site policy of a cookie.
#[derive(Debug, Clone, Copy, PartialEq, Eq)]
pub enum SameSitePolicy {
    Strict,
    Lax,
    Unrestricted,
}

/// A cookie to send back with a response.
#[derive(Debug, Clone, PartialEq)]
pub struct SessionCookie {
    pub name: String,
    pub value: String,
    pub http_only: bool,
    pub secure: bool,
    pub same_site: SameSitePolicy,
    pub domain: String,
    pub path: String,
    /// Whether the cookie removes the one the client holds.
    pub removal: bool,
}

/// The cookie is the session cookie for `session_id` on `domain`, out of reach
/// of scripts, sent over secure connections only, never with cross-site
/// requests, and valid for every path.
pub open spec fn guards_session(cookie: SessionCookie, session_id: Seq<char>, domain: Seq<char>) -> bool {
    &&& cookie.name@ == SESSION_COOKIE_NAME@
    &&& cookie.value@ == session_id
    &&& cookie.http_only
    &&& cookie.secure
    &&& cookie.same_site == SameSitePolicy::Strict
    &&& cookie.domain@ == domain
    &&& cookie.path@ == "/"@
}

/// The cookie handed out when a user signs in or up.
pub fn session_cookie(session_id: String, domain: String) -> (cookie: SessionCookie)
    ensures
        guards_session(cookie, session_id@, domain@),
        !cookie.removal,
{
    SessionCookie {
        name: SESSION_COOKIE_NAME.to_string(),
        value: session_id,
        http_only: true,
        secure: true,
        same_site: SameSitePolicy::Strict,
        domain,
        path: "/".to_string(),
        removal: false,
    }
}

/// The cookie that removes the session cookie when a user signs out.
pub fn removal_cookie(session_id: String, domain: String) -> (cookie: SessionCookie)
    ensures
        guards_session(cookie, session_id@, domain@),
        cookie.removal,
{
    SessionCookie {
        name: SESSION_COOKIE_NAME.to_string(),
        value: session_id,
        http_only: true,
        secure: true,
        same_site: SameSitePolicy::Strict,
        domain,
        path: "/".to_string(),
        removal: true,
    }
}

/// The cookie sent when a user signs out for a session and domain names the
/// very cookie handed out at sign-in for them (same name, value, domain and
/// path), so the client drops it; the two differ in nothing but the removal.
pub proof fn lemma_removal_cookie_replaces_session_cookie(
    issued: SessionCookie,
    removal: SessionCookie,
    session_id: Seq<char>,
    domain: Seq<char>,
)
    requires
        guards_session(issued, session_id, domain),
        guards_session(removal, session_id, domain),
        !issued.removal,
        removal.removal,
    ensures
        removal.name@ == issued.name@,
        removal.value@ == issued.value@,
        removal.domain@ == issued.domain@,
        removal.path@ == issued.path@,
        removal.http_only == issued.http_only,
        removal.secure == issued.secure,
        removal.same_site == issued.same_site,
{
}

} // verus!
