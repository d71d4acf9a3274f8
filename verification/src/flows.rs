//! The authentication flows: register, login and logout.
//!
//! The user record store is not part of this crate. A flow that needs it is
//! cut at the call: the caller looks a user up, or inserts one, and hands
//! the store's answer in; the flow decides what follows from it.
//!
//! Hashing and checking a password are slow on purpose. Both stand in the
//! halves that take no session store, so a server that keeps the store
//! behind a lock never holds the lock over them.

use vstd::prelude::*;
use crate::codec::CookieCodec;
use crate::credential::{
    digest_accepts, has_digest_form, hash_password, records_cost, verify_password, HASH_COST,
};
use crate::guard::{carried_token, identity_of, text_of, Identity};
use crate::session::{has_live_token, SessionStore};
use crate::token::{is_session_token, lemma_token_is_ascii};
use crate::transport::{
    carries_session, clears_session, expired_cookie, session_cookie, Page, Reply, SetCookie,
};

verus! {

/// A user as the record store holds it.
#[derive(Debug, Clone, PartialEq, Eq)]
pub struct UserRecord {
    /// The user's identity, unique in the store.
    pub id: i64,
    /// The user's name, unique in the store and case-sensitive.
    pub username: String,
    /// The digest of the user's password.
    pub password_hash: String,
}

/// A user to be added to the record store.
#[derive(Debug, Clone, PartialEq, Eq)]
pub struct NewUser {
    /// The name to register.
    pub username: String,
    /// The digest of the password to register.
    pub password_hash: String,
}

/// The record store's answer to a lookup by username.
#[derive(Debug, Clone, PartialEq, Eq)]
pub enum Lookup {
    /// The user of that name.
    Found(UserRecord),
    /// There is no user of that name.
    Missing,
    /// The store could not be asked.
    Unavailable,
}

/// Why the record store did not add a user.
#[derive(Debug, Clone, Copy, PartialEq, Eq, Structural)]
pub enum StoreError {
    /// The name is taken.
    DuplicateUsername,
    /// The store could not be reached.
    Unavailable,
}

/// How a registration ended.
#[derive(Debug, Clone, Copy, PartialEq, Eq, Structural)]
pub enum RegisterOutcome {
    /// The user was added, under this id.
    Registered(i64),
    /// The name is taken; nothing was added.
    DuplicateUsername,
    /// The server failed; nothing is known to have been added.
    InternalError,
}

/// How a login ended.
#[derive(Debug, Clone, PartialEq, Eq)]
pub enum LoginOutcome {
    /// The credentials were right: a session was started for the user, and
    /// the cookie carries its token to the client.
    LoggedIn { user_id: i64, cookie: SetCookie },
    /// No such user, or the wrong password; the two are not told apart.
    InvalidCredentials,
    /// The server failed; no session was started.
    InternalError,
}

/// What checking a password against the record store's answer found.
#[derive(Debug, Clone, Copy, PartialEq, Eq, Structural)]
pub enum CredentialCheck {
    /// The password is that of the user with this id.
    Accepted(i64),
    /// No such user, or the wrong password; the two are not told apart.
    Refused,
    /// The store could not be asked.
    Unavailable,
}

/// What the check of `password` against `lookup` comes to.
pub open spec fn checked(lookup: Lookup, password: Seq<char>) -> CredentialCheck {
    match lookup {
        Lookup::Found(user) => if digest_accepts(user.password_hash@, password) {
            CredentialCheck::Accepted(user.id)
        } else {
            CredentialCheck::Refused
        },
        Lookup::Missing => CredentialCheck::Refused,
        Lookup::Unavailable => CredentialCheck::Unavailable,
    }
}

/// Whether `cookie` hands the client a session of `user_id` that was
/// started on the way from the table `before` to the table `after`: the
/// cookie opens under `codec` to a token that was not live, and the one
/// change to the table is that the token now stands for the user.
pub open spec fn opens_session(
    cookie: SetCookie,
    codec: CookieCodec,
    user_id: i64,
    before: Map<Seq<char>, i64>,
    after: Map<Seq<char>, i64>,
) -> bool {
    &&& carries_session(cookie, cookie.value@)
    &&& codec.decoded(cookie.value@) matches Some(token)
    &&& is_session_token(token)
    &&& !before.contains_key(token)
    &&& after == before.insert(token, user_id)
}

/// First half of registration: hashes the password and returns the record
/// to add to the store.
///
/// The record holds the name as given and a digest of the password, made
/// at the work factor `HASH_COST`, never the password itself. If the hasher
/// fails there is nothing to add, and the registration has ended in
/// `InternalError`.
pub fn register(username: &str, password: &str) -> (record: Result<NewUser, RegisterOutcome>)
    ensures
        match record {
            Ok(user) => {
                &&& user.username@ == username@
                &&& has_digest_form(user.password_hash@)
                &&& records_cost(user.password_hash@, HASH_COST as int)
                &&& digest_accepts(user.password_hash@, password@)
                &&& user.password_hash@ != password@
            },
            Err(outcome) => outcome == RegisterOutcome::InternalError,
        },
{
    match hash_password(password) {
        Ok(digest) => Ok(NewUser { username: username.to_owned(), password_hash: digest }),
        Err(_) => Err(RegisterOutcome::InternalError),
    }
}

/// Second half of registration: what the store's answer to the insertion
/// means for the client. A taken name is a failed registration, not a
/// failure of the server.
pub fn conclude_registration(inserted: Result<i64, StoreError>) -> (outcome: RegisterOutcome)
    ensures
        outcome == match inserted {
            Ok(user_id) => RegisterOutcome::Registered(user_id),
            Err(StoreError::DuplicateUsername) => RegisterOutcome::DuplicateUsername,
            Err(StoreError::Unavailable) => RegisterOutcome::InternalError,
        },
{
    match inserted {
        Ok(user_id) => RegisterOutcome::Registered(user_id),
        Err(StoreError::DuplicateUsername) => RegisterOutcome::DuplicateUsername,
        Err(StoreError::Unavailable) => RegisterOutcome::InternalError,
    }
}

/// First half of login: checks the password that was typed against the
/// record store's answer to the lookup of the name.
///
/// A missing user and a wrong password come to the same `Refused`. A stored
/// digest that is no digest refuses every password. The check touches no
/// session, so it can run, slow as it is, while others use the store.
pub fn check_credentials(lookup: &Lookup, password: &str) -> (check: CredentialCheck)
    ensures
        check == checked(*lookup, password@),
        (*lookup matches Lookup::Found(user) && !has_digest_form(user.password_hash@)) ==> check
            == CredentialCheck::Refused,
{
    match lookup {
        Lookup::Found(user) => {
            if verify_password(password, user.password_hash.as_str()) {
                CredentialCheck::Accepted(user.id)
            } else {
                CredentialCheck::Refused
            }
        },
        Lookup::Missing => CredentialCheck::Refused,
        Lookup::Unavailable => CredentialCheck::Unavailable,
    }
}

/// Starts a session for `user_id` and seals its token into the cookie to
/// set. If no token could be drawn that was not live, nothing is started;
/// sealing never stands in the way, so that is the one way to fail, and it
/// takes a live session under a token-shaped key for a draw to hit.
pub fn start_session(store: &mut SessionStore, codec: &CookieCodec, user_id: i64) -> (started:
    Option<SetCookie>)
    ensures
        match started {
            Some(cookie) => opens_session(cookie, *codec, user_id, old(store)@, final(store)@),
            None => has_live_token(old(store)@) && final(store)@ == old(store)@,
        },
{
    match store.create(user_id) {
        Some(token) => {
            proof {
                lemma_token_is_ascii(token@);
            }
            match codec.encode(token.as_str()) {
                Some(value) => Some(session_cookie(value)),
                // A session token is never too long to seal.
                None => {
                    store.invalidate(token.as_str());
                    None
                },
            }
        },
        None => None,
    }
}

/// Second half of login: acts on the outcome of the credential check.
///
/// Refused credentials end in `InvalidCredentials` and an unreachable store
/// in `InternalError`; in neither is a session started or a cookie set.
/// Accepted credentials start a session for the user, and the cookie that
/// comes back carries its token; or, if no session could be started, the
/// login ends in `InternalError` with the store as it was. That happens
/// only when every draw of a token hit a live session: while no live
/// session goes under a token-shaped key, as in a new store, accepted
/// credentials always log in.
pub fn login(store: &mut SessionStore, codec: &CookieCodec, check: CredentialCheck) -> (outcome:
    LoginOutcome)
    ensures
        match check {
            CredentialCheck::Accepted(_) => outcome is LoggedIn || outcome is InternalError,
            CredentialCheck::Refused => outcome is InvalidCredentials,
            CredentialCheck::Unavailable => outcome is InternalError,
        },
        (check is Accepted && !has_live_token(old(store)@)) ==> outcome is LoggedIn,
        match outcome {
            LoginOutcome::LoggedIn { user_id, cookie } => {
                &&& check == CredentialCheck::Accepted(user_id)
                &&& opens_session(cookie, *codec, user_id, old(store)@, final(store)@)
            },
            _ => final(store)@ == old(store)@,
        },
{
    match check {
        CredentialCheck::Accepted(user_id) => match start_session(store, codec, user_id) {
            Some(cookie) => LoginOutcome::LoggedIn { user_id, cookie },
            None => LoginOutcome::InternalError,
        },
        CredentialCheck::Refused => LoginOutcome::InvalidCredentials,
        CredentialCheck::Unavailable => LoginOutcome::InternalError,
    }
}

/// Logs the client out: ends the session that the cookie names, if it
/// names one, and returns the cookie that clears the client's own.
///
/// The clearing cookie comes back whatever the request carried, so logging
/// out twice, or without a session, is harmless.
pub fn logout(store: &mut SessionStore, codec: &CookieCodec, cookie: Option<&str>) -> (cleared:
    SetCookie)
    ensures
        final(store)@ == after_logout(old(store)@, *codec, text_of(cookie)),
        clears_session(cleared),
{
    match cookie {
        Some(value) => match codec.decode(value) {
            Some(token) => store.invalidate(token.as_str()),
            None => {},
        },
        None => {},
    }
    expired_cookie()
}

/// The table of sessions after a logout that presented `cookie`.
pub open spec fn after_logout(
    sessions: Map<Seq<char>, i64>,
    codec: CookieCodec,
    cookie: Option<Seq<char>>,
) -> Map<Seq<char>, i64> {
    match carried_token(codec, cookie) {
        Some(token) => sessions.remove(token),
        None => sessions,
    }
}

/// A session started by a login is seen by the very next request: the
/// cookie that the login set authenticates as the user who logged in.
pub proof fn lemma_login_cookie_authenticates(
    cookie: SetCookie,
    codec: CookieCodec,
    user_id: i64,
    before: Map<Seq<char>, i64>,
    after: Map<Seq<char>, i64>,
)
    requires
        opens_session(cookie, codec, user_id, before, after),
    ensures
        identity_of(after, carried_token(codec, Some(cookie.value@))) == Identity::Authenticated(
            user_id,
        ),
{
}

/// After a logout, the cookie that was presented is anonymous, whatever it
/// was before.
pub proof fn lemma_logout_cookie_is_anonymous(
    sessions: Map<Seq<char>, i64>,
    codec: CookieCodec,
    cookie: Seq<char>,
)
    ensures
        identity_of(after_logout(sessions, codec, Some(cookie)), carried_token(codec, Some(cookie)))
            == Identity::Anonymous,
{
}

/// Two logins, one after the other, hand out different cookies for
/// different tokens. Both cookies authenticate, each as its own user, and
/// logging out with either leaves the other authenticated.
pub proof fn lemma_two_logins_are_independent(
    codec: CookieCodec,
    first: SetCookie,
    first_user: i64,
    second: SetCookie,
    second_user: i64,
    start: Map<Seq<char>, i64>,
    between: Map<Seq<char>, i64>,
    end: Map<Seq<char>, i64>,
)
    requires
        opens_session(first, codec, first_user, start, between),
        opens_session(second, codec, second_user, between, end),
    ensures
        first.value@ != second.value@,
        codec.decoded(first.value@) != codec.decoded(second.value@),
        identity_of(end, carried_token(codec, Some(first.value@))) == Identity::Authenticated(
            first_user,
        ),
        identity_of(end, carried_token(codec, Some(second.value@))) == Identity::Authenticated(
            second_user,
        ),
        identity_of(
            after_logout(end, codec, Some(first.value@)),
            carried_token(codec, Some(second.value@)),
        ) == Identity::Authenticated(second_user),
        identity_of(
            after_logout(end, codec, Some(second.value@)),
            carried_token(codec, Some(first.value@)),
        ) == Identity::Authenticated(first_user),
{
}

impl RegisterOutcome {
    /// Where a registration sends the client: on to the login form once
    /// registered, back to the registration form if the name is taken.
    pub fn reply(&self) -> (reply: Reply)
        ensures
            reply == match *self {
                RegisterOutcome::Registered(_) => Reply::Redirect(Page::Login),
                RegisterOutcome::DuplicateUsername => Reply::Redirect(Page::Register),
                RegisterOutcome::InternalError => Reply::ServerError,
            },
    {
        match self {
            RegisterOutcome::Registered(_) => Reply::Redirect(Page::Login),
            RegisterOutcome::DuplicateUsername => Reply::Redirect(Page::Register),
            RegisterOutcome::InternalError => Reply::ServerError,
        }
    }
}

impl LoginOutcome {
    /// Where a login sends the client: on to the index once logged in, back
    /// to the login form, without detail, if the credentials were refused.
    pub fn reply(&self) -> (reply: Reply)
        ensures
            reply == match *self {
                LoginOutcome::LoggedIn { .. } => Reply::Redirect(Page::Index),
                LoginOutcome::InvalidCredentials => Reply::Redirect(Page::Login),
                LoginOutcome::InternalError => Reply::ServerError,
            },
    {
        match self {
            LoginOutcome::LoggedIn { .. } => Reply::Redirect(Page::Index),
            LoginOutcome::InvalidCredentials => Reply::Redirect(Page::Login),
            LoginOutcome::InternalError => Reply::ServerError,
        }
    }
}

} // verus!
