//! The authentication guard: from the cookie of a request to the identity
//! behind it.
//!
//! The guard never fails. A request without a cookie, with a cookie that
//! does not open, or with a token that is not live is simply anonymous.

use vstd::prelude::*;
use crate::codec::CookieCodec;
use crate::session::{live_user, SessionStore};

verus! {

/// Who a request comes from.
#[derive(Debug, Clone, Copy, PartialEq, Eq, Structural)]
pub enum Identity {
    /// A logged-in user, by id.
    Authenticated(i64),
    /// Nobody in particular.
    Anonymous,
}

impl Identity {
    /// The identity that stands for `user`: that user, or nobody.
    pub open spec fn of(user: Option<i64>) -> Identity {
        match user {
            Some(user_id) => Identity::Authenticated(user_id),
            None => Identity::Anonymous,
        }
    }

    /// The user's id, if there is a user.
    pub fn user_id(&self) -> (user: Option<i64>)
        ensures
            Identity::of(user) == *self,
    {
        match self {
            Identity::Authenticated(user_id) => Some(*user_id),
            Identity::Anonymous => None,
        }
    }

    /// Whether the request comes from a logged-in user.
    pub fn is_authenticated(&self) -> (yes: bool)
        ensures
            yes == (*self is Authenticated),
    {
        match self {
            Identity::Authenticated(_) => true,
            Identity::Anonymous => false,
        }
    }

    /// Whether a record owned by `owner_id` may be shown to, or changed by,
    /// this identity: only its owner may, and nobody anonymous.
    pub fn owns(&self, owner_id: i64) -> (yes: bool)
        ensures
            yes == (*self == Identity::Authenticated(owner_id)),
    {
        match self {
            Identity::Authenticated(user_id) => *user_id == owner_id,
            Identity::Anonymous => false,
        }
    }
}

/// The text of an optional string.
pub open spec fn text_of(s: Option<&str>) -> Option<Seq<char>> {
    match s {
        Some(text) => Some(text@),
        None => None,
    }
}

/// The token that a request carries: what its session cookie, if it has
/// one, opens to under `codec`.
pub open spec fn carried_token(codec: CookieCodec, cookie: Option<Seq<char>>) -> Option<
    Seq<char>,
> {
    match cookie {
        Some(value) => codec.decoded(value),
        None => None,
    }
}

/// The identity that a token stands for among the sessions `sessions`.
pub open spec fn identity_of(sessions: Map<Seq<char>, i64>, token: Option<Seq<char>>) -> Identity {
    match token {
        Some(text) => Identity::of(live_user(sessions, text)),
        None => Identity::Anonymous,
    }
}

/// Resolves a token, already recovered from the cookie or absent, to an
/// identity: the user of the session if the token is live, nobody otherwise.
pub fn identify(store: &SessionStore, token: Option<&str>) -> (identity: Identity)
    ensures
        identity == identity_of(store@, text_of(token)),
{
    match token {
        Some(text) => match store.resolve(text) {
            Some(user_id) => Identity::Authenticated(user_id),
            None => Identity::Anonymous,
        },
        None => Identity::Anonymous,
    }
}

/// Resolves the session cookie of a request to an identity.
///
/// The request is authenticated exactly when it has a cookie, the cookie
/// opens under `codec`, and the token inside is live in `store`; the
/// identity is then the user of that session. In every other case the
/// request is anonymous.
pub fn authenticate(store: &SessionStore, codec: &CookieCodec, cookie: Option<&str>) -> (identity:
    Identity)
    ensures
        identity == identity_of(store@, carried_token(*codec, text_of(cookie))),
{
    match cookie {
        Some(value) => match codec.decode(value) {
            Some(token) => identify(store, Some(token.as_str())),
            None => Identity::Anonymous,
        },
        None => Identity::Anonymous,
    }
}

} // verus!
