//! What the flows ask of the transport: the cookie to set on the response,
//! and where to send the client next.

use vstd::prelude::*;
use crate::codec::SESSION_COOKIE;

verus! {

/// A cookie to set on the response.
#[derive(Debug, Clone, PartialEq, Eq)]
pub struct SetCookie {
    /// The cookie's name.
    pub name: String,
    /// The cookie's value; empty when the cookie is being cleared.
    pub value: String,
    /// Keep the cookie out of reach of client-side scripts.
    pub http_only: bool,
    /// Send the cookie only with requests from the site's own origin.
    pub same_site: bool,
    /// Expire the cookie at once, so that the client drops it.
    pub expire_now: bool,
}

/// Whether `cookie` sets the session cookie to `value`: under the one name,
/// hidden from scripts, kept to the site's own origin, and left to live.
pub open spec fn carries_session(cookie: SetCookie, value: Seq<char>) -> bool {
    &&& cookie.name@ == SESSION_COOKIE@
    &&& cookie.value@ == value
    &&& cookie.http_only
    &&& cookie.same_site
    &&& !cookie.expire_now
}

/// Whether `cookie` clears the session cookie: under the one name, with an
/// empty value and immediate expiry.
pub open spec fn clears_session(cookie: SetCookie) -> bool {
    &&& cookie.name@ == SESSION_COOKIE@
    &&& cookie.value@.len() == 0
    &&& cookie.http_only
    &&& cookie.same_site
    &&& cookie.expire_now
}

/// The cookie that hands the sealed value `value` to the client.
pub fn session_cookie(value: String) -> (cookie: SetCookie)
    ensures
        carries_session(cookie, value@),
{
    SetCookie {
        name: SESSION_COOKIE.to_owned(),
        value,
        http_only: true,
        same_site: true,
        expire_now: false,
    }
}

/// The cookie that makes the client forget its session.
pub fn expired_cookie() -> (cookie: SetCookie)
    ensures
        clears_session(cookie),
{
    SetCookie {
        name: SESSION_COOKIE.to_owned(),
        value: String::new(),
        http_only: true,
        same_site: true,
        expire_now: true,
    }
}

/// A view of the application that a client can be sent to.
#[derive(Debug, Clone, Copy, PartialEq, Eq, Structural)]
pub enum Page {
    /// The list of the user's own forms.
    Index,
    /// The login form.
    Login,
    /// The registration form.
    Register,
}

/// How a flow answers the client.
#[derive(Debug, Clone, Copy, PartialEq, Eq, Structural)]
pub enum Reply {
    /// Send the client on to a page.
    Redirect(Page),
    /// Report a failure of the server, without detail.
    ServerError,
}

} // verus!
