//! The session cookie codec: seals a session token into a cookie value that
//! the client can neither read nor alter, and opens such a value again.
//!
//! Sealing is authenticated encryption (AES-256-GCM under a server-held key,
//! bound to the cookie's name), done by the `cookie` crate. The verifier
//! does not look inside it: what opening a value yields has a name,
//! [`unsealed`], and the contracts below are stated over that name.

use vstd::prelude::*;
use vstd::string::StringSliceAdditionalSpecFns;
use vstd::utf8::{is_ascii_chars, is_ascii_chars_encode_utf8};

verus! {

/// Name of the one cookie that carries the session.
pub const SESSION_COOKIE: &'static str = "session_id";

/// Least number of bytes of key material that a codec takes.
pub const KEY_LEN: usize = 64;

/// Longest token, in bytes, that a codec seals.
///
/// A cookie is of use only if the client keeps it, and user agents need not
/// keep a cookie of more than 4096 bytes, name and attributes included. A
/// sealed value is longer than its token: see [`sealed_len`]. The bound
/// keeps every sealed value to `MAX_COOKIE_VALUE_LEN` characters, well
/// within that size, and far below the 64 GiB at which the cipher gives up.
pub const MAX_TOKEN_LEN: usize = 1024;

/// Longest cookie value that a codec hands out: the sealed length of a
/// token of `MAX_TOKEN_LEN` bytes.
pub const MAX_COOKIE_VALUE_LEN: usize = 1404;

/// Bytes that sealing puts around the text: a nonce of 12 bytes before it
/// and an authentication tag of 16 bytes after it.
pub const SEAL_OVERHEAD: usize = 28;

/// Number of characters in the sealed form of a text of `len` bytes: nonce,
/// encrypted text and tag, written in base64 with padding, which takes four
/// characters for every three bytes or part thereof.
pub open spec fn sealed_len(len: int) -> int {
    4 * ((len + SEAL_OVERHEAD + 2) / 3)
}

/// What opening the cookie value `sealed` yields under `key`, for the cookie
/// called `name`: the text that was sealed, or `None` if the value does not
/// pass the check of its authenticity and integrity.
pub uninterp spec fn unsealed(key: Seq<u8>, name: Seq<char>, sealed: Seq<char>) -> Option<
    Seq<char>,
>;

/// Seals `value` as the value of the cookie `name`.
///
/// Trusted: the body adds the cookie to a `cookie::PrivateJar` made from
/// `key` with `cookie::Key::from`, and reads the stored value back out of
/// the parent jar. Each sealing draws a random nonce, so the sealed text has
/// no name; the contract states what holds of every sealed text, which is
/// what the crate documents of `PrivateJar::decrypt`: opening always
/// succeeds, and gives the value back, on a cookie sealed by a private jar
/// with the same key. The length of the sealed text is that of the nonce,
/// the encrypted value and the tag in padded base64, as the jar writes
/// them. `Key::from` panics on fewer than 64 bytes, and the cipher refuses
/// inputs beyond 64 GiB; `requires` keeps clear of both.
///
/// One panic no `requires` can exclude: the jar draws the nonce from the
/// thread's random generator, and panics if the generator cannot be seeded
/// from the operating system or fails to fill the nonce.
#[verifier::external_body]
fn seal(key: &[u8], name: &str, value: &str) -> (sealed: String)
    requires
        key@.len() >= KEY_LEN,
        name.spec_bytes().len() <= MAX_TOKEN_LEN,
        value.spec_bytes().len() <= MAX_TOKEN_LEN,
    ensures
        unsealed(key@, name@, sealed@) == Some(value@),
        sealed@.len() == sealed_len(value.spec_bytes().len() as int),
{
    let mut jar = ::cookie::CookieJar::new();
    jar.private_mut(&::cookie::Key::from(key)).add((name.to_owned(), value.to_owned()));
    jar.get(name).unwrap().value().to_owned()
}

/// Opens the value `sealed` of the cookie `name`.
///
/// Trusted: the body is `cookie::PrivateJar::decrypt`, on a jar made from
/// `key` with `cookie::Key::from`. The answer depends on the key, the name
/// and the value alone, so the contract gives it the name `unsealed`.
/// `Key::from` panics on fewer than 64 bytes; `requires` leaves them out.
#[verifier::external_body]
fn unseal(key: &[u8], name: &str, sealed: &str) -> (value: Option<String>)
    requires
        key@.len() >= KEY_LEN,
    ensures
        match value {
            Some(text) => unsealed(key@, name@, sealed@) == Some(text@),
            None => unsealed(key@, name@, sealed@).is_none(),
        },
{
    let jar = ::cookie::CookieJar::new();
    let cookie = ::cookie::Cookie::new(name.to_owned(), sealed.to_owned());
    jar.private(&::cookie::Key::from(key)).decrypt(cookie).map(|c| c.value().to_owned())
}

/// Encodes session tokens into cookie values and back, under one key.
///
/// The key is fixed when the codec is made, once at startup, and every
/// request is served by the same codec.
pub struct CookieCodec {
    key: Vec<u8>,
}

impl CookieCodec {
    #[verifier::type_invariant]
    spec fn has_full_key(&self) -> bool {
        self.key@.len() >= KEY_LEN
    }

    /// The key material that the codec was made with.
    pub closed spec fn key(&self) -> Seq<u8> {
        self.key@
    }

    /// The token that the cookie value `cookie` carries, if the value is
    /// authentic.
    pub open spec fn decoded(&self, cookie: Seq<char>) -> Option<Seq<char>> {
        unsealed(self.key(), SESSION_COOKIE@, cookie)
    }

    /// A codec under the key `key`, which must hold at least `KEY_LEN`
    /// bytes; shorter material is refused.
    pub fn new(key: Vec<u8>) -> (codec: Option<Self>)
        ensures
            codec is Some <==> key@.len() >= KEY_LEN,
            codec matches Some(made) ==> made.key() == key@,
    {
        if key.len() >= KEY_LEN {
            Some(CookieCodec { key })
        } else {
            None
        }
    }

    /// Seals `token` into a cookie value.
    ///
    /// Every value that comes back decodes to `token` under this codec, and
    /// is short enough for a client to keep: at most `MAX_COOKIE_VALUE_LEN`
    /// characters. A token of more than `MAX_TOKEN_LEN` bytes, whose cookie
    /// could outgrow what clients keep, is not sealed.
    pub fn encode(&self, token: &str) -> (cookie: Option<String>)
        ensures
            cookie is Some <==> token.spec_bytes().len() <= MAX_TOKEN_LEN,
            cookie matches Some(value) ==> {
                &&& self.decoded(value@) == Some(token@)
                &&& value@.len() == sealed_len(token.spec_bytes().len() as int)
                &&& value@.len() <= MAX_COOKIE_VALUE_LEN
            },
    {
        proof {
            use_type_invariant(self);
            lemma_cookie_name_is_short();
        }
        if token.as_bytes().len() <= MAX_TOKEN_LEN {
            Some(seal(self.key.as_slice(), SESSION_COOKIE, token))
        } else {
            None
        }
    }

    /// Opens a cookie value: the token it carries if the value is authentic
    /// and intact, `None` otherwise. Nothing of a value that fails the check
    /// is handed on.
    pub fn decode(&self, cookie: &str) -> (token: Option<String>)
        ensures
            match token {
                Some(text) => self.decoded(cookie@) == Some(text@),
                None => self.decoded(cookie@).is_none(),
            },
    {
        proof {
            use_type_invariant(self);
        }
        unseal(self.key.as_slice(), SESSION_COOKIE, cookie)
    }
}

proof fn lemma_cookie_name_is_short()
    ensures
        SESSION_COOKIE.spec_bytes().len() == 10,
{
    reveal_strlit("session_id");
    assert(is_ascii_chars(SESSION_COOKIE@));
    is_ascii_chars_encode_utf8(SESSION_COOKIE@);
}

} // verus!
