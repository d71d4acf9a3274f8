//! Session tokens: opaque random identifiers naming a live session.
//!
//! A token is two random (version 4) UUIDs written one after the other,
//! each in its hyphenated lower-case form. One such UUID has 122 random
//! bits; a token has 244.

use vstd::prelude::*;
use vstd::string::StringExecFns;
use vstd::utf8::{encode_utf8, is_ascii_chars, is_ascii_chars_encode_utf8};

verus! {

/// Number of characters in the text of one UUID.
pub const UUID_LEN: usize = 36;

/// Number of characters in a session token.
pub const TOKEN_LEN: usize = 72;

/// A lower-case hexadecimal digit.
pub open spec fn is_lower_hex(c: char) -> bool {
    ('0' <= c && c <= '9') || ('a' <= c && c <= 'f')
}

/// Positions of the four hyphens that separate the five groups of a UUID.
pub open spec fn is_separator_position(i: int) -> bool {
    i == 8 || i == 13 || i == 18 || i == 23
}

/// Whether `c` may stand at position `i` of the text of a random UUID,
/// `xxxxxxxx-xxxx-4xxx-yxxx-xxxxxxxxxxxx`, where `x` is any hexadecimal
/// digit and `y` is one of `8`, `9`, `a`, `b`.
pub open spec fn fits_position(i: int, c: char) -> bool {
    if is_separator_position(i) {
        c == '-'
    } else if i == 14 {
        c == '4'
    } else if i == 19 {
        c == '8' || c == '9' || c == 'a' || c == 'b'
    } else {
        is_lower_hex(c)
    }
}

/// The text of a random UUID.
pub open spec fn is_uuid_text(s: Seq<char>) -> bool {
    &&& s.len() == UUID_LEN
    &&& forall|i: int| 0 <= i < UUID_LEN ==> fits_position(i, #[trigger] s[i])
}

/// The shape of a session token: the texts of two random UUIDs, one after
/// the other.
pub open spec fn is_session_token(s: Seq<char>) -> bool {
    &&& s.len() == TOKEN_LEN
    &&& forall|i: int| 0 <= i < TOKEN_LEN ==> fits_position(i % 36, #[trigger] s[i])
}

/// Two UUID texts in a row make a session token.
pub proof fn lemma_two_uuids_make_a_token(first: Seq<char>, second: Seq<char>)
    requires
        is_uuid_text(first),
        is_uuid_text(second),
    ensures
        is_session_token(first + second),
{
    let s = first + second;
    assert forall|i: int| 0 <= i < TOKEN_LEN implies fits_position(i % 36, #[trigger] s[i]) by {
        if i < 36 {
            assert(s[i] == first[i]);
        } else {
            assert(s[i] == second[i - 36]);
        }
    }
}

/// A session token is plain ASCII, one byte to the character.
pub proof fn lemma_token_is_ascii(s: Seq<char>)
    requires
        is_session_token(s),
    ensures
        is_ascii_chars(s),
        encode_utf8(s).len() == TOKEN_LEN,
{
    assert forall|i: int| 0 <= i < s.len() implies '\0' <= #[trigger] s[i] <= '\u{7f}' by {
        assert(fits_position(i % 36, s[i]));
    }
    is_ascii_chars_encode_utf8(s);
}

fn char_fits(i: usize, c: char) -> (ok: bool)
    ensures
        ok == fits_position(i as int, c),
{
    if i == 8 || i == 13 || i == 18 || i == 23 {
        c == '-'
    } else if i == 14 {
        c == '4'
    } else if i == 19 {
        c == '8' || c == '9' || c == 'a' || c == 'b'
    } else {
        ('0' <= c && c <= '9') || ('a' <= c && c <= 'f')
    }
}

/// Tells whether `s` has the shape of a session token.
pub fn is_token(s: &str) -> (ok: bool)
    ensures
        ok == is_session_token(s@),
{
    if s.unicode_len() != TOKEN_LEN {
        return false;
    }
    let mut i: usize = 0;
    while i < TOKEN_LEN
        invariant
            i <= TOKEN_LEN,
            s@.len() == TOKEN_LEN,
            forall|j: int| 0 <= j < i ==> fits_position(j % 36, #[trigger] s@[j]),
        decreases TOKEN_LEN - i,
    {
        if !char_fits(i % UUID_LEN, s.get_char(i)) {
            assert(!fits_position(i as int % 36, s@[i as int]));
            return false;
        }
        i += 1;
    }
    true
}

/// Draws a random UUID and writes it out.
///
/// Trusted: the body is `uuid::Uuid::new_v4` followed by `to_string`. The
/// contract claims only the shape of the text, which holds of every draw:
/// `new_v4` fixes the version and variant bits and `to_string` writes the
/// hyphenated lower-case form. Nothing is claimed about which UUID comes
/// out; two calls are unrelated as far as the verifier knows.
///
/// One panic no `requires` can exclude: `new_v4` panics if the operating
/// system's random source fails.
#[verifier::external_body]
fn random_uuid() -> (text: String)
    ensures
        is_uuid_text(text@),
{
    uuid::Uuid::new_v4().to_string()
}

/// Draws a new random token.
pub fn new_token() -> (token: String)
    ensures
        is_session_token(token@),
{
    let first = random_uuid();
    let second = random_uuid();
    proof {
        lemma_two_uuids_make_a_token(first@, second@);
    }
    first.concat(second.as_str())
}

} // verus!
