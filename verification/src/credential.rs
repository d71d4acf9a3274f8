//! The credential hasher: one-way, salted, deliberately slow digests of
//! passwords, and the check of a password against a stored digest.
//!
//! The digest algorithm is bcrypt, computed by the `bcrypt` crate. The
//! verifier does not look inside it: what a check answers has a name,
//! [`bcrypt_verdict`], and the contracts below are stated over that name.

use vstd::prelude::*;
use vstd::utf8::is_ascii_chars;

verus! {

/// The work factor handed to bcrypt: the hash runs `2^HASH_COST` rounds.
pub const HASH_COST: u32 = 12;

/// Number of characters in a digest.
pub const DIGEST_LEN: usize = 60;

/// The error type of the `bcrypt` crate, carried through unopened.
#[verifier::external_type_specification]
#[verifier::external_body]
pub struct ExBcryptError(bcrypt::BcryptError);

/// What `bcrypt::verify` answers for a password and a digest: `Some(true)`
/// if the digest is one of the password, `Some(false)` if it is a digest of
/// something else, `None` if the text is no digest at all.
pub uninterp spec fn bcrypt_verdict(password: Seq<char>, digest: Seq<char>) -> Option<bool>;

/// Whether `digest` has the outward form of a digest: `DIGEST_LEN` ASCII
/// characters. Text without it is rejected unread.
pub open spec fn has_digest_form(digest: Seq<char>) -> bool {
    digest.len() == DIGEST_LEN && is_ascii_chars(digest)
}

/// The number that the decimal digit `c` stands for.
pub open spec fn digit_value(c: char) -> int {
    c as int - '0' as int
}

/// Whether `digest` opens as a digest made at the work factor `cost`: the
/// marker `$2b$`, the cost as two decimal digits, and `$`.
pub open spec fn records_cost(digest: Seq<char>, cost: int) -> bool {
    &&& digest.len() >= 7
    &&& digest[0] == '$'
    &&& digest[1] == '2'
    &&& digest[2] == 'b'
    &&& digest[3] == '$'
    &&& '0' <= digest[4] <= '9'
    &&& '0' <= digest[5] <= '9'
    &&& 10 * digit_value(digest[4]) + digit_value(digest[5]) == cost
    &&& digest[6] == '$'
}

/// Whether `digest` is a digest of `password`.
pub open spec fn digest_accepts(digest: Seq<char>, password: Seq<char>) -> bool {
    bcrypt_verdict(password, digest) == Some(true)
}

/// The hasher could not produce a digest to store.
#[derive(Debug, Clone, Copy, PartialEq, Eq, Structural)]
pub struct HashingFailed;

/// Checks `password` against `digest` with bcrypt.
///
/// Trusted: the body is `bcrypt::verify`. Its answer depends on the two
/// texts alone, so the contract gives it the name `bcrypt_verdict`. The one
/// fact stated of the name is the first thing `verify` does: a text that is
/// not exactly sixty ASCII bytes makes it return an error.
#[verifier::external_body]
fn bcrypt_verify(password: &str, digest: &str) -> (outcome: Result<bool, bcrypt::BcryptError>)
    ensures
        match outcome {
            Ok(matched) => bcrypt_verdict(password@, digest@) == Some(matched),
            Err(_) => bcrypt_verdict(password@, digest@).is_none(),
        },
        !has_digest_form(digest@) ==> outcome is Err,
{
    bcrypt::verify(password, digest)
}

/// Hashes `password` with bcrypt at the given cost and a random salt.
///
/// Trusted: the body is `bcrypt::hash`. The salt is drawn anew on every
/// call, so the digest has no name; the contract states what holds of every
/// digest that comes back. A digest comes back only for a cost from 4 to
/// 31; any other is refused before anything is computed. It is written as
/// sixty ASCII characters, which begin with the marker `$2b$`, the cost in
/// two decimal digits, and `$`. And `bcrypt::verify` accepts it for the same
/// password: `verify` reads cost and salt back out of the digest and
/// repeats the computation.
#[verifier::external_body]
fn bcrypt_hash(password: &str, cost: u32) -> (outcome: Result<String, bcrypt::BcryptError>)
    ensures
        outcome matches Ok(digest) ==> {
            &&& 4 <= cost <= 31
            &&& has_digest_form(digest@)
            &&& records_cost(digest@, cost as int)
            &&& bcrypt_verdict(password@, digest@) == Some(true)
        },
{
    bcrypt::hash(password, cost)
}

/// Decides what to store for `password`, given what the hasher produced.
///
/// A digest is passed on; a failure of the hasher is reported as such. A
/// digest that reads the same as the password is refused too, so that what
/// is stored is never the plaintext.
pub fn accept_digest(password: &str, hashed: Result<String, bcrypt::BcryptError>) -> (stored:
    Result<String, HashingFailed>)
    ensures
        match hashed {
            Ok(digest) => if digest@ == password@ {
                stored == Err::<String, HashingFailed>(HashingFailed)
            } else {
                stored == Ok::<String, HashingFailed>(digest)
            },
            Err(_) => stored == Err::<String, HashingFailed>(HashingFailed),
        },
{
    match hashed {
        Ok(digest) => {
            let plaintext = password.to_owned();
            if digest == plaintext {
                Err(HashingFailed)
            } else {
                Ok(digest)
            }
        },
        Err(_) => Err(HashingFailed),
    }
}

/// Turns the hasher's answer to a check into a yes or no: only a clean
/// "matches" counts, and an error counts as "does not match".
pub fn accept_verdict(checked: Result<bool, bcrypt::BcryptError>) -> (accepted: bool)
    ensures
        accepted == (checked matches Ok(matched) && matched),
{
    match checked {
        Ok(matched) => matched,
        Err(_) => false,
    }
}

/// Produces a salted, slow, one-way digest of `password`, fit to be stored.
///
/// The digest is made at the work factor `HASH_COST` and says so, is
/// accepted by [`verify_password`] for the same password, has the form of a
/// digest, and differs from the password. A failure of the hasher is an
/// error of its own, never a digest.
pub fn hash_password(password: &str) -> (stored: Result<String, HashingFailed>)
    ensures
        stored matches Ok(digest) ==> {
            &&& records_cost(digest@, HASH_COST as int)
            &&& digest_accepts(digest@, password@)
            &&& has_digest_form(digest@)
            &&& digest@ != password@
        },
{
    accept_digest(password, bcrypt_hash(password, HASH_COST))
}

/// Tells whether `digest` is a digest of `password`.
///
/// Never fails: text that is no digest is simply not a digest of `password`.
pub fn verify_password(password: &str, digest: &str) -> (accepted: bool)
    ensures
        accepted == digest_accepts(digest@, password@),
        !has_digest_form(digest@) ==> !accepted,
{
    accept_verdict(bcrypt_verify(password, digest))
}

} // verus!
