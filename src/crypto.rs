//! Checking a presented password against a stored bcrypt hash, and making
//! new hashes.

use vstd::prelude::*;
use vstd::utf8::{decode_utf8, encode_utf8, valid_utf8};

verus! {

#[verifier::external_type_specification]
#[verifier::external_body]
pub struct ExBcryptError(bcrypt::BcryptError);

#[verifier::external_type_specification]
#[verifier::external_body]
pub struct ExDecodeError(base64::DecodeError);

/// The work factor of the hashes this library makes.
pub const BCRYPT_COST: u32 = 12;

/// What `bcrypt::verify` answers for a password and a stored hash:
/// `Some(true)` on a match, `Some(false)` on a mismatch, `None` when it fails.
pub uninterp spec fn bcrypt_verdict(password: Seq<char>, hash: Seq<char>) -> Option<bool>;

/// What `base64::decode` gives for some bytes, `None` where they are not
/// standard base64.
pub uninterp spec fn base64_decoded(text: Seq<u8>) -> Option<Seq<u8>>;

/// Relies on bcrypt::verify: it reads cost and salt from `hash`, hashes
/// `password` again and compares, so the outcome depends on the two
/// arguments alone.
#[verifier::external_body]
fn bcrypt_verify(password: &str, hash: &str) -> (r: Result<bool, bcrypt::BcryptError>)
    ensures
        match r {
            Ok(b) => bcrypt_verdict(password@, hash@) == Some(b),
            Err(_) => bcrypt_verdict(password@, hash@) is None,
        },
{
    bcrypt::verify(password, hash)
}

/// Relies on base64::decode with the standard alphabet.
#[verifier::external_body]
fn base64_decode(text: &[u8]) -> (r: Result<Vec<u8>, base64::DecodeError>)
    ensures
        match r {
            Ok(b) => base64_decoded(text@) == Some(b@),
            Err(_) => base64_decoded(text@) is None,
        },
{
    base64::decode(text)
}

/// Relies on String::from_utf8: it accepts exactly the valid UTF-8 byte
/// strings and keeps their characters.
#[verifier::external_body]
fn utf8_to_string(bytes: Vec<u8>) -> (r: Option<String>)
    ensures
        r is Some <==> valid_utf8(bytes@),
        r is Some ==> r->Some_0@ == decode_utf8(bytes@),
{
    String::from_utf8(bytes).ok()
}

/// Relies on bcrypt::hash: it draws a fresh salt on each call, refuses a
/// cost outside 4 to 31, and writes `$2b$`, the cost, the salt and the hash,
/// which bcrypt::verify reads back to recompute the same hash of `password`.
#[verifier::external_body]
fn bcrypt_hash(password: &str, cost: u32) -> (r: Result<String, bcrypt::BcryptError>)
    ensures
        !(4 <= cost <= 31) ==> r is Err,
        r is Ok ==> bcrypt_verdict(password@, r->Ok_0@) == Some(true),
{
    bcrypt::hash(password, cost)
}

/// The bytes with every line feed taken out.
pub open spec fn without_newlines(b: Seq<u8>) -> Seq<u8>
    decreases b.len(),
{
    if b.len() == 0 {
        b
    } else {
        let rest = without_newlines(b.drop_last());
        if b.last() == 10u8 {
            rest
        } else {
            rest.push(b.last())
        }
    }
}

/// The hash held in base64 form by a stored secret of the older scheme:
/// line feeds dropped, then decoded, then read as UTF-8.
pub open spec fn decoded_hash(stored: Seq<char>) -> Option<Seq<char>> {
    match base64_decoded(without_newlines(encode_utf8(stored))) {
        Some(raw) => if valid_utf8(raw) {
            Some(decode_utf8(raw))
        } else {
            None
        },
        None => None,
    }
}

/// A presented password is accepted when it matches the hash decoded from
/// the stored secret, or else the stored secret taken as a hash itself.
pub open spec fn password_matches(stored: Seq<char>, presented: Seq<char>) -> bool {
    ||| (match decoded_hash(stored) {
        Some(h) => bcrypt_verdict(presented, h) == Some(true),
        None => false,
    })
    ||| bcrypt_verdict(presented, stored) == Some(true)
}

/// The stored bytes with line feeds removed.
fn strip_newlines(bytes: &[u8]) -> (r: Vec<u8>)
    ensures
        r@ == without_newlines(bytes@),
{
    let mut out: Vec<u8> = Vec::new();
    let mut i: usize = 0;
    while i < bytes.len()
        invariant
            i <= bytes@.len(),
            out@ == without_newlines(bytes@.subrange(0, i as int)),
        decreases bytes@.len() - i,
    {
        let b: u8 = bytes[i];
        if b != 10u8 {
            out.push(b);
        }
        assert(bytes@.subrange(0, i + 1).drop_last() == bytes@.subrange(0, i as int));
        i = i + 1;
    }
    assert(bytes@.subrange(0, bytes@.len() as int) == bytes@);
    out
}

/// Checks `password` against the stored secret `token`, which is either a
/// base64 form of a bcrypt hash (possibly broken over lines) or a bcrypt hash
/// itself. The first path that confirms a match wins; any failure to decode
/// or to compare counts as no match. Never fails.
pub fn verify_helper(token: &str, password: &str) -> (r: bool)
    ensures
        r == password_matches(token@, password@),
{
    let cleaned = strip_newlines(token.as_bytes());
    if let Ok(raw) = base64_decode(cleaned.as_slice()) {
        if let Some(hash) = utf8_to_string(raw) {
            if let Ok(true) = bcrypt_verify(password, hash.as_str()) {
                return true;
            }
        }
    }
    match bcrypt_verify(password, token) {
        Ok(b) => b,
        Err(_) => false,
    }
}

/// A new bcrypt hash of `password` at the library's work factor, or `None`
/// when hashing fails. A hash made here accepts `password`.
pub fn hash_password(password: &str) -> (r: Option<String>)
    ensures
        r is Some ==> bcrypt_verdict(password@, r->Some_0@) == Some(true),
        r is Some ==> password_matches(r->Some_0@, password@),
{
    match bcrypt_hash(password, BCRYPT_COST) {
        Ok(h) => Some(h),
        Err(_) => None,
    }
}

} // verus!
