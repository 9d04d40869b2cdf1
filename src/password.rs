//! One-way salted password hashing and verification.

use vstd::prelude::*;

verus! {

/// Why hashing or verifying a password failed.
#[derive(Clone, Copy, Debug, PartialEq, Eq, Structural)]
pub enum HashingError {
    /// The hasher itself failed (no randomness for the salt).
    HashFailed,
    /// The stored digest is not a well-formed digest for the algorithm.
    MalformedDigest,
}

/// What checking `password` against the bcrypt `digest` gives: whether they
/// match, or `None` where the digest is not well formed.
pub uninterp spec fn bcrypt_verdict(password: Seq<char>, digest: Seq<char>) -> Option<bool>;

/// The prefix of every digest this library makes: bcrypt version `2b`, cost 12.
pub open spec fn digest_prefix() -> Seq<char> {
    seq!['$', '2', 'b', '$', '1', '2', '$']
}

/// A character of bcrypt's base64 alphabet: `.`, `/`, `A-Z`, `a-z`, `0-9`.
pub open spec fn is_bcrypt_char(c: char) -> bool {
    c == '.' || c == '/' || ('A' <= c && c <= 'Z') || ('a' <= c && c <= 'z') || ('0' <= c && c
        <= '9')
}

/// The form of a digest made at the default cost: 60 characters, the prefix,
/// then 22 characters of salt and 31 of hash, all of bcrypt's alphabet.
pub open spec fn default_cost_digest(d: Seq<char>) -> bool {
    &&& d.len() == 60
    &&& d.subrange(0, 7) == digest_prefix()
    &&& forall|i: int| 7 <= i < 60 ==> is_bcrypt_char(#[trigger] d[i])
}

/// The outcome of verifying `password` against `digest`.
pub open spec fn verify_outcome(password: Seq<char>, digest: Seq<char>) -> Result<bool, HashingError> {
    match bcrypt_verdict(password, digest) {
        Some(b) => Ok(b),
        None => Err(HashingError::MalformedDigest),
    }
}

/// Relies on `bcrypt::hash` at `bcrypt::DEFAULT_COST`: it draws a fresh random
/// salt, fails only where the system gives no randomness, and returns a digest
/// that `bcrypt::verify` accepts for the same password, formatted as `$2b$12$`
/// followed by 22 salt and 31 hash characters.
#[verifier::external_body]
fn bcrypt_hash(password: &str) -> (r: Option<String>)
    ensures
        r matches Some(d) ==> bcrypt_verdict(password@, d@) == Some(true),
        r matches Some(d) ==> default_cost_digest(d@),
{
    bcrypt::hash(password, bcrypt::DEFAULT_COST).ok()
}

/// Relies on `bcrypt::verify`, which recomputes the digest with the salt and cost
/// stored in `digest` and compares in constant time; its error becomes `None`.
#[verifier::external_body]
fn bcrypt_verify(password: &str, digest: &str) -> (r: Option<bool>)
    ensures
        r == bcrypt_verdict(password@, digest@),
{
    bcrypt::verify(password, digest).ok()
}

/// Hashes `password` with a fresh salt at cost 12. The digest verifies against
/// `password`.
pub fn hash_password(password: &str) -> (r: Result<String, HashingError>)
    ensures
        match r {
            Ok(d) => verify_outcome(password@, d@) == Ok::<bool, HashingError>(true)
                && default_cost_digest(d@),
            Err(e) => e == HashingError::HashFailed,
        },
{
    match bcrypt_hash(password) {
        Some(d) => Ok(d),
        None => Err(HashingError::HashFailed),
    }
}

/// Whether `password` matches the stored `hash`; an error where `hash` is malformed.
pub fn verify_password(password: &str, hash: &str) -> (r: Result<bool, HashingError>)
    ensures
        r == verify_outcome(password@, hash@),
{
    match bcrypt_verify(password, hash) {
        Some(b) => Ok(b),
        None => Err(HashingError::MalformedDigest),
    }
}

} // verus!
