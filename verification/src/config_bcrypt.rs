//! Password hashing: a salted, cost-parameterized one-way hash and its
//! verification, backed by the bcrypt crate.
//!
//! The digest of a password embeds a random salt, so the digest itself is
//! not a function of the password; what is deterministic is the outcome of
//! verifying a given password against a given digest. That outcome carries
//! the name `bcrypt_verify_outcome`, and every contract here speaks
//! through it.

use vstd::prelude::*;

verus! {

/// The outcome of bcrypt verification of `password` against `digest`:
/// `Some(true)` when the password re-hashes to the digest under the
/// digest's embedded cost and salt, `Some(false)` when it does not, and
/// `None` when the digest is malformed. A pure function of the two
/// arguments: bcrypt's verification re-computes the hash from the parts
/// embedded in the digest, with no randomness, clock or environment.
pub uninterp spec fn bcrypt_verify_outcome(password: Seq<char>, digest: Seq<char>) -> Option<bool>;

/// `password` matches `digest`: verification affirmatively succeeds.
/// A malformed digest matches nothing (fail closed).
pub open spec fn bcrypt_matches(password: Seq<char>, digest: Seq<char>) -> bool {
    bcrypt_verify_outcome(password, digest) == Some(true)
}

/// Relies on bcrypt::hash (bcrypt 0.19): it hashes the password under a
/// fresh random salt and the given cost, and formats a digest that
/// bcrypt::verify affirms for the same password, since verify re-computes
/// the hash from the cost and salt it parses back out of the digest.
/// It fails when the cost lies outside bcrypt's accepted range or when
/// the operating system's randomness source fails; the failure is mapped
/// to `None`.
#[verifier::external_body]
pub fn encrypt_password(password: &str, cost: u32) -> (r: Option<String>)
    ensures
        r matches Some(digest) ==> bcrypt_matches(password@, digest@),
{
    bcrypt::hash(password, cost).ok()
}

/// Relies on bcrypt::verify (bcrypt 0.19): it parses the digest, re-hashes
/// the password under the parsed cost and salt, and compares; it returns
/// an error only for a digest it cannot parse. Deterministic in its two
/// arguments, as `bcrypt_verify_outcome` requires.
#[verifier::external_body]
fn bcrypt_check(password: &str, digest: &str) -> (r: Option<bool>)
    ensures
        r == bcrypt_verify_outcome(password@, digest@),
{
    bcrypt::verify(password, digest).ok()
}

/// Hashing a password yields a digest that verification of the same
/// password affirms: what `encrypt_password` promises of a digest it
/// returns is exactly the outcome `verify_password` reports, so
/// verifying a password against its own fresh digest returns true.
pub proof fn lemma_hash_verify_round_trip(password: Seq<char>, digest: Seq<char>)
    requires
        bcrypt_matches(password, digest),
    ensures
        bcrypt_verify_outcome(password, digest) == Some(true),
{
}

/// True iff the plaintext re-hashes to match the digest under the digest's
/// embedded parameters. Total: a wrong password returns `false`, and a
/// malformed or corrupt digest is treated as a verification failure, not
/// an error.
pub fn verify_password(password: &str, encrypted_password: &str) -> (r: bool)
    ensures
        r == bcrypt_matches(password@, encrypted_password@),
{
    match bcrypt_check(password, encrypted_password) {
        Some(outcome) => outcome,
        None => false,
    }
}

} // verus!
