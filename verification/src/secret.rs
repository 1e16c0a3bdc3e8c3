//! One-way hashing and verification of secrets.
//!
//! The hashing itself is bcrypt's. This file holds the two calls into it, whose
//! contracts are taken on trust, and the verified functions that turn what they
//! return into values of this crate.

use vstd::prelude::*;

verus! {

/// The error type of the bcrypt crate. Nothing is known of its contents.
#[verifier::external_type_specification]
#[verifier::external_body]
pub struct ExBcryptError(bcrypt::BcryptError);

/// Work factor with which new secrets are hashed.
pub const HASH_COST: u32 = 12;

/// What `bcrypt::verify` returns for a secret and a stored hash: `Some(true)`
/// where the secret matches the hash, `Some(false)` where it does not, `None`
/// where the call fails, as it does on a hash that is not well formed.
pub uninterp spec fn bcrypt_verdict(secret: Seq<char>, hash: Seq<char>) -> Option<bool>;

/// Calls `bcrypt::verify`. Trusted: the result depends on the secret and the hash
/// alone, so it is `bcrypt_verdict` of the two, with an error standing for `None`.
#[verifier::external_body]
fn bcrypt_verify(secret: &str, hash: &str) -> (r: Result<bool, bcrypt::BcryptError>)
    ensures
        r matches Ok(b) ==> bcrypt_verdict(secret@, hash@) == Some(b),
        r is Err ==> bcrypt_verdict(secret@, hash@) == None::<bool>,
{
    bcrypt::verify(secret, hash)
}

/// Calls `bcrypt::hash`, which salts the hash with random bytes. Trusted: whatever
/// hash comes back, `bcrypt::verify` accepts the same secret against it. Nothing
/// is claimed of when the call fails.
#[verifier::external_body]
fn bcrypt_hash(secret: &str, cost: u32) -> (r: Result<String, bcrypt::BcryptError>)
    ensures
        r matches Ok(h) ==> bcrypt_verdict(secret@, h@) == Some(true),
{
    bcrypt::hash(secret, cost)
}

/// The result of holding a secret against a stored hash.
#[derive(Clone, Copy, Debug, PartialEq, Eq, Structural)]
pub enum Verdict {
    /// The secret is the one that was hashed.
    Match,
    /// The secret is another one.
    Mismatch,
    /// The verification itself failed.
    Malformed,
}

impl Verdict {
    /// The verdict that an outcome of the verification stands for.
    pub open spec fn of(outcome: Option<bool>) -> Verdict {
        match outcome {
            Some(true) => Verdict::Match,
            Some(false) => Verdict::Mismatch,
            None => Verdict::Malformed,
        }
    }

    /// Reads a verdict from an outcome of the verification, `None` for a failure.
    pub fn from_outcome(outcome: Option<bool>) -> (v: Verdict)
        ensures
            v == Verdict::of(outcome),
    {
        match outcome {
            Some(true) => Verdict::Match,
            Some(false) => Verdict::Mismatch,
            None => Verdict::Malformed,
        }
    }
}

/// Holds `secret` against the stored `hash`.
pub fn verify_secret(secret: &str, hash: &str) -> (v: Verdict)
    ensures
        v == Verdict::of(bcrypt_verdict(secret@, hash@)),
{
    match bcrypt_verify(secret, hash) {
        Ok(matches) => Verdict::from_outcome(Some(matches)),
        Err(_) => Verdict::from_outcome(None),
    }
}

/// Hashes `secret` for storage, with a fresh salt. `None` where the hashing
/// failed. A hash that is returned verifies against `secret`.
pub fn hash_secret(secret: &str) -> (hash: Option<String>)
    ensures
        hash matches Some(h) ==> Verdict::of(bcrypt_verdict(secret@, h@)) == Verdict::Match,
{
    let outcome = bcrypt_hash(secret, HASH_COST);
    hash_from(outcome)
}

/// Reads what the hashing returned: the hash, or `None` for any failure.
pub fn hash_from(outcome: Result<String, bcrypt::BcryptError>) -> (hash: Option<String>)
    ensures
        hash == match outcome {
            Ok(h) => Some(h),
            Err(_) => None::<String>,
        },
{
    match outcome {
        Ok(h) => Some(h),
        Err(_) => None,
    }
}

} // verus!
