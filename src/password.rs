use crate::error::{ApiError, ErrorKind};
use vstd::prelude::*;

verus! {

#[verifier::external_type_specification]
#[verifier::external_body]
pub struct ExBcryptError(bcrypt::BcryptError);

/// What bcrypt's verification answers for a password and a stored digest:
/// `Some(b)` with its verdict, or `None` where the digest is malformed.
pub uninterp spec fn bcrypt_verdict(password: Seq<char>, digest: Seq<char>) -> Option<bool>;

/// The form of a bcrypt digest at the default cost: version `2b`, cost 12,
/// then 22 characters of salt and 31 of hash.
pub open spec fn default_cost_digest(d: Seq<char>) -> bool {
    d.len() == 60 && d.subrange(0, 7) == "$2b$12$"@
}

/// Relies on bcrypt::hash at the default cost: it fails only when the
/// system's randomness fails; its digest, hashed with a fresh salt, is one
/// that bcrypt::verify accepts for the same password, and is written by
/// HashParts::format as `$2b$12$` followed by 22 salt and 31 hash characters.
#[verifier::external_body]
fn bcrypt_hash(password: &str) -> (r: Result<String, bcrypt::BcryptError>)
    ensures
        r is Ok ==> bcrypt_verdict(password@, r->Ok_0@) == Some(true),
        r is Ok ==> default_cost_digest(r->Ok_0@),
{
    bcrypt::hash(password.as_bytes(), bcrypt::DEFAULT_COST)
}

/// Relies on bcrypt::verify: it fails exactly on a malformed digest and
/// otherwise says whether the password matches, with no other input.
#[verifier::external_body]
fn bcrypt_verify(password: &str, digest: &str) -> (r: Result<bool, bcrypt::BcryptError>)
    ensures
        r is Ok <==> bcrypt_verdict(password@, digest@) is Some,
        r is Ok ==> bcrypt_verdict(password@, digest@) == Some(r->Ok_0),
{
    bcrypt::verify(password.as_bytes(), digest)
}

/// A salted one-way digest of `password`. Whatever salt was drawn,
/// `verify_password` accepts the digest for the same password. The digest is
/// self-contained: it names its version, its cost and its salt.
pub fn hash_password(password: &str) -> (r: Result<String, ApiError>)
    ensures
        r is Ok ==> bcrypt_verdict(password@, r->Ok_0@) == Some(true),
        r is Ok ==> default_cost_digest(r->Ok_0@),
        r is Err ==> r->Err_0.is(ErrorKind::Internal, "Failed to hash password"@),
{
    match bcrypt_hash(password) {
        Ok(h) => Ok(h),
        Err(_) => Err(ApiError::new(ErrorKind::Internal, "Failed to hash password")),
    }
}

/// Whether `password` matches the stored `digest`; an `Internal` error only
/// where the digest itself is malformed.
pub fn verify_password(password: &str, digest: &str) -> (r: Result<bool, ApiError>)
    ensures
        match bcrypt_verdict(password@, digest@) {
            Some(b) => r == Ok::<bool, ApiError>(b),
            None => r is Err && r->Err_0.is(ErrorKind::Internal, "Failed to verify password"@),
        },
{
    match bcrypt_verify(password, digest) {
        Ok(b) => Ok(b),
        Err(_) => Err(ApiError::new(ErrorKind::Internal, "Failed to verify password")),
    }
}

} // verus!
