//! Salted, memory-hard password hashing and its verification.
//!
//! Hashes are Argon2id strings in the PHC format, which carry the
//! parameters and the salt they were made with. The derivation itself is
//! the `argon2` crate's; this module decides what is handed to it and what
//! its answers mean.

use argon2::password_hash::rand_core::{OsRng, RngCore};
use argon2::password_hash::{PasswordHash, PasswordHasher, PasswordVerifier, SaltString};
use argon2::Argon2;
use vstd::prelude::*;

use crate::text::opt_text;

verus! {

/// The number of random bytes in a fresh salt.
pub const SALT_BYTES: usize = 16;

/// The least number of bytes of a salt that Argon2 takes.
pub const MIN_SALT_BYTES: usize = 8;

/// Why no hash could be made.
#[derive(Clone, Copy, Debug, PartialEq, Eq, Structural)]
pub enum HashingFailure {
    /// The system's random source gave no salt.
    NoEntropy,
    /// The salt is too short, or the hasher refused the password or the
    /// salt.
    Rejected,
}

/// The PHC string that Argon2id with its default parameters derives from a
/// password and a salt, or `None` where the hasher refuses them.
pub uninterp spec fn argon2_phc(plain: Seq<char>, salt: Seq<u8>) -> Option<Seq<char>>;

/// What checking a password against a PHC string gives: `None` where the
/// string does not parse, else whether Argon2, run with the parameters and
/// the salt that the string carries, arrives at the digest it carries.
pub uninterp spec fn phc_verdict(plain: Seq<char>, hash: Seq<char>) -> Option<bool>;

/// Whether `hash` is a well-formed hash that `plain` matches.
pub open spec fn password_accepted(plain: Seq<char>, hash: Seq<char>) -> bool {
    phc_verdict(plain, hash) == Some(true)
}

/// What hashing `plain` gives for each answer of the random source.
pub open spec fn hash_outcome(plain: Seq<char>, salt: Option<Seq<u8>>) -> Result<
    Seq<char>,
    HashingFailure,
> {
    match salt {
        None => Err(HashingFailure::NoEntropy),
        Some(bytes) => if bytes.len() < MIN_SALT_BYTES {
            Err(HashingFailure::Rejected)
        } else {
            match argon2_phc(plain, bytes) {
                Some(hash) => Ok(hash),
                None => Err(HashingFailure::Rejected),
            }
        },
    }
}

/// The text of a hashing result.
pub open spec fn hashed_text(r: Result<String, HashingFailure>) -> Result<
    Seq<char>,
    HashingFailure,
> {
    match r {
        Ok(hash) => Ok(hash@),
        Err(e) => Err(e),
    }
}

/// Asks the operating system's random source (`OsRng`, through
/// `RngCore::try_fill_bytes`) for `SALT_BYTES` bytes. Trusted: only the
/// length of what comes back; `None` when the source fails.
#[verifier::external_body]
fn random_salt() -> (salt: Option<Vec<u8>>)
    ensures
        salt matches Some(bytes) ==> bytes@.len() == SALT_BYTES,
{
    let mut bytes = vec![0u8; SALT_BYTES];
    match OsRng.try_fill_bytes(&mut bytes) {
        Ok(()) => Some(bytes),
        Err(_) => None,
    }
}

/// Hashes a password with `Argon2::default().hash_password`, the salt
/// given to it in B64 (`SaltString::encode_b64`), and writes the result as
/// a PHC string. Trusted: the string depends on the password and the salt
/// alone, and checking the same password against it succeeds, since the
/// check repeats the derivation with the parameters and salt that the
/// string records. Salts below Argon2's minimum are kept out: the hasher
/// refuses them, and the shortest of them have a B64 form with which the
/// conversion to its salt type panics.
#[verifier::external_body]
fn argon2_hash(plain: &str, salt: &[u8]) -> (hash: Option<String>)
    requires
        salt@.len() >= MIN_SALT_BYTES,
    ensures
        opt_text(hash) == argon2_phc(plain@, salt@),
        hash matches Some(h) ==> phc_verdict(plain@, h@) == Some(true),
{
    let salt = SaltString::encode_b64(salt).ok()?;
    let hash = Argon2::default().hash_password(plain.as_bytes(), &salt).ok()?;
    Some(hash.to_string())
}

/// Parses a PHC string with `PasswordHash::new` and checks a password
/// against it with `Argon2::default().verify_password`, which compares the
/// digests in constant time. Trusted: the answer depends on the two texts
/// alone. The derivation takes the memory and the passes that the string
/// asks for.
#[verifier::external_body]
fn argon2_verdict(plain: &str, hash: &str) -> (verdict: Option<bool>)
    ensures
        verdict == phc_verdict(plain@, hash@),
{
    let parsed = PasswordHash::new(hash).ok()?;
    Some(Argon2::default().verify_password(plain.as_bytes(), &parsed).is_ok())
}

/// Hashes `plain` with the given salt, which must have `MIN_SALT_BYTES`
/// bytes or more to be taken.
pub fn hash_password_with_salt(plain: &str, salt: &[u8]) -> (r: Result<String, HashingFailure>)
    ensures
        hashed_text(r) == hash_outcome(plain@, Some(salt@)),
        r matches Ok(hash) ==> password_accepted(plain@, hash@),
{
    if salt.len() < MIN_SALT_BYTES {
        return Err(HashingFailure::Rejected);
    }
    match argon2_hash(plain, salt) {
        Some(hash) => Ok(hash),
        None => Err(HashingFailure::Rejected),
    }
}

/// Hashes `plain` with a fresh random salt. Whatever the random source
/// answers, a hash that comes back is one that `plain` matches.
pub fn hash_password(plain: &str) -> (r: Result<String, HashingFailure>)
    ensures
        exists|salt: Option<Seq<u8>>|
            {
                &&& salt matches Some(bytes) ==> bytes.len() == SALT_BYTES
                &&& hashed_text(r) == #[trigger] hash_outcome(plain@, salt)
            },
        r matches Ok(hash) ==> password_accepted(plain@, hash@),
{
    match random_salt() {
        None => {
            assert(hashed_text(Err(HashingFailure::NoEntropy)) == hash_outcome(plain@, None));
            Err(HashingFailure::NoEntropy)
        },
        Some(salt) => hash_password_with_salt(plain, salt.as_slice()),
    }
}

/// Whether `hash` is a well-formed hash that `plain` matches. A text that
/// is no hash at all gives `false`, as a mismatch does.
pub fn verify_password(plain: &str, hash: &str) -> (ok: bool)
    ensures
        ok == password_accepted(plain@, hash@),
{
    match argon2_verdict(plain, hash) {
        Some(matches) => matches,
        None => false,
    }
}

} // verus!
