//! The concrete password verifier: an adapter over the `argon2` crate.
//!
//! Whether a password matches a PHC-encoded argon2 hash is a function of
//! the two texts alone (the hash string carries the algorithm, version,
//! parameters and salt), so that relation is given a name,
//! [`argon2_matches`], and the two trusted calls are stated over it.

use vstd::prelude::*;

use argon2::Argon2;
use argon2::PasswordHasher;
use argon2::PasswordVerifier;

use crate::domain::{Password, PasswordHash};
use crate::port::{OutgoingArgon2HashPort, PortError};

verus! {

/// Whether `password`, hashed with the algorithm, version, parameters and
/// salt encoded in the PHC string `hash`, matches that hash. False for any
/// malformed hash.
pub uninterp spec fn argon2_matches(password: Seq<char>, hash: Seq<char>) -> bool;

/// Relies on `Argon2::verify_password` for `&str` hashes: it parses the PHC
/// string, recomputes the hash of the password with the parameters and salt
/// the string encodes, and compares in constant time; any failure, a
/// malformed hash included, is a non-match.
#[verifier::external_body]
fn argon2_verify(password: &str, hash: &str) -> (r: bool)
    ensures
        r == argon2_matches(password@, hash@),
{
    Argon2::default().verify_password(password.as_bytes(), hash).is_ok()
}

/// Relies on `Argon2::hash_password`: it draws a fresh random salt, hashes
/// the password with the default parameters, and encodes everything into a
/// PHC string; verifying that string against the same password succeeds.
/// The string itself depends on the drawn salt, so nothing more is stated
/// of it.
#[verifier::external_body]
fn argon2_hash(password: &str) -> (r: Option<String>)
    ensures
        match r {
            Some(h) => argon2_matches(password@, h@),
            None => true,
        },
{
    Argon2::default().hash_password(password.as_bytes()).ok().map(|h| h.to_string())
}

/// Why producing a hash failed.
#[derive(Debug, Clone, Copy, PartialEq, Eq, Structural)]
pub enum HashError {
    /// The hashing function rejected the input or failed internally.
    Hashing,
}

/// The password verifier backed by the argon2 algorithm.
#[derive(Debug, Clone, Copy)]
pub struct Argon2Adapter {}

impl Default for Argon2Adapter {
    fn default() -> (r: Self)
        ensures
            r == (Argon2Adapter {  }),
    {
        Argon2Adapter {  }
    }
}

impl Argon2Adapter {
    /// An adapter; the algorithm parameters are the crate's defaults and
    /// each hash draws its own salt.
    pub fn new() -> Argon2Adapter {
        Argon2Adapter {  }
    }

    /// Hashes a password into a PHC string under a fresh random salt. The
    /// string differs from call to call, but always verifies against the
    /// password it was made from.
    pub fn hash_password(&self, password: &str) -> (r: Result<String, HashError>)
        ensures
            match r {
                Ok(h) => argon2_matches(password@, h@),
                Err(e) => e == HashError::Hashing,
            },
    {
        match argon2_hash(password) {
            Some(h) => Ok(h),
            None => Err(HashError::Hashing),
        }
    }
}

impl OutgoingArgon2HashPort for Argon2Adapter {
    open spec fn check_spec(&self, password: Seq<char>, hash: Seq<char>) -> bool {
        argon2_matches(password, hash)
    }

    fn check(&self, password_text: &Password, password_hash: &PasswordHash) -> (r: Result<
        (),
        PortError,
    >) {
        if argon2_verify(password_text.as_str(), password_hash.as_str()) {
            Ok(())
        } else {
            Err(PortError::Mismatch)
        }
    }
}

/// A verifier with a fixed answer: it accepts every pair or rejects every
/// pair. A test double, standing in where the algorithm itself is beside
/// the point.
#[derive(Debug, Clone, Copy)]
pub struct FixedVerifier {
    accept: bool,
}

impl FixedVerifier {
    /// Whether this verifier accepts.
    pub closed spec fn accept_spec(&self) -> bool {
        self.accept
    }

    /// A verifier that always answers `accept`.
    pub fn new(accept: bool) -> (r: FixedVerifier)
        ensures
            r.accept_spec() == accept,
    {
        FixedVerifier { accept }
    }
}

impl OutgoingArgon2HashPort for FixedVerifier {
    open spec fn check_spec(&self, password: Seq<char>, hash: Seq<char>) -> bool {
        self.accept_spec()
    }

    fn check(&self, password_text: &Password, password_hash: &PasswordHash) -> (r: Result<
        (),
        PortError,
    >) {
        if self.accept {
            Ok(())
        } else {
            Err(PortError::Mismatch)
        }
    }
}

} // verus!
