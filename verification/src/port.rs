//! The two port boundaries of the validation core: the secret store that
//! finds identity records by label, and the password verifier that checks a
//! cleartext password against a stored hash.
//!
//! Each port pairs its executable operation with a specification method, so
//! that an implementation's observable behaviour is a function of its own
//! state: what the operation returns is exactly what the specification
//! method says for the same receiver.

use vstd::prelude::*;

use crate::domain::{Password, PasswordHash, SecretLabel, SecretLabelV, UserSecretV, UserSecrets};

verus! {

/// Why a port operation failed.
#[derive(Debug, Clone, Copy, PartialEq, Eq, Structural)]
pub enum PortError {
    /// The backend could not be reached or timed out. Never conflated with
    /// "no secrets found".
    Unavailable,
    /// The password does not match the stored hash, or the stored hash is
    /// malformed; the two cases are deliberately not distinguished.
    Mismatch,
}

/// Outgoing port to the secret store: find all stored identity records
/// matching a label selector.
pub trait OutgoingKubernetesPort {
    /// What a lookup against this store returns for the given selector.
    spec fn find_spec(&self, label: SecretLabelV) -> Result<Seq<UserSecretV>, PortError>;

    /// Returns every record visible under `label`, mapped into domain
    /// values, or `Unavailable` when the backend cannot be reached.
    fn find_secrets_by_label(&self, label: &SecretLabel) -> (r: Result<UserSecrets, PortError>)
        ensures
            match r {
                Ok(s) => self.find_spec(label@) == Ok::<Seq<UserSecretV>, PortError>(s@),
                Err(e) => self.find_spec(label@) == Err::<Seq<UserSecretV>, PortError>(e),
            },
    ;
}

/// Outgoing port to the password verifier: does this cleartext password,
/// hashed with the algorithm and parameters encoded in the stored hash,
/// match that hash?
pub trait OutgoingArgon2HashPort {
    /// Whether this verifier accepts the password for the hash.
    spec fn check_spec(&self, password: Seq<char>, hash: Seq<char>) -> bool;

    /// Succeeds exactly when the password matches the stored hash; any
    /// failure, a malformed hash included, is `Mismatch`.
    fn check(&self, password_text: &Password, password_hash: &PasswordHash) -> (r: Result<
        (),
        PortError,
    >)
        ensures
            r is Ok <==> self.check_spec(password_text@, password_hash@),
            r is Err ==> r == Err::<(), PortError>(PortError::Mismatch),
    ;
}

} // verus!
