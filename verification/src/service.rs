//! The credential validation service: one backend read, a first-match scan
//! by user name, and at most one hash verification, with every outcome
//! pinned by [`validate_outcome`].

use vstd::prelude::*;

use crate::domain::{Credential, CredentialV, RetrievePassword, SecretLabel, SecretLabelV, UserSecret, UserSecretV, Username, UserSecrets};
use crate::port::{OutgoingArgon2HashPort, OutgoingKubernetesPort, PortError};

verus! {

/// The classified failure outcomes of one validation call.
#[derive(Debug, Clone, Copy, PartialEq, Eq, Structural)]
pub enum AuthError {
    /// The secret store could not be reached; try again later. Never
    /// conflated with an unknown user.
    BackendUnavailable,
    /// No stored record carries the requested user name.
    UserNotFound,
    /// A record was found, but the password does not match its hash.
    InvalidCredential,
}

/// The outcome of scanning a result set for the credential's user name and
/// verifying against the first match: `UserNotFound` when no record
/// matches, otherwise the first matching record decides, the verifier
/// accepting it or not.
pub open spec fn match_outcome(
    secrets: Seq<UserSecretV>,
    cred: CredentialV,
    check: spec_fn(Seq<char>, Seq<char>) -> bool,
) -> Result<UserSecretV, AuthError>
    decreases secrets.len(),
{
    if secrets.len() == 0 {
        Err(AuthError::UserNotFound)
    } else if secrets.first().username == cred.username {
        if check(cred.password, secrets.first().hash) {
            Ok(secrets.first())
        } else {
            Err(AuthError::InvalidCredential)
        }
    } else {
        match_outcome(secrets.drop_first(), cred, check)
    }
}

/// The outcome of one whole validation call: a failed lookup is
/// `BackendUnavailable`, whatever the verifier would say; a successful
/// lookup hands its records to [`match_outcome`].
pub open spec fn validate_outcome(
    lookup: Result<Seq<UserSecretV>, PortError>,
    cred: CredentialV,
    check: spec_fn(Seq<char>, Seq<char>) -> bool,
) -> Result<UserSecretV, AuthError> {
    match lookup {
        Err(_) => Err(AuthError::BackendUnavailable),
        Ok(secrets) => match_outcome(secrets, cred, check),
    }
}

/// `UserNotFound` exactly when no record in the result set carries the
/// credential's user name.
pub proof fn lemma_match_outcome_no_match(
    secrets: Seq<UserSecretV>,
    cred: CredentialV,
    check: spec_fn(Seq<char>, Seq<char>) -> bool,
)
    requires
        forall|j: int| 0 <= j < secrets.len() ==> secrets[j].username != cred.username,
    ensures
        match_outcome(secrets, cred, check) == Err::<UserSecretV, AuthError>(
            AuthError::UserNotFound,
        ),
    decreases secrets.len(),
{
    if secrets.len() > 0 {
        lemma_match_outcome_no_match(secrets.drop_first(), cred, check);
    }
}

/// The first record carrying the credential's user name decides the
/// outcome: the verifier accepting it gives that record, and rejecting it
/// gives `InvalidCredential`. Records after the first match, whatever they
/// hold, play no part: the tie-break on duplicate names is first-match.
pub proof fn lemma_match_outcome_first(
    secrets: Seq<UserSecretV>,
    cred: CredentialV,
    check: spec_fn(Seq<char>, Seq<char>) -> bool,
    i: int,
)
    requires
        0 <= i < secrets.len(),
        secrets[i].username == cred.username,
        forall|j: int| 0 <= j < i ==> secrets[j].username != cred.username,
    ensures
        match_outcome(secrets, cred, check) == (if check(cred.password, secrets[i].hash) {
            Ok::<UserSecretV, AuthError>(secrets[i])
        } else {
            Err::<UserSecretV, AuthError>(AuthError::InvalidCredential)
        }),
    decreases secrets.len(),
{
    if i > 0 {
        lemma_match_outcome_first(secrets.drop_first(), cred, check, i - 1);
    }
}

/// Position of the first record stored under the given name, if any.
fn find_first_index(secrets: &UserSecrets, name: &Username) -> (r: Option<usize>)
    ensures
        match r {
            Some(i) => i < secrets@.len() && secrets@[i as int].username == name@ && (forall|
                j: int,
            | 0 <= j < i ==> secrets@[j].username != name@),
            None => forall|j: int| 0 <= j < secrets@.len() ==> secrets@[j].username != name@,
        },
{
    let n = secrets.len();
    let mut i: usize = 0;
    while i < n
        invariant
            i <= n,
            n == secrets@.len(),
            forall|j: int| 0 <= j < i ==> secrets@[j].username != name@,
        decreases n - i,
    {
        if secrets.get(i).username() == name {
            return Some(i);
        }
        i = i + 1;
    }
    None
}

/// The use case service: holds the two ports and the label selector it was
/// configured with, and owns no other state.
pub struct AuthService<K: OutgoingKubernetesPort, P: OutgoingArgon2HashPort> {
    kubernetes_port: K,
    password_port: P,
    label: SecretLabel,
}

impl<K: OutgoingKubernetesPort, P: OutgoingArgon2HashPort> AuthService<K, P> {
    /// The selector this service reads identity records under.
    pub closed spec fn label_spec(&self) -> SecretLabelV {
        self.label@
    }

    /// What this service's one backend read returns.
    pub closed spec fn lookup_spec(&self) -> Result<Seq<UserSecretV>, PortError> {
        self.kubernetes_port.find_spec(self.label@)
    }

    /// What this service's verifier says, as a function of password and hash.
    pub closed spec fn check_fn(&self) -> spec_fn(Seq<char>, Seq<char>) -> bool {
        |p: Seq<char>, h: Seq<char>| self.password_port.check_spec(p, h)
    }

    /// Builds a service from its two collaborators and the label selector
    /// that scopes its lookups.
    pub fn new(kubernetes_port: K, password_port: P, label: SecretLabel) -> (r: AuthService<K, P>)
        ensures
            r.label_spec() == label@,
            r.lookup_spec() == kubernetes_port.find_spec(label@),
            forall|p: Seq<char>, h: Seq<char>| #[trigger]
                r.check_fn()(p, h) == password_port.check_spec(p, h),
    {
        AuthService { kubernetes_port, password_port, label }
    }

    /// Validates one credential: reads the store once, takes the first
    /// record whose user name equals the credential's, and verifies the
    /// password against that record's hash. The result is exactly
    /// [`validate_outcome`] of the lookup, the credential, and the
    /// verifier.
    pub fn validate_credential(&self, credential: &Credential) -> (r: Result<UserSecret, AuthError>)
        ensures
            match r {
                Ok(us) => validate_outcome(self.lookup_spec(), credential@, self.check_fn()) == Ok::<
                    UserSecretV,
                    AuthError,
                >(us@),
                Err(e) => validate_outcome(self.lookup_spec(), credential@, self.check_fn())
                    == Err::<UserSecretV, AuthError>(e),
            },
    {
        let mut secrets = match self.kubernetes_port.find_secrets_by_label(&self.label) {
            Ok(s) => s,
            Err(_) => {
                return Err(AuthError::BackendUnavailable);
            },
        };
        match find_first_index(&secrets, credential.username()) {
            None => {
                proof {
                    lemma_match_outcome_no_match(secrets@, credential@, self.check_fn());
                }
                Err(AuthError::UserNotFound)
            },
            Some(i) => {
                proof {
                    lemma_match_outcome_first(secrets@, credential@, self.check_fn(), i as int);
                }
                let us = secrets.remove(i);
                match self.password_port.check(credential.password(), us.password()) {
                    Ok(_) => Ok(us),
                    Err(_) => Err(AuthError::InvalidCredential),
                }
            },
        }
    }
}

/// When the store is unavailable the call fails as `BackendUnavailable`,
/// whatever the verifier would say of any password: the verifier plays no
/// part in the outcome.
pub proof fn lemma_unavailable_skips_verifier(
    cred: CredentialV,
    e: PortError,
    check1: spec_fn(Seq<char>, Seq<char>) -> bool,
    check2: spec_fn(Seq<char>, Seq<char>) -> bool,
)
    ensures
        validate_outcome(Err(e), cred, check1) == Err::<UserSecretV, AuthError>(
            AuthError::BackendUnavailable,
        ),
        validate_outcome(Err(e), cred, check1) == validate_outcome(Err(e), cred, check2),
{
}

/// Two calls with identical inputs against an unchanged store and verifier
/// yield identical outcomes: the outcome is a function of the lookup, the
/// credential, and the verifier alone, with no hidden state.
pub proof fn lemma_validate_idempotent(
    lookup: Result<Seq<UserSecretV>, PortError>,
    cred: CredentialV,
    check: spec_fn(Seq<char>, Seq<char>) -> bool,
    r1: Result<UserSecretV, AuthError>,
    r2: Result<UserSecretV, AuthError>,
)
    requires
        r1 == validate_outcome(lookup, cred, check),
        r2 == validate_outcome(lookup, cred, check),
    ensures
        r1 == r2,
{
}

} // verus!
