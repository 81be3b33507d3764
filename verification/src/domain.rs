//! Self-validating domain values: user names, cleartext passwords, stored
//! password hashes, credentials, stored identity records, and the label
//! selector that scopes which backend records count as identity records.
//!
//! Every constructor is fallible and is the only way to obtain an instance,
//! so a value of one of these types is well formed by construction.

use vstd::prelude::*;

use crate::text::{is_space_char, lemma_trimmed_len, lemma_trimmed_all_space, trim_str, trimmed_spec};

verus! {

/// Minimum length, in characters, of a trimmed user name.
pub const MIN_USERNAME_LENGTH: usize = 3;

/// Maximum length, in characters, of a trimmed user name.
pub const MAX_USERNAME_LENGTH: usize = 30;

/// Minimum length, in characters, of a trimmed password.
pub const MIN_PASSWORD_LENGTH: usize = 6;

/// Maximum length, in characters, of a trimmed password.
pub const MAX_PASSWORD_LENGTH: usize = 20;

/// Why a raw text was rejected by a domain constructor.
#[derive(Debug, Clone, Copy, PartialEq, Eq, Structural)]
pub enum ValidationError {
    /// The input was empty, or blank space alone.
    EmptyValue,
    /// The trimmed input has `actual` characters, outside `[min, max]`.
    LengthOutOfRange { min: usize, max: usize, actual: usize },
}

/// What parsing a length-bounded text returns: the trimmed text when its
/// length lies within `[min, max]`, and the exact error otherwise.
pub open spec fn bounded_text_spec(raw: Seq<char>, min: usize, max: usize) -> Result<
    Seq<char>,
    ValidationError,
> {
    let t = trimmed_spec(raw);
    if t.len() == 0 {
        Err(ValidationError::EmptyValue)
    } else if t.len() < min || t.len() > max {
        Err(ValidationError::LengthOutOfRange { min, max, actual: t.len() as usize })
    } else {
        Ok(t)
    }
}

/// What `Username::parse` returns, over the character view of its input.
pub open spec fn username_parse_spec(raw: Seq<char>) -> Result<Seq<char>, ValidationError> {
    bounded_text_spec(raw, MIN_USERNAME_LENGTH, MAX_USERNAME_LENGTH)
}

/// What `Password::parse` returns, over the character view of its input.
pub open spec fn password_parse_spec(raw: Seq<char>) -> Result<Seq<char>, ValidationError> {
    bounded_text_spec(raw, MIN_PASSWORD_LENGTH, MAX_PASSWORD_LENGTH)
}

/// What `PasswordHash::parse` returns: the raw text, kept as given, when it
/// does not trim to nothing.
pub open spec fn password_hash_parse_spec(raw: Seq<char>) -> Result<Seq<char>, ValidationError> {
    if trimmed_spec(raw).len() == 0 {
        Err(ValidationError::EmptyValue)
    } else {
        Ok(raw)
    }
}

/// Shared executable parser for the length-bounded texts.
fn parse_bounded(raw: &str, min: usize, max: usize) -> (r: Result<String, ValidationError>)
    ensures
        match r {
            Ok(t) => bounded_text_spec(raw@, min, max) == Ok::<Seq<char>, ValidationError>(t@),
            Err(e) => bounded_text_spec(raw@, min, max) == Err::<Seq<char>, ValidationError>(e),
        },
{
    let t = trim_str(raw);
    let len = t.as_str().unicode_len();
    if len == 0 {
        Err(ValidationError::EmptyValue)
    } else if len < min || len > max {
        Err(ValidationError::LengthOutOfRange { min, max, actual: len })
    } else {
        Ok(t)
    }
}

/// The name a caller claims; trimmed, between 3 and 30 characters.
#[derive(Debug)]
pub struct Username {
    text: String,
}

impl View for Username {
    type V = Seq<char>;

    closed spec fn view(&self) -> Seq<char> {
        self.text@
    }
}

impl Username {
    /// Well-formedness every constructed value enjoys.
    pub open spec fn wf(self) -> bool {
        MIN_USERNAME_LENGTH <= self@.len() <= MAX_USERNAME_LENGTH
    }

    /// Parses a user name: the trimmed input must be non-empty and within
    /// the length bounds; the trimmed text is what the value holds.
    pub fn parse(raw: &str) -> (r: Result<Username, ValidationError>)
        ensures
            match r {
                Ok(u) => username_parse_spec(raw@) == Ok::<Seq<char>, ValidationError>(u@)
                    && u.wf(),
                Err(e) => username_parse_spec(raw@) == Err::<Seq<char>, ValidationError>(e),
            },
    {
        match parse_bounded(raw, MIN_USERNAME_LENGTH, MAX_USERNAME_LENGTH) {
            Ok(t) => Ok(Username { text: t }),
            Err(e) => Err(e),
        }
    }

    /// The validated (trimmed) text.
    pub fn as_str(&self) -> (r: &str)
        ensures
            r@ == self@,
    {
        self.text.as_str()
    }
}

impl PartialEq for Username {
    fn eq(&self, other: &Username) -> bool {
        self.text == other.text
    }
}

impl vstd::std_specs::cmp::PartialEqSpecImpl for Username {
    open spec fn obeys_eq_spec() -> bool {
        true
    }

    open spec fn eq_spec(&self, other: &Username) -> bool {
        self@ == other@
    }
}

impl Clone for Username {
    fn clone(&self) -> (r: Self)
        ensures
            r@ == self@,
    {
        Username { text: self.text.clone() }
    }
}

/// The cleartext secret a caller presents; trimmed, between 6 and 20
/// characters. Never rendered in clear: see [`Password::masked`].
#[derive(Debug)]
pub struct Password {
    text: String,
}

impl View for Password {
    type V = Seq<char>;

    closed spec fn view(&self) -> Seq<char> {
        self.text@
    }
}

impl Password {
    /// Well-formedness every constructed value enjoys.
    pub open spec fn wf(self) -> bool {
        MIN_PASSWORD_LENGTH <= self@.len() <= MAX_PASSWORD_LENGTH
    }

    /// Parses a cleartext password: the trimmed input must be non-empty and
    /// within the length bounds; the trimmed text is what the value holds.
    pub fn parse(raw: &str) -> (r: Result<Password, ValidationError>)
        ensures
            match r {
                Ok(p) => password_parse_spec(raw@) == Ok::<Seq<char>, ValidationError>(p@)
                    && p.wf(),
                Err(e) => password_parse_spec(raw@) == Err::<Seq<char>, ValidationError>(e),
            },
    {
        match parse_bounded(raw, MIN_PASSWORD_LENGTH, MAX_PASSWORD_LENGTH) {
            Ok(t) => Ok(Password { text: t }),
            Err(e) => Err(e),
        }
    }

    /// The validated (trimmed) text. Callers hand this to the verifier port
    /// alone; it must never reach a log or an error message.
    pub fn as_str(&self) -> (r: &str)
        ensures
            r@ == self@,
    {
        self.text.as_str()
    }

    /// The fixed placeholder under which a password is rendered.
    pub fn masked(&self) -> (r: &'static str)
        ensures
            r@ == "**********"@,
    {
        "**********"
    }
}

impl PartialEq for Password {
    fn eq(&self, other: &Password) -> bool {
        self.text == other.text
    }
}

impl vstd::std_specs::cmp::PartialEqSpecImpl for Password {
    open spec fn obeys_eq_spec() -> bool {
        true
    }

    open spec fn eq_spec(&self, other: &Password) -> bool {
        self@ == other@
    }
}

/// A stored, algorithm-opaque encoded password hash; non-empty. Format
/// correctness is the verifier port's business, not the domain's.
#[derive(Debug)]
pub struct PasswordHash {
    text: String,
}

impl View for PasswordHash {
    type V = Seq<char>;

    closed spec fn view(&self) -> Seq<char> {
        self.text@
    }
}

impl PasswordHash {
    /// Well-formedness every constructed value enjoys.
    pub open spec fn wf(self) -> bool {
        self@.len() > 0
    }

    /// Parses a stored hash: rejected only when the input trims to nothing;
    /// kept exactly as given otherwise.
    pub fn parse(raw: &str) -> (r: Result<PasswordHash, ValidationError>)
        ensures
            match r {
                Ok(h) => password_hash_parse_spec(raw@) == Ok::<Seq<char>, ValidationError>(h@)
                    && h.wf(),
                Err(e) => password_hash_parse_spec(raw@) == Err::<Seq<char>, ValidationError>(e),
            },
    {
        let t = trim_str(raw);
        if t.as_str().is_empty() {
            Err(ValidationError::EmptyValue)
        } else {
            proof {
                lemma_trimmed_len(raw@);
            }
            Ok(PasswordHash { text: String::from_str(raw) })
        }
    }

    /// The encoded hash text, for the verifier port alone; it must never
    /// reach a log or an error message.
    pub fn as_str(&self) -> (r: &str)
        ensures
            r@ == self@,
    {
        self.text.as_str()
    }

    /// The fixed placeholder under which a stored hash is rendered.
    pub fn masked(&self) -> (r: &'static str)
        ensures
            r@ == "**********"@,
    {
        "**********"
    }
}

impl PartialEq for PasswordHash {
    fn eq(&self, other: &PasswordHash) -> bool {
        self.text == other.text
    }
}

impl vstd::std_specs::cmp::PartialEqSpecImpl for PasswordHash {
    open spec fn obeys_eq_spec() -> bool {
        true
    }

    open spec fn eq_spec(&self, other: &PasswordHash) -> bool {
        self@ == other@
    }
}

impl Clone for PasswordHash {
    fn clone(&self) -> (r: Self)
        ensures
            r@ == self@,
    {
        PasswordHash { text: self.text.clone() }
    }
}

/// Access to the secret half of a pair, whatever its concrete type.
pub trait RetrievePassword<T: View> {
    /// The view of the secret this value carries.
    spec fn password_spec(&self) -> T::V;

    /// The secret this value carries.
    fn password(&self) -> (r: &T)
        ensures
            r@ == self.password_spec(),
    ;
}

/// The view of a [`Credential`].
pub struct CredentialV {
    pub username: Seq<char>,
    pub password: Seq<char>,
}

/// What `Credential::new` returns, over the character views of its inputs:
/// the username is parsed first, and the first failure is the error.
pub open spec fn credential_parse_spec(username: Seq<char>, password: Seq<char>) -> Result<
    CredentialV,
    ValidationError,
> {
    match username_parse_spec(username) {
        Err(e) => Err(e),
        Ok(u) => match password_parse_spec(password) {
            Err(e) => Err(e),
            Ok(p) => Ok(CredentialV { username: u, password: p }),
        },
    }
}

/// One validation request: a user name together with the cleartext password
/// claimed for it.
#[derive(Debug)]
pub struct Credential {
    username: Username,
    password: Password,
}

impl View for Credential {
    type V = CredentialV;

    closed spec fn view(&self) -> CredentialV {
        CredentialV { username: self.username@, password: self.password@ }
    }
}

impl Credential {
    /// Parses both halves of a request; the username is validated first and
    /// the first failure is returned.
    pub fn new(username: &str, password: &str) -> (r: Result<Credential, ValidationError>)
        ensures
            match r {
                Ok(c) => credential_parse_spec(username@, password@) == Ok::<
                    CredentialV,
                    ValidationError,
                >(c@),
                Err(e) => credential_parse_spec(username@, password@) == Err::<
                    CredentialV,
                    ValidationError,
                >(e),
            },
    {
        let u = match Username::parse(username) {
            Ok(u) => u,
            Err(e) => {
                return Err(e);
            },
        };
        let p = match Password::parse(password) {
            Ok(p) => p,
            Err(e) => {
                return Err(e);
            },
        };
        Ok(Credential { username: u, password: p })
    }

    /// The validated user name of this request.
    pub fn username(&self) -> (r: &Username)
        ensures
            r@ == self@.username,
    {
        &self.username
    }
}

impl RetrievePassword<Password> for Credential {
    open spec fn password_spec(&self) -> Seq<char> {
        self@.password
    }

    fn password(&self) -> (r: &Password) {
        &self.password
    }
}

/// The view of a [`UserSecret`].
pub struct UserSecretV {
    pub username: Seq<char>,
    pub hash: Seq<char>,
}

/// One stored identity record: a user name and the stored password hash.
#[derive(Debug)]
pub struct UserSecret {
    username: Username,
    password: PasswordHash,
}

impl View for UserSecret {
    type V = UserSecretV;

    closed spec fn view(&self) -> UserSecretV {
        UserSecretV { username: self.username@, hash: self.password@ }
    }
}

impl UserSecret {
    /// Pairs an already validated name with an already validated hash.
    pub fn new(username: Username, password: PasswordHash) -> (r: UserSecret)
        ensures
            r@ == (UserSecretV { username: username@, hash: password@ }),
    {
        UserSecret { username, password }
    }

    /// The name this record is stored under.
    pub fn username(&self) -> (r: &Username)
        ensures
            r@ == self@.username,
    {
        &self.username
    }
}

impl RetrievePassword<PasswordHash> for UserSecret {
    open spec fn password_spec(&self) -> Seq<char> {
        self@.hash
    }

    fn password(&self) -> (r: &PasswordHash) {
        &self.password
    }
}

impl Clone for UserSecret {
    fn clone(&self) -> (r: Self)
        ensures
            r@ == self@,
    {
        UserSecret { username: self.username.clone(), password: self.password.clone() }
    }
}

/// The views of a sequence of stored records, in order.
pub open spec fn secrets_seq_view(items: Seq<UserSecret>) -> Seq<UserSecretV> {
    Seq::new(items.len(), |i: int| items[i]@)
}

/// The result set of one lookup, in the order the backend returned it.
#[derive(Debug)]
pub struct UserSecrets {
    items: Vec<UserSecret>,
}

impl View for UserSecrets {
    type V = Seq<UserSecretV>;

    closed spec fn view(&self) -> Seq<UserSecretV> {
        secrets_seq_view(self.items@)
    }
}

impl UserSecrets {
    /// Wraps a result set.
    pub fn new(items: Vec<UserSecret>) -> (r: UserSecrets)
        ensures
            r@ == secrets_seq_view(items@),
    {
        UserSecrets { items }
    }

    /// How many records the lookup returned.
    pub fn len(&self) -> (r: usize)
        ensures
            r == self@.len(),
    {
        self.items.len()
    }

    /// Whether the lookup returned no record.
    pub fn is_empty(&self) -> (r: bool)
        ensures
            r == (self@.len() == 0),
    {
        self.items.len() == 0
    }

    /// The record at the given position.
    pub fn get(&self, i: usize) -> (r: &UserSecret)
        requires
            i < self@.len(),
        ensures
            r@ == self@[i as int],
    {
        &self.items[i]
    }

    /// Appends a record.
    pub fn push(&mut self, s: UserSecret)
        ensures
            final(self)@ == old(self)@.push(s@),
    {
        self.items.push(s);
        proof {
            assert(final(self)@ =~= old(self)@.push(s@));
        }
    }

    /// Takes the record at the given position out of the set.
    pub fn remove(&mut self, i: usize) -> (r: UserSecret)
        requires
            i < old(self)@.len(),
        ensures
            r@ == old(self)@[i as int],
            final(self)@ == old(self)@.remove(i as int),
    {
        let r = self.items.remove(i);
        proof {
            assert(final(self)@ =~= old(self)@.remove(i as int));
        }
        r
    }
}

/// A non-empty label key.
#[derive(Debug)]
pub struct LabelKey {
    text: String,
}

impl View for LabelKey {
    type V = Seq<char>;

    closed spec fn view(&self) -> Seq<char> {
        self.text@
    }
}

/// What `LabelKey::parse` and `LabelValue::parse` return: the raw text,
/// kept as given, when it does not trim to nothing.
pub open spec fn label_text_parse_spec(raw: Seq<char>) -> Result<Seq<char>, ValidationError> {
    if trimmed_spec(raw).len() == 0 {
        Err(ValidationError::EmptyValue)
    } else {
        Ok(raw)
    }
}

impl LabelKey {
    /// Well-formedness every constructed value enjoys.
    pub open spec fn wf(self) -> bool {
        self@.len() > 0
    }

    /// Parses a label key; rejected only when the input trims to nothing.
    pub fn parse(raw: &str) -> (r: Result<LabelKey, ValidationError>)
        ensures
            match r {
                Ok(k) => label_text_parse_spec(raw@) == Ok::<Seq<char>, ValidationError>(k@)
                    && k.wf(),
                Err(e) => label_text_parse_spec(raw@) == Err::<Seq<char>, ValidationError>(e),
            },
    {
        let t = trim_str(raw);
        if t.as_str().is_empty() {
            Err(ValidationError::EmptyValue)
        } else {
            proof {
                lemma_trimmed_len(raw@);
            }
            Ok(LabelKey { text: String::from_str(raw) })
        }
    }

    /// The key text.
    pub fn as_str(&self) -> (r: &str)
        ensures
            r@ == self@,
    {
        self.text.as_str()
    }
}

/// A non-empty label value.
#[derive(Debug)]
pub struct LabelValue {
    text: String,
}

impl View for LabelValue {
    type V = Seq<char>;

    closed spec fn view(&self) -> Seq<char> {
        self.text@
    }
}

impl LabelValue {
    /// Well-formedness every constructed value enjoys.
    pub open spec fn wf(self) -> bool {
        self@.len() > 0
    }

    /// Parses a label value; rejected only when the input trims to nothing.
    pub fn parse(raw: &str) -> (r: Result<LabelValue, ValidationError>)
        ensures
            match r {
                Ok(v) => label_text_parse_spec(raw@) == Ok::<Seq<char>, ValidationError>(v@)
                    && v.wf(),
                Err(e) => label_text_parse_spec(raw@) == Err::<Seq<char>, ValidationError>(e),
            },
    {
        let t = trim_str(raw);
        if t.as_str().is_empty() {
            Err(ValidationError::EmptyValue)
        } else {
            proof {
                lemma_trimmed_len(raw@);
            }
            Ok(LabelValue { text: String::from_str(raw) })
        }
    }

    /// The value text.
    pub fn as_str(&self) -> (r: &str)
        ensures
            r@ == self@,
    {
        self.text.as_str()
    }
}

/// The view of a [`SecretLabel`].
pub struct SecretLabelV {
    pub key: Seq<char>,
    pub value: Seq<char>,
}

/// What `SecretLabel::new` returns: the key is parsed first, and the first
/// failure is the error.
pub open spec fn secret_label_parse_spec(key: Seq<char>, value: Seq<char>) -> Result<
    SecretLabelV,
    ValidationError,
> {
    match label_text_parse_spec(key) {
        Err(e) => Err(e),
        Ok(k) => match label_text_parse_spec(value) {
            Err(e) => Err(e),
            Ok(v) => Ok(SecretLabelV { key: k, value: v }),
        },
    }
}

/// The key/value selector scoping which backend records this subsystem sees.
#[derive(Debug)]
pub struct SecretLabel {
    key: LabelKey,
    value: LabelValue,
}

impl View for SecretLabel {
    type V = SecretLabelV;

    closed spec fn view(&self) -> SecretLabelV {
        SecretLabelV { key: self.key@, value: self.value@ }
    }
}

impl SecretLabel {
    /// Parses both halves of a selector; the key is validated first and the
    /// first failure is returned.
    pub fn new(key: &str, value: &str) -> (r: Result<SecretLabel, ValidationError>)
        ensures
            match r {
                Ok(l) => secret_label_parse_spec(key@, value@) == Ok::<
                    SecretLabelV,
                    ValidationError,
                >(l@),
                Err(e) => secret_label_parse_spec(key@, value@) == Err::<
                    SecretLabelV,
                    ValidationError,
                >(e),
            },
    {
        let k = match LabelKey::parse(key) {
            Ok(k) => k,
            Err(e) => {
                return Err(e);
            },
        };
        let v = match LabelValue::parse(value) {
            Ok(v) => v,
            Err(e) => {
                return Err(e);
            },
        };
        Ok(SecretLabel { key: k, value: v })
    }

    /// The selector's key.
    pub fn key(&self) -> (r: &LabelKey)
        ensures
            r@ == self@.key,
    {
        &self.key
    }

    /// The selector's value.
    pub fn value(&self) -> (r: &LabelValue)
        ensures
            r@ == self@.value,
    {
        &self.value
    }
}

impl Default for SecretLabel {
    /// The fixed selector under which identity records are stored unless a
    /// caller overrides it.
    fn default() -> (r: Self)
        ensures
            r@.key == "paastel.io/api-user-credentials"@,
            r@.value == "true"@,
    {
        SecretLabel {
            key: LabelKey { text: String::from_str("paastel.io/api-user-credentials") },
            value: LabelValue { text: String::from_str("true") },
        }
    }
}

/// An input that is empty or blank space alone is rejected as
/// `EmptyValue` by every domain parser.
pub proof fn lemma_blank_input_rejected(s: Seq<char>)
    requires
        forall|i: int| 0 <= i < s.len() ==> is_space_char(s[i]),
    ensures
        username_parse_spec(s) == Err::<Seq<char>, ValidationError>(ValidationError::EmptyValue),
        password_parse_spec(s) == Err::<Seq<char>, ValidationError>(ValidationError::EmptyValue),
        password_hash_parse_spec(s) == Err::<Seq<char>, ValidationError>(
            ValidationError::EmptyValue,
        ),
        label_text_parse_spec(s) == Err::<Seq<char>, ValidationError>(ValidationError::EmptyValue),
{
    lemma_trimmed_all_space(s);
}

/// The length of the trimmed input alone decides a bounded parse: out of
/// bounds fails as `LengthOutOfRange` with the exact witness, and within
/// bounds (inclusive) the trimmed text itself is returned.
pub proof fn lemma_bounds_decide_parse(s: Seq<char>)
    ensures
        trimmed_spec(s).len() > 0 && !(MIN_USERNAME_LENGTH <= trimmed_spec(s).len()
            <= MAX_USERNAME_LENGTH) ==> username_parse_spec(s) == Err::<Seq<char>, ValidationError>(
            ValidationError::LengthOutOfRange {
                min: MIN_USERNAME_LENGTH,
                max: MAX_USERNAME_LENGTH,
                actual: trimmed_spec(s).len() as usize,
            },
        ),
        MIN_USERNAME_LENGTH <= trimmed_spec(s).len() <= MAX_USERNAME_LENGTH
            ==> username_parse_spec(s) == Ok::<Seq<char>, ValidationError>(trimmed_spec(s)),
        trimmed_spec(s).len() > 0 && !(MIN_PASSWORD_LENGTH <= trimmed_spec(s).len()
            <= MAX_PASSWORD_LENGTH) ==> password_parse_spec(s) == Err::<Seq<char>, ValidationError>(
            ValidationError::LengthOutOfRange {
                min: MIN_PASSWORD_LENGTH,
                max: MAX_PASSWORD_LENGTH,
                actual: trimmed_spec(s).len() as usize,
            },
        ),
        MIN_PASSWORD_LENGTH <= trimmed_spec(s).len() <= MAX_PASSWORD_LENGTH
            ==> password_parse_spec(s) == Ok::<Seq<char>, ValidationError>(trimmed_spec(s)),
{
}

} // verus!
