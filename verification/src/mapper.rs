//! Mapping backend secret records into domain values.
//!
//! A backend record is modeled as plain data: an optional object name, the
//! labels it carries, and an optional payload of string fields. A record
//! that lacks a name or a payload, or whose payload omits the `username` or
//! `password` field, or whose fields fail domain validation, is dropped
//! silently: the backend may hold heterogeneous record types under
//! overlapping labels, and only well-formed identity records are kept.

use vstd::prelude::*;

use crate::domain::{PasswordHash, SecretLabel, SecretLabelV, UserSecret, UserSecretV, Username, UserSecrets, password_hash_parse_spec, username_parse_spec};

verus! {

/// Key under which a record's payload stores the user name.
pub const SECRET_FIELD_USERNAME: &'static str = "username";

/// Key under which a record's payload stores the password hash.
pub const SECRET_FIELD_PASSWORD: &'static str = "password";

/// The views of a sequence of string pairs.
pub open spec fn pairs_view(entries: Seq<(String, String)>) -> Seq<(Seq<char>, Seq<char>)> {
    Seq::new(entries.len(), |i: int| (entries[i].0@, entries[i].1@))
}

/// The view of a [`KubeSecret`].
pub struct KubeSecretV {
    pub name: Option<Seq<char>>,
    pub labels: Seq<(Seq<char>, Seq<char>)>,
    pub data: Option<Seq<(Seq<char>, Seq<char>)>>,
}

/// One backend secret record, as plain data: its object name, its labels,
/// and its payload of named string fields, each part possibly absent.
#[derive(Debug)]
pub struct KubeSecret {
    name: Option<String>,
    labels: Vec<(String, String)>,
    data: Option<Vec<(String, String)>>,
}

impl View for KubeSecret {
    type V = KubeSecretV;

    closed spec fn view(&self) -> KubeSecretV {
        KubeSecretV {
            name: match self.name {
                Some(n) => Some(n@),
                None => None,
            },
            labels: pairs_view(self.labels@),
            data: match self.data {
                Some(d) => Some(pairs_view(d@)),
                None => None,
            },
        }
    }
}

impl KubeSecret {
    /// Assembles a record from its parts.
    pub fn new(
        name: Option<String>,
        labels: Vec<(String, String)>,
        data: Option<Vec<(String, String)>>,
    ) -> (r: KubeSecret)
        ensures
            r@ == (KubeSecretV {
                name: match name {
                    Some(n) => Some(n@),
                    None => None,
                },
                labels: pairs_view(labels@),
                data: match data {
                    Some(d) => Some(pairs_view(d@)),
                    None => None,
                },
            }),
    {
        KubeSecret { name, labels, data }
    }
}

/// The value stored under the first occurrence of `key`, if any.
pub open spec fn field_lookup_spec(entries: Seq<(Seq<char>, Seq<char>)>, key: Seq<char>) -> Option<
    Seq<char>,
>
    decreases entries.len(),
{
    if entries.len() == 0 {
        None
    } else if entries.first().0 == key {
        Some(entries.first().1)
    } else {
        field_lookup_spec(entries.drop_first(), key)
    }
}

/// What a record's payload yields: an identity record exactly when both
/// fields are present and both pass domain validation.
pub open spec fn record_content_spec(data: Seq<(Seq<char>, Seq<char>)>) -> Option<UserSecretV> {
    match (
        field_lookup_spec(data, SECRET_FIELD_USERNAME@),
        field_lookup_spec(data, SECRET_FIELD_PASSWORD@),
    ) {
        (Some(u), Some(p)) => match (username_parse_spec(u), password_hash_parse_spec(p)) {
            (Ok(un), Ok(ph)) => Some(UserSecretV { username: un, hash: ph }),
            _ => None,
        },
        _ => None,
    }
}

/// What one whole record yields: nothing when the name or the payload is
/// absent, and otherwise what the payload yields.
pub open spec fn secret_to_record_spec(s: KubeSecretV) -> Option<UserSecretV> {
    match (s.name, s.data) {
        (Some(_), Some(d)) => record_content_spec(d),
        _ => None,
    }
}

/// The views of a sequence of records.
pub open spec fn kube_secrets_view(list: Seq<KubeSecret>) -> Seq<KubeSecretV> {
    Seq::new(list.len(), |i: int| list[i]@)
}

/// What mapping a whole list of records yields: the identity records, in
/// order, with every malformed record dropped.
pub open spec fn secrets_to_domain_spec(list: Seq<KubeSecretV>) -> Seq<UserSecretV>
    decreases list.len(),
{
    if list.len() == 0 {
        Seq::empty()
    } else {
        let rest = secrets_to_domain_spec(list.drop_first());
        match secret_to_record_spec(list.first()) {
            Some(us) => seq![us] + rest,
            None => rest,
        }
    }
}

/// Whether a record carries the selector's key/value pair among its labels.
pub open spec fn label_selected_spec(s: KubeSecretV, label: SecretLabelV) -> bool {
    exists|j: int|
        0 <= j < s.labels.len() && s.labels[j].0 == label.key && s.labels[j].1 == label.value
}

/// First occurrence of `key` in the payload.
fn lookup_field<'a>(entries: &'a Vec<(String, String)>, key: &String) -> (r: Option<&'a String>)
    ensures
        match r {
            Some(v) => field_lookup_spec(pairs_view(entries@), key@) == Some(v@),
            None => field_lookup_spec(pairs_view(entries@), key@) is None,
        },
{
    let n = entries.len();
    let mut i: usize = 0;
    proof {
        assert(pairs_view(entries@).skip(0) =~= pairs_view(entries@));
    }
    while i < n
        invariant
            i <= n,
            n == entries@.len(),
            field_lookup_spec(pairs_view(entries@), key@) == field_lookup_spec(
                pairs_view(entries@).skip(i as int),
                key@,
            ),
        decreases n - i,
    {
        proof {
            assert(pairs_view(entries@).skip(i as int).drop_first() =~= pairs_view(
                entries@,
            ).skip(i + 1));
            assert(pairs_view(entries@).skip(i as int).first() == (
                entries@[i as int].0@,
                entries@[i as int].1@,
            ));
        }
        if entries[i].0 == *key {
            return Some(&entries[i].1);
        }
        i = i + 1;
    }
    None
}

/// The payload of a record that has both a name and a payload; `None` for
/// any other record, which the mapping drops.
fn check_secret_data<'a>(secret: &'a KubeSecret) -> (r: Option<&'a Vec<(String, String)>>)
    ensures
        match r {
            Some(d) => secret@.name is Some && secret@.data == Some(pairs_view(d@)),
            None => secret@.name is None || secret@.data is None,
        },
{
    if secret.name.is_some() {
        match &secret.data {
            Some(d) => Some(d),
            None => None,
        }
    } else {
        None
    }
}

/// The identity record a payload yields, if both fields are present and
/// valid; `None` otherwise, and the mapping drops the record.
fn check_secret_content(data: &Vec<(String, String)>) -> (r: Option<UserSecret>)
    ensures
        match r {
            Some(us) => record_content_spec(pairs_view(data@)) == Some(us@),
            None => record_content_spec(pairs_view(data@)) is None,
        },
{
    let username_key = String::from_str(SECRET_FIELD_USERNAME);
    let password_key = String::from_str(SECRET_FIELD_PASSWORD);
    let raw_username = match lookup_field(data, &username_key) {
        Some(u) => u,
        None => {
            return None;
        },
    };
    let raw_password = match lookup_field(data, &password_key) {
        Some(p) => p,
        None => {
            return None;
        },
    };
    let username = match Username::parse(raw_username.as_str()) {
        Ok(u) => u,
        Err(_) => {
            return None;
        },
    };
    let hash = match PasswordHash::parse(raw_password.as_str()) {
        Ok(h) => h,
        Err(_) => {
            return None;
        },
    };
    Some(UserSecret::new(username, hash))
}

/// The identity record one backend record yields, if any.
pub(crate) fn secret_to_record(secret: &KubeSecret) -> (r: Option<UserSecret>)
    ensures
        match r {
            Some(us) => secret_to_record_spec(secret@) == Some(us@),
            None => secret_to_record_spec(secret@) is None,
        },
{
    match check_secret_data(secret) {
        Some(d) => check_secret_content(d),
        None => None,
    }
}

/// Whether a record carries the selector's key/value pair.
pub(crate) fn label_selected(secret: &KubeSecret, key: &String, value: &String) -> (r: bool)
    ensures
        r == label_selected_spec(
            secret@,
            SecretLabelV { key: key@, value: value@ },
        ),
{
    let n = secret.labels.len();
    let mut i: usize = 0;
    while i < n
        invariant
            i <= n,
            n == secret.labels@.len(),
            secret@.labels == pairs_view(secret.labels@),
            forall|j: int|
                0 <= j < i ==> !(secret@.labels[j].0 == key@ && secret@.labels[j].1 == value@),
        decreases n - i,
    {
        proof {
            assert(secret@.labels[i as int] == (
                secret.labels@[i as int].0@,
                secret.labels@[i as int].1@,
            ));
        }
        if secret.labels[i].0 == *key && secret.labels[i].1 == *value {
            proof {
                assert(secret@.labels[i as int].0 == key@ && secret@.labels[i as int].1
                    == value@);
            }
            return true;
        }
        i = i + 1;
    }
    false
}

/// Maps backend records into domain values, dropping malformed ones.
#[derive(Clone, Copy, Debug)]
pub struct KubernetesMapper {}

impl Default for KubernetesMapper {
    fn default() -> (r: Self)
        ensures
            r == (KubernetesMapper {  }),
    {
        KubernetesMapper {  }
    }
}

impl KubernetesMapper {
    /// A mapper; it carries no state.
    pub fn new() -> KubernetesMapper {
        KubernetesMapper {  }
    }

    /// Maps a list of backend records into the identity records they hold,
    /// in order, dropping every malformed record silently.
    pub fn list_secrets_to_domain(&self, secrets_list: &Vec<KubeSecret>) -> (r: UserSecrets)
        ensures
            r@ == secrets_to_domain_spec(kube_secrets_view(secrets_list@)),
    {
        let ghost all = kube_secrets_view(secrets_list@);
        let mut out = UserSecrets::new(Vec::new());
        let n = secrets_list.len();
        let mut i: usize = 0;
        proof {
            assert(all.skip(0) =~= all);
            assert(out@ =~= Seq::<UserSecretV>::empty());
        }
        while i < n
            invariant
                i <= n,
                n == secrets_list@.len(),
                all == kube_secrets_view(secrets_list@),
                secrets_to_domain_spec(all) == out@ + secrets_to_domain_spec(
                    all.skip(i as int),
                ),
            decreases n - i,
        {
            proof {
                assert(all.skip(i as int).drop_first() =~= all.skip(i + 1));
                assert(all.skip(i as int).first() == secrets_list@[i as int]@);
            }
            match secret_to_record(&secrets_list[i]) {
                Some(us) => {
                    proof {
                        assert(secrets_to_domain_spec(all.skip(i as int)) == seq![us@]
                            + secrets_to_domain_spec(all.skip(i + 1)));
                        assert(out@ + (seq![us@] + secrets_to_domain_spec(all.skip(i + 1)))
                            =~= out@.push(us@) + secrets_to_domain_spec(all.skip(i + 1)));
                    }
                    out.push(us);
                },
                None => {},
            }
            i = i + 1;
        }
        proof {
            assert(all.skip(n as int).len() == 0);
            assert(out@ + secrets_to_domain_spec(all.skip(n as int)) =~= out@);
        }
        out
    }
}

} // verus!
