//! An in-memory secret store: the backend records it holds are plain data,
//! a lookup filters them by the label selector and maps them into domain
//! values, and an availability switch stands for a backend that cannot be
//! reached. It serves as the verified reference implementation of the store
//! port and as the test double the scenarios run against.

use vstd::prelude::*;

use crate::domain::{SecretLabel, SecretLabelV, UserSecretV, UserSecrets};
use crate::mapper::{KubeSecret, KubeSecretV, kube_secrets_view, label_selected, label_selected_spec, secret_to_record, secret_to_record_spec, secrets_to_domain_spec};
use crate::port::{OutgoingKubernetesPort, PortError};

verus! {

/// The records of `list` that carry the selector's key/value pair, in order.
pub open spec fn selected_records_spec(list: Seq<KubeSecretV>, label: SecretLabelV) -> Seq<
    KubeSecretV,
>
    decreases list.len(),
{
    if list.len() == 0 {
        Seq::empty()
    } else {
        let rest = selected_records_spec(list.drop_first(), label);
        if label_selected_spec(list.first(), label) {
            seq![list.first()] + rest
        } else {
            rest
        }
    }
}

/// A label-addressed store of backend records held in memory, with a
/// switch that makes it report the backend as unreachable.
pub struct InMemorySecretStore {
    records: Vec<KubeSecret>,
    available: bool,
}

impl InMemorySecretStore {
    /// The records this store holds.
    pub closed spec fn records_spec(&self) -> Seq<KubeSecretV> {
        kube_secrets_view(self.records@)
    }

    /// Whether lookups reach the store at all.
    pub closed spec fn available_spec(&self) -> bool {
        self.available
    }

    /// A store holding the given records; when `available` is false every
    /// lookup fails as `Unavailable`.
    pub fn new(records: Vec<KubeSecret>, available: bool) -> (r: InMemorySecretStore)
        ensures
            r.records_spec() == kube_secrets_view(records@),
            r.available_spec() == available,
    {
        InMemorySecretStore { records, available }
    }
}

impl OutgoingKubernetesPort for InMemorySecretStore {
    open spec fn find_spec(&self, label: SecretLabelV) -> Result<Seq<UserSecretV>, PortError> {
        if self.available_spec() {
            Ok(secrets_to_domain_spec(selected_records_spec(self.records_spec(), label)))
        } else {
            Err(PortError::Unavailable)
        }
    }

    fn find_secrets_by_label(&self, label: &SecretLabel) -> (r: Result<UserSecrets, PortError>) {
        if !self.available {
            return Err(PortError::Unavailable);
        }
        let key = String::from_str(label.key().as_str());
        let value = String::from_str(label.value().as_str());
        let ghost all = kube_secrets_view(self.records@);
        let ghost lbl = label@;
        let mut out = UserSecrets::new(Vec::new());
        let n = self.records.len();
        let mut i: usize = 0;
        proof {
            assert(all.skip(0) =~= all);
            assert(out@ =~= Seq::<UserSecretV>::empty());
        }
        while i < n
            invariant
                i <= n,
                n == self.records@.len(),
                all == kube_secrets_view(self.records@),
                lbl == label@,
                key@ == lbl.key,
                value@ == lbl.value,
                secrets_to_domain_spec(selected_records_spec(all, lbl)) == out@
                    + secrets_to_domain_spec(selected_records_spec(all.skip(i as int), lbl)),
            decreases n - i,
        {
            proof {
                assert(all.skip(i as int).drop_first() =~= all.skip(i + 1));
                assert(all.skip(i as int).first() == self.records@[i as int]@);
            }
            let ghost tail_sel = selected_records_spec(all.skip(i + 1), lbl);
            if label_selected(&self.records[i], &key, &value) {
                proof {
                    assert(selected_records_spec(all.skip(i as int), lbl) == seq![
                        self.records@[i as int]@,
                    ] + tail_sel);
                    assert((seq![self.records@[i as int]@] + tail_sel).first()
                        == self.records@[i as int]@);
                    assert((seq![self.records@[i as int]@] + tail_sel).drop_first() =~= tail_sel);
                }
                match secret_to_record(&self.records[i]) {
                    Some(us) => {
                        proof {
                            assert(secrets_to_domain_spec(
                                selected_records_spec(all.skip(i as int), lbl),
                            ) == seq![us@] + secrets_to_domain_spec(tail_sel));
                            assert(out@ + (seq![us@] + secrets_to_domain_spec(tail_sel))
                                =~= out@.push(us@) + secrets_to_domain_spec(tail_sel));
                        }
                        out.push(us);
                    },
                    None => {},
                }
            }
            i = i + 1;
        }
        proof {
            assert(all.skip(n as int).len() == 0);
            assert(out@ + secrets_to_domain_spec(
                selected_records_spec(all.skip(n as int), lbl),
            ) =~= out@);
        }
        Ok(out)
    }
}

} // verus!
