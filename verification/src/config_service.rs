//! The configuration subscription engine: tracks every subscribed key with
//! its last-known content digest and listener set, gathers the batched
//! listen exchange, and decides which listeners to invoke when the server
//! reports a change.
//!
//! Listener callbacks themselves run outside the engine; they are tracked
//! here as opaque listener handles, and each decision function returns the
//! handles to invoke so that dispatch never blocks the poll loop.

use vstd::prelude::*;

use crate::config_key::{ConfigKey, ConfigKeyV};
use crate::conn_msg::ConfigResponse;
use crate::digest::{content_digest, digest_of};
use crate::errors::ClientError;

verus! {

/// One subscribed configuration key: the digest of the content last seen
/// for it and the listeners registered for it.
pub struct ConfigSubscription {
    pub key: ConfigKey,
    pub digest: String,
    pub listeners: Vec<u64>,
}

/// The mathematical value of a [`ConfigSubscription`].
#[verifier::ext_equal]
pub ghost struct ConfigSubV {
    pub key: ConfigKeyV,
    pub digest: Seq<char>,
    pub listeners: Seq<u64>,
}

impl View for ConfigSubscription {
    type V = ConfigSubV;

    open spec fn view(&self) -> ConfigSubV {
        ConfigSubV { key: self.key@, digest: self.digest@, listeners: self.listeners@ }
    }
}

/// Whether some entry of the table holds the given key.
pub open spec fn has_key(s: Seq<ConfigSubV>, k: ConfigKeyV) -> bool {
    exists|i: int| 0 <= i < s.len() && s[i].key == k
}

/// The index of the entry holding the given key. Meaningful under
/// [`unique_keys`], where it is the one such index.
pub open spec fn index_of_key(s: Seq<ConfigSubV>, k: ConfigKeyV) -> int {
    choose|i: int| 0 <= i < s.len() && s[i].key == k
}

/// At most one entry per key: the table is a mapping.
pub open spec fn unique_keys(s: Seq<ConfigSubV>) -> bool {
    forall|i: int, j: int| 0 <= i < j < s.len() ==> s[i].key != s[j].key
}

/// The table after the entry for the given key is dropped; the table
/// itself when no entry holds the key.
pub open spec fn remove_key(s: Seq<ConfigSubV>, k: ConfigKeyV) -> Seq<ConfigSubV> {
    if has_key(s, k) {
        s.remove(index_of_key(s, k))
    } else {
        s
    }
}

/// Unsubscribing a key a second time is a no-op: once the entry is gone
/// the table no longer holds the key, so the removal leaves it as it is.
pub proof fn lemma_unsubscribe_idempotent(s: Seq<ConfigSubV>, k: ConfigKeyV)
    requires
        unique_keys(s),
    ensures
        remove_key(remove_key(s, k), k) == remove_key(s, k),
{
    if has_key(s, k) {
        let i = index_of_key(s, k);
        let r = s.remove(i);
        assert forall|j: int| 0 <= j < r.len() implies r[j].key != k by {
            if j < i {
                assert(r[j] == s[j]);
            } else {
                assert(r[j] == s[j + 1]);
            }
        }
        assert(!has_key(r, k));
    }
}

/// The configuration service state: the tenant every generated key carries
/// and the subscription table.
pub struct ConfigService {
    pub tenant: String,
    pub entries: Vec<ConfigSubscription>,
}

impl ConfigService {
    /// The subscription table as a sequence of entry values.
    pub open spec fn subs(&self) -> Seq<ConfigSubV> {
        self.entries@.map_values(|e: ConfigSubscription| e@)
    }

    /// Well-formedness: a key maps to at most one subscription.
    pub open spec fn wf(&self) -> bool {
        unique_keys(self.subs())
    }

    /// A service for the given tenant, with no subscriptions.
    pub fn new(tenant: String) -> (r: ConfigService)
        ensures
            r.wf(),
            r.subs() == Seq::<ConfigSubV>::empty(),
            r.tenant@ == tenant@,
    {
        let r = ConfigService { tenant, entries: Vec::new() };
        proof {
            assert(r.subs() =~= Seq::<ConfigSubV>::empty());
        }
        r
    }

    /// A key for this tenant's entry under the given id and group.
    pub fn gene_config_key(&self, data_id: &str, group: &str) -> (r: ConfigKey)
        ensures
            r@.data_id == data_id@,
            r@.group == group@,
            r@.tenant == self.tenant@,
    {
        ConfigKey {
            data_id: data_id.to_string(),
            group: group.to_string(),
            tenant: self.tenant.clone(),
        }
    }

    /// The index of the subscription for the key, if one exists.
    fn find_sub(&self, key: &ConfigKey) -> (r: Option<usize>)
        ensures
            match r {
                Some(i) => 0 <= i < self.subs().len() && self.subs()[i as int].key == key@,
                None => !has_key(self.subs(), key@),
            },
    {
        let mut i: usize = 0;
        while i < self.entries.len()
            invariant
                i <= self.subs().len(),
                forall|j: int| 0 <= j < i ==> self.subs()[j].key != key@,
            decreases self.subs().len() - i,
        {
            if self.entries[i].key.key_eq(key) {
                return Some(i);
            }
            i = i + 1;
        }
        None
    }

    /// Register a listener under a key. The first subscription for a key
    /// creates its entry; when the seeding fetch supplied content, the
    /// stored digest is the digest of that content, and an entry created
    /// without content starts with the empty digest so the next poll cycle
    /// reports the entry as changed.
    pub fn subscribe_with_key(
        &mut self,
        key: ConfigKey,
        listener_id: u64,
        initial_content: Option<&String>,
    )
        requires
            old(self).wf(),
        ensures
            final(self).wf(),
            final(self).tenant == old(self).tenant,
            !has_key(old(self).subs(), key@) ==> final(self).subs() == old(self).subs().push(
                ConfigSubV {
                    key: key@,
                    digest: (match initial_content {
                        Some(c) => digest_of(c@),
                        None => Seq::<char>::empty(),
                    }),
                    listeners: seq![listener_id],
                },
            ),
            has_key(old(self).subs(), key@) ==> ({
                let i = index_of_key(old(self).subs(), key@);
                final(self).subs() == old(self).subs().update(
                    i,
                    ConfigSubV {
                        key: key@,
                        digest: (match initial_content {
                            Some(c) => digest_of(c@),
                            None => old(self).subs()[i].digest,
                        }),
                        listeners: old(self).subs()[i].listeners.push(listener_id),
                    },
                )
            }),
    {
        let digest = match initial_content {
            Some(c) => content_digest(c.as_str()),
            None => String::new(),
        };
        match self.find_sub(&key) {
            Some(i) => {
                proof {
                    assert(index_of_key(old(self).subs(), key@) == i);
                }
                let mut entry = self.entries.remove(i);
                entry.listeners.push(listener_id);
                if initial_content.is_some() {
                    entry.digest = digest;
                }
                self.entries.insert(i, entry);
                proof {
                    let i = i as int;
                    let ghost updated = old(self).subs().update(
                        i,
                        ConfigSubV {
                            key: key@,
                            digest: (match initial_content {
                                Some(c) => digest_of(c@),
                                None => old(self).subs()[i].digest,
                            }),
                            listeners: old(self).subs()[i].listeners.push(listener_id),
                        },
                    );
                    assert(final(self).subs() =~~= updated);
                    assert forall|a: int, b: int|
                        0 <= a < b < final(self).subs().len() implies final(self).subs()[a].key
                        != final(self).subs()[b].key by {
                        assert(old(self).subs()[a].key == final(self).subs()[a].key || a == i);
                        assert(old(self).subs()[b].key == final(self).subs()[b].key || b == i);
                    }
                }
            },
            None => {
                self.entries.push(ConfigSubscription { key, digest, listeners: vec![listener_id] });
                proof {
                    let ghost pushed = old(self).subs().push(
                        ConfigSubV {
                            key: key@,
                            digest: (match initial_content {
                                Some(c) => digest_of(c@),
                                None => Seq::<char>::empty(),
                            }),
                            listeners: seq![listener_id],
                        },
                    );
                    assert(final(self).subs() =~~= pushed);
                }
            },
        }
    }

    /// Drop the subscription for a key, with all its listeners. Absent
    /// keys are left as they are, without error.
    pub fn unsubscribe(&mut self, key: &ConfigKey)
        requires
            old(self).wf(),
        ensures
            final(self).wf(),
            final(self).tenant == old(self).tenant,
            final(self).subs() == remove_key(old(self).subs(), key@),
    {
        match self.find_sub(key) {
            Some(i) => {
                proof {
                    assert(index_of_key(old(self).subs(), key@) == i);
                }
                self.entries.remove(i);
                proof {
                    assert(final(self).subs() =~= old(self).subs().remove(i as int));
                }
            },
            None => {},
        }
    }

    /// The (key, digest) pair of every subscription, in table order: the
    /// content of one batched "which of these changed" request.
    pub fn listen_items(&self) -> (r: Vec<(ConfigKey, String)>)
        ensures
            r@.len() == self.subs().len(),
            forall|i: int|
                0 <= i < r@.len() ==> (#[trigger] r@[i]).0@ == self.subs()[i].key && r@[i].1@
                    == self.subs()[i].digest,
    {
        let mut r: Vec<(ConfigKey, String)> = Vec::new();
        let mut i: usize = 0;
        while i < self.entries.len()
            invariant
                i <= self.subs().len(),
                r@.len() == i,
                forall|j: int|
                    0 <= j < i ==> (#[trigger] r@[j]).0@ == self.subs()[j].key && r@[j].1@
                        == self.subs()[j].digest,
            decreases self.subs().len() - i,
        {
            let e = &self.entries[i];
            r.push((e.key.clone(), e.digest.clone()));
            i = i + 1;
        }
        r
    }

    /// Accept a fetched content for a changed key: store the digest of the
    /// new content and hand back the listeners to invoke, consulted fresh
    /// at this moment. A key unsubscribed while the fetch was in flight
    /// yields no listeners and leaves the table unchanged.
    pub fn on_config_changed(&mut self, key: &ConfigKey, content: &str) -> (listeners: Vec<u64>)
        requires
            old(self).wf(),
        ensures
            final(self).wf(),
            final(self).tenant == old(self).tenant,
            !has_key(old(self).subs(), key@) ==> final(self).subs() == old(self).subs()
                && listeners@ == Seq::<u64>::empty(),
            has_key(old(self).subs(), key@) ==> ({
                let i = index_of_key(old(self).subs(), key@);
                final(self).subs() == old(self).subs().update(
                    i,
                    ConfigSubV {
                        key: old(self).subs()[i].key,
                        digest: digest_of(content@),
                        listeners: old(self).subs()[i].listeners,
                    },
                ) && listeners@ == old(self).subs()[i].listeners
            }),
    {
        match self.find_sub(key) {
            Some(i) => {
                proof {
                    assert(index_of_key(old(self).subs(), key@) == i);
                }
                let mut entry = self.entries.remove(i);
                entry.digest = content_digest(content);
                let to_invoke = copy_ids(&entry.listeners);
                self.entries.insert(i, entry);
                proof {
                    let i = i as int;
                    let ghost updated = old(self).subs().update(
                        i,
                        ConfigSubV {
                            key: old(self).subs()[i].key,
                            digest: digest_of(content@),
                            listeners: old(self).subs()[i].listeners,
                        },
                    );
                    assert(final(self).subs() =~~= updated);
                    assert forall|a: int, b: int|
                        0 <= a < b < final(self).subs().len() implies final(self).subs()[a].key
                        != final(self).subs()[b].key by {
                        assert(old(self).subs()[a].key == final(self).subs()[a].key || a == i);
                        assert(old(self).subs()[b].key == final(self).subs()[b].key || b == i);
                    }
                }
                to_invoke
            },
            None => Vec::new(),
        }
    }

    /// The digest stored for a key, if the key is subscribed.
    pub fn subscription_digest(&self, key: &ConfigKey) -> (r: Option<String>)
        requires
            self.wf(),
        ensures
            match r {
                Some(d) => has_key(self.subs(), key@) && d@ == self.subs()[index_of_key(
                    self.subs(),
                    key@,
                )].digest,
                None => !has_key(self.subs(), key@),
            },
    {
        match self.find_sub(key) {
            Some(i) => {
                proof {
                    assert(index_of_key(self.subs(), key@) == i);
                }
                Some(self.entries[i].digest.clone())
            },
            None => None,
        }
    }

    /// The listeners registered for a key, in registration order.
    pub fn listeners_of(&self, key: &ConfigKey) -> (r: Vec<u64>)
        requires
            self.wf(),
        ensures
            has_key(self.subs(), key@) ==> r@ == self.subs()[index_of_key(
                self.subs(),
                key@,
            )].listeners,
            !has_key(self.subs(), key@) ==> r@ == Seq::<u64>::empty(),
    {
        match self.find_sub(key) {
            Some(i) => {
                proof {
                    assert(index_of_key(self.subs(), key@) == i);
                }
                copy_ids(&self.entries[i].listeners)
            },
            None => Vec::new(),
        }
    }
}

fn copy_ids(ids: &Vec<u64>) -> (r: Vec<u64>)
    ensures
        r@ == ids@,
{
    let mut r: Vec<u64> = Vec::new();
    let mut i: usize = 0;
    while i < ids.len()
        invariant
            i <= ids@.len(),
            r@ == ids@.subrange(0, i as int),
        decreases ids@.len() - i,
    {
        r.push(ids[i]);
        proof {
            assert(r@ =~= ids@.subrange(0, i + 1));
        }
        i = i + 1;
    }
    proof {
        assert(ids@.subrange(0, ids@.len() as int) =~= ids@);
    }
    r
}

/// The content a single-entry query's answer carries; any other answer
/// shape is a protocol error.
pub fn get_config_result(res: ConfigResponse) -> (r: Result<String, ClientError>)
    ensures
        res matches ConfigResponse::ConfigValue(c, d) ==> (r matches Ok(s) && s@ == c@),
        !(res matches ConfigResponse::ConfigValue(c, d)) ==> r == Err::<String, ClientError>(
            ClientError::ProtocolError,
        ),
{
    match res {
        ConfigResponse::ConfigValue(content, _) => Ok(content),
        _ => Err(ClientError::ProtocolError),
    }
}

} // verus!
