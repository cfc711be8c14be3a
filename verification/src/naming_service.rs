//! The naming engine: the set of instances the local process keeps
//! asserted at the server, the subscription table with one cached instance
//! snapshot per service key, add/remove deltas between successive
//! snapshots, and weighted-random selection over the eligible subset.

use vstd::prelude::*;

use crate::conn_msg::ServiceResult;
use crate::errors::ClientError;
use crate::instance::{views_of, Instance, InstanceId, InstanceV, ServiceInstanceKey, ServiceKeyV};
use crate::rng::SelectionRng;

verus! {

/// Whether some instance of the snapshot has the given identity.
pub open spec fn has_instance_id(s: Seq<InstanceV>, id: InstanceId) -> bool {
    exists|i: int| 0 <= i < s.len() && s[i].id() == id
}

/// The index of the instance with the given identity. Meaningful where
/// identities are unique, as they are in the registered set.
pub open spec fn index_of_identity(s: Seq<InstanceV>, id: InstanceId) -> int {
    choose|i: int| 0 <= i < s.len() && s[i].id() == id
}

/// At most one instance per identity.
pub open spec fn unique_identities(s: Seq<InstanceV>) -> bool {
    forall|i: int, j: int| 0 <= i < j < s.len() ==> s[i].id() != s[j].id()
}

/// The snapshot after the instance with the given identity is dropped;
/// the snapshot itself when none has it.
pub open spec fn remove_identity(s: Seq<InstanceV>, id: InstanceId) -> Seq<InstanceV> {
    if has_instance_id(s, id) {
        s.remove(index_of_identity(s, id))
    } else {
        s
    }
}

/// The instances of the new snapshot whose identity is absent from the
/// previous one, in snapshot order.
pub open spec fn delta_added(prev: Seq<InstanceV>, next: Seq<InstanceV>) -> Seq<InstanceV>
    decreases next.len(),
{
    if next.len() == 0 {
        Seq::<InstanceV>::empty()
    } else {
        let rest = delta_added(prev, next.drop_last());
        if !has_instance_id(prev, next.last().id()) {
            rest.push(next.last())
        } else {
            rest
        }
    }
}

/// The instances of the previous snapshot whose identity is absent from
/// the new one, in snapshot order.
pub open spec fn delta_removed(prev: Seq<InstanceV>, next: Seq<InstanceV>) -> Seq<InstanceV> {
    delta_added(next, prev)
}

/// The identities present in a snapshot.
pub open spec fn id_set(s: Seq<InstanceV>) -> Set<InstanceId> {
    s.map_values(|v: InstanceV| v.id()).to_set()
}

/// An instance is in the added delta exactly when it is in the new
/// snapshot and its identity is absent from the previous one.
pub proof fn lemma_delta_membership(prev: Seq<InstanceV>, next: Seq<InstanceV>, x: InstanceV)
    ensures
        delta_added(prev, next).contains(x) <==> next.contains(x) && !has_instance_id(
            prev,
            x.id(),
        ),
    decreases next.len(),
{
    broadcast use vstd::seq_lib::group_seq_properties;

    if next.len() > 0 {
        lemma_delta_membership(prev, next.drop_last(), x);
        assert(next.contains(x) <==> next.drop_last().contains(x) || next.last() == x) by {
            if next.contains(x) {
                let i = choose|i: int| 0 <= i < next.len() && next[i] == x;
                if i < next.len() - 1 {
                    assert(next.drop_last()[i] == x);
                }
            }
            if next.drop_last().contains(x) {
                let i = choose|i: int|
                    0 <= i < next.drop_last().len() && next.drop_last()[i] == x;
                assert(next[i] == x);
            }
        }
        let f = delta_added(prev, next.drop_last());
        if !has_instance_id(prev, next.last().id()) {
            assert(delta_added(prev, next) == f.push(next.last()));
            assert forall|y: InstanceV| f.push(next.last()).contains(y) implies f.contains(y) || y
                == next.last() by {
                let i = choose|i: int|
                    0 <= i < f.push(next.last()).len() && f.push(next.last())[i] == y;
                if i < f.len() {
                    assert(f[i] == y);
                }
            }
            assert(f.push(next.last())[f.len() as int] == next.last());
        } else {
            assert(delta_added(prev, next) == f);
        }
    }
}

/// The deltas between two snapshots are exactly the set differences of
/// their identities: added = next − prev and removed = prev − next.
pub proof fn lemma_delta_is_set_difference(prev: Seq<InstanceV>, next: Seq<InstanceV>)
    ensures
        id_set(delta_added(prev, next)) == id_set(next).difference(id_set(prev)),
        id_set(delta_removed(prev, next)) == id_set(prev).difference(id_set(next)),
{
    lemma_id_set_of_filtered(prev, next);
    lemma_id_set_of_filtered(next, prev);
    assert(id_set(delta_removed(prev, next)) =~= id_set(prev).difference(id_set(next)));
    assert(id_set(delta_added(prev, next)) =~= id_set(next).difference(id_set(prev)));
}

proof fn lemma_id_set_of_filtered(prev: Seq<InstanceV>, next: Seq<InstanceV>)
    ensures
        forall|id: InstanceId| #[trigger]
            id_set(delta_added(prev, next)).contains(id) <==> id_set(next).contains(id)
                && !id_set(prev).contains(id),
{
    broadcast use vstd::seq_lib::group_seq_properties;

    assert forall|id: InstanceId|
        #![trigger id_set(delta_added(prev, next)).contains(id)]
        true implies (id_set(delta_added(prev, next)).contains(id) <==> id_set(next).contains(id)
        && !id_set(prev).contains(id)) by {
        lemma_id_set_contains(delta_added(prev, next), id);
        lemma_id_set_contains(next, id);
        lemma_id_set_contains(prev, id);
        if id_set(delta_added(prev, next)).contains(id) {
            let v = choose|v: InstanceV| delta_added(prev, next).contains(v) && v.id() == id;
            lemma_delta_membership(prev, next, v);
        }
        if id_set(next).contains(id) && !id_set(prev).contains(id) {
            let v = choose|v: InstanceV| next.contains(v) && v.id() == id;
            lemma_delta_membership(prev, next, v);
        }
    }
}

proof fn lemma_id_set_contains(s: Seq<InstanceV>, id: InstanceId)
    ensures
        id_set(s).contains(id) <==> (exists|v: InstanceV| s.contains(v) && v.id() == id),
        (exists|v: InstanceV| s.contains(v) && v.id() == id) <==> has_instance_id(s, id),
{
    broadcast use vstd::seq_lib::group_seq_properties;

    let m = s.map_values(|v: InstanceV| v.id());
    if id_set(s).contains(id) {
        assert(m.contains(id));
        let i = choose|i: int| 0 <= i < m.len() && m[i] == id;
        assert(s.contains(s[i]) && s[i].id() == id);
    }
    if exists|v: InstanceV| s.contains(v) && v.id() == id {
        let v = choose|v: InstanceV| s.contains(v) && v.id() == id;
        let i = choose|i: int| 0 <= i < s.len() && s[i] == v;
        assert(m[i] == id);
        assert(m.contains(id));
    }
    if has_instance_id(s, id) {
        let i = choose|i: int| 0 <= i < s.len() && s[i].id() == id;
        assert(s.contains(s[i]));
    }
}

/// Whether the snapshot holds an instance with the same identity.
pub fn contains_identity(list: &Vec<Instance>, inst: &Instance) -> (r: bool)
    ensures
        r == has_instance_id(views_of(list@), inst@.id()),
{
    let mut i: usize = 0;
    while i < list.len()
        invariant
            i <= list@.len(),
            forall|j: int| 0 <= j < i ==> views_of(list@)[j].id() != inst@.id(),
        decreases list@.len() - i,
    {
        let same = list[i].same_identity(inst);
        proof {
            assert(views_of(list@)[i as int] == list@[i as int]@);
        }
        if same {
            return true;
        }
        i = i + 1;
    }
    false
}

/// The instances of `next` whose identity is absent from `prev`, in
/// `next`'s order.
pub fn compute_added(prev: &Vec<Instance>, next: &Vec<Instance>) -> (added: Vec<Instance>)
    ensures
        views_of(added@) == delta_added(views_of(prev@), views_of(next@)),
{
    let ghost pv = views_of(prev@);
    let ghost nv = views_of(next@);
    let mut added: Vec<Instance> = Vec::new();
    let mut i: usize = 0;
    while i < next.len()
        invariant
            i <= next@.len(),
            nv == views_of(next@),
            pv == views_of(prev@),
            views_of(added@) == delta_added(pv, nv.subrange(0, i as int)),
        decreases next@.len() - i,
    {
        proof {
            assert(nv[i as int] == next@[i as int]@);
        }
        let ghost sub = nv.subrange(0, i as int);
        let ghost x = nv[i as int];
        let ghost before = added@;
        if !contains_identity(prev, &next[i]) {
            added.push(next[i].clone());
            proof {
                assert(views_of(added@) =~= views_of(before).push(x));
            }
        }
        proof {
            assert(nv.subrange(0, i + 1) =~= sub.push(x));
            assert(sub.push(x).drop_last() =~= sub);
            assert(sub.push(x).last() == x);
        }
        i = i + 1;
    }
    proof {
        assert(nv.subrange(0, nv.len() as int) =~= nv);
    }
    added
}

/// The cumulative eligible weight of the first `n` instances.
pub open spec fn prefix_weight(s: Seq<InstanceV>, n: int) -> int
    decreases n,
{
    if n <= 0 {
        0
    } else {
        prefix_weight(s, n - 1) + if s[n - 1].eligible() {
            s[n - 1].weight as int
        } else {
            0
        }
    }
}

/// The total eligible weight of a snapshot.
pub open spec fn total_weight(s: Seq<InstanceV>) -> int {
    prefix_weight(s, s.len() as int)
}

proof fn lemma_prefix_weight_bounds(s: Seq<InstanceV>, n: int)
    requires
        0 <= n <= s.len(),
    ensures
        0 <= prefix_weight(s, n) <= n * 0xffff_ffff_ffff_ffff,
    decreases n,
{
    if n > 0 {
        lemma_prefix_weight_bounds(s, n - 1);
    }
}

proof fn lemma_prefix_weight_mono(s: Seq<InstanceV>, m: int, n: int)
    requires
        0 <= m <= n <= s.len(),
    ensures
        prefix_weight(s, m) <= prefix_weight(s, n),
    decreases n - m,
{
    if m < n {
        lemma_prefix_weight_mono(s, m, n - 1);
        lemma_prefix_weight_bounds(s, n);
    }
}

/// A snapshot's total eligible weight is zero exactly when no instance of
/// it is eligible; in particular an instance of weight zero never carries
/// weight into the total.
pub proof fn lemma_total_weight_zero(s: Seq<InstanceV>)
    ensures
        total_weight(s) == 0 <==> (forall|i: int| 0 <= i < s.len() ==> !s[i].eligible()),
{
    lemma_prefix_weight_zero(s, s.len() as int);
}

proof fn lemma_prefix_weight_zero(s: Seq<InstanceV>, n: int)
    requires
        0 <= n <= s.len(),
    ensures
        prefix_weight(s, n) == 0 <==> (forall|i: int| 0 <= i < n ==> !s[i].eligible()),
    decreases n,
{
    if n > 0 {
        lemma_prefix_weight_zero(s, n - 1);
        lemma_prefix_weight_bounds(s, n - 1);
    }
}

/// Weighted-random choice at a given draw: the instance at the position
/// where the cumulative eligible weight first exceeds the draw's remainder
/// modulo the total weight. Fails exactly when no instance is eligible.
pub fn select_by_draw(hosts: &Vec<Instance>, draw: u128) -> (r: Result<Instance, ClientError>)
    ensures
        total_weight(views_of(hosts@)) == 0 ==> r == Err::<Instance, ClientError>(
            ClientError::NoAvailableInstance,
        ),
        total_weight(views_of(hosts@)) > 0 ==> ({
            let hv = views_of(hosts@);
            let d = (draw as int) % total_weight(hv);
            &&& r matches Ok(inst)
            &&& exists|i: int|
                0 <= i < hv.len() && inst@ == hv[i] && #[trigger] hv[i].eligible()
                    && prefix_weight(hv, i) <= d < prefix_weight(hv, i + 1)
        }),
{
    let ghost hv = views_of(hosts@);
    let mut total: u128 = 0;
    let mut i: usize = 0;
    while i < hosts.len()
        invariant
            i <= hosts@.len(),
            hv == views_of(hosts@),
            total == prefix_weight(hv, i as int),
            total <= (i as int) * 0xffff_ffff_ffff_ffff,
        decreases hosts@.len() - i,
    {
        let h = &hosts[i];
        if h.healthy && h.enabled && h.weight > 0 {
            total = total + (h.weight as u128);
        }
        i = i + 1;
    }
    if total == 0 {
        return Err(ClientError::NoAvailableInstance);
    }
    let d: u128 = draw % total;
    let mut acc: u128 = 0;
    let mut k: usize = 0;
    while k < hosts.len()
        invariant
            k <= hosts@.len(),
            hv == views_of(hosts@),
            total == total_weight(hv),
            total > 0,
            d == (draw as int) % total_weight(hv),
            d < total,
            acc == prefix_weight(hv, k as int),
            acc <= d,
        decreases hosts@.len() - k,
    {
        let h = &hosts[k];
        if h.healthy && h.enabled && h.weight > 0 {
            proof {
                lemma_prefix_weight_bounds(hv, k as int);
                lemma_prefix_weight_mono(hv, k + 1, hv.len() as int);
            }
            let next_acc = acc + (h.weight as u128);
            if next_acc > d {
                let chosen = h.clone();
                proof {
                    let ki = k as int;
                    assert(chosen@ == hv[ki]);
                    assert(prefix_weight(hv, ki) <= (draw as int) % total_weight(hv)
                        < prefix_weight(hv, ki + 1));
                }
                return Ok(chosen);
            }
            acc = next_acc;
        }
        k = k + 1;
    }
    proof {
        assert(acc == total_weight(hv));
        assert(false);
    }
    Err(ClientError::NoAvailableInstance)
}

/// One subscribed service key: its listeners and the cached snapshot with
/// the validity the server granted it.
pub struct ServiceSubscription {
    pub key: ServiceInstanceKey,
    pub listeners: Vec<u64>,
    /// Whether a snapshot has been cached yet.
    pub cached: bool,
    pub hosts: Vec<Instance>,
    pub cache_millis: u64,
    /// The clock reading when the snapshot was stored.
    pub fetched_at: u64,
}

/// The mathematical value of a [`ServiceSubscription`].
#[verifier::ext_equal]
pub ghost struct ServiceSubV {
    pub key: ServiceKeyV,
    pub listeners: Seq<u64>,
    pub cached: bool,
    pub hosts: Seq<InstanceV>,
    pub cache_millis: u64,
    pub fetched_at: u64,
}

impl View for ServiceSubscription {
    type V = ServiceSubV;

    open spec fn view(&self) -> ServiceSubV {
        ServiceSubV {
            key: self.key@,
            listeners: self.listeners@,
            cached: self.cached,
            hosts: views_of(self.hosts@),
            cache_millis: self.cache_millis,
            fetched_at: self.fetched_at,
        }
    }
}

/// Whether some entry of the table holds the given service key.
pub open spec fn has_service_key(s: Seq<ServiceSubV>, k: ServiceKeyV) -> bool {
    exists|i: int| 0 <= i < s.len() && s[i].key == k
}

/// The index of the entry holding the given service key. Meaningful under
/// [`unique_service_keys`], where it is the one such index.
pub open spec fn index_of_service_key(s: Seq<ServiceSubV>, k: ServiceKeyV) -> int {
    choose|i: int| 0 <= i < s.len() && s[i].key == k
}

/// At most one entry per service key: the table is a mapping.
pub open spec fn unique_service_keys(s: Seq<ServiceSubV>) -> bool {
    forall|i: int, j: int| 0 <= i < j < s.len() ==> s[i].key != s[j].key
}

/// The table after the entry for the given service key is dropped; the
/// table itself when no entry holds the key.
pub open spec fn remove_service_key(s: Seq<ServiceSubV>, k: ServiceKeyV) -> Seq<ServiceSubV> {
    if has_service_key(s, k) {
        s.remove(index_of_service_key(s, k))
    } else {
        s
    }
}

/// Unsubscribing a service key a second time is a no-op: once the entry
/// is gone the table no longer holds the key, so the removal leaves it as
/// it is.
pub proof fn lemma_service_unsubscribe_idempotent(s: Seq<ServiceSubV>, k: ServiceKeyV)
    requires
        unique_service_keys(s),
    ensures
        remove_service_key(remove_service_key(s, k), k) == remove_service_key(s, k),
{
    if has_service_key(s, k) {
        let i = index_of_service_key(s, k);
        let r = s.remove(i);
        assert forall|j: int| 0 <= j < r.len() implies r[j].key != k by {
            if j < i {
                assert(r[j] == s[j]);
            } else {
                assert(r[j] == s[j + 1]);
            }
        }
        assert(!has_service_key(r, k));
    }
}

/// Whether the snapshot of a fresh cache entry is usable at the given
/// clock reading: a snapshot is cached and its validity window has not
/// elapsed.
pub open spec fn cache_fresh_at(s: Seq<ServiceSubV>, k: ServiceKeyV, now: u64) -> bool {
    has_service_key(s, k) && {
        let e = s[index_of_service_key(s, k)];
        e.cached && e.fetched_at <= now <= e.fetched_at + e.cache_millis
    }
}

/// What one accepted snapshot update hands the dispatch layer: the full
/// new list, the two delta lists, and the listeners to invoke with them.
pub struct ServiceUpdate {
    pub hosts: Vec<Instance>,
    pub added: Vec<Instance>,
    pub removed: Vec<Instance>,
    pub listeners: Vec<u64>,
}

/// Copies of the instances of a snapshot, with the same values.
pub fn clone_instances(list: &Vec<Instance>) -> (r: Vec<Instance>)
    ensures
        views_of(r@) == views_of(list@),
{
    let mut r: Vec<Instance> = Vec::new();
    let mut i: usize = 0;
    while i < list.len()
        invariant
            i <= list@.len(),
            r@.len() == i,
            forall|j: int| 0 <= j < i ==> (#[trigger] r@[j])@ == list@[j]@,
        decreases list@.len() - i,
    {
        r.push(list[i].clone());
        i = i + 1;
    }
    proof {
        assert(views_of(r@) =~= views_of(list@));
    }
    r
}

fn copy_listener_ids(ids: &Vec<u64>) -> (r: Vec<u64>)
    ensures
        r@ == ids@,
{
    let mut r: Vec<u64> = Vec::new();
    let mut i: usize = 0;
    while i < ids.len()
        invariant
            i <= ids@.len(),
            r@ == ids@.subrange(0, i as int),
        decreases ids@.len() - i,
    {
        r.push(ids[i]);
        proof {
            assert(r@ =~= ids@.subrange(0, i + 1));
        }
        i = i + 1;
    }
    proof {
        assert(ids@.subrange(0, ids@.len() as int) =~= ids@);
    }
    r
}

/// The naming service state: the instances this process keeps asserted at
/// the server and the service subscription table.
pub struct NamingService {
    pub registered: Vec<Instance>,
    pub entries: Vec<ServiceSubscription>,
}

impl NamingService {
    /// The registered set as a sequence of instance values.
    pub open spec fn regs(&self) -> Seq<InstanceV> {
        views_of(self.registered@)
    }

    /// The subscription table as a sequence of entry values.
    pub open spec fn subs(&self) -> Seq<ServiceSubV> {
        self.entries@.map_values(|e: ServiceSubscription| e@)
    }

    /// Well-formedness: one registration per identity, one entry per key.
    pub open spec fn wf(&self) -> bool {
        unique_identities(self.regs()) && unique_service_keys(self.subs())
    }

    /// A naming service with nothing registered and no subscriptions.
    pub fn new() -> (r: NamingService)
        ensures
            r.wf(),
            r.regs() == Seq::<InstanceV>::empty(),
            r.subs() == Seq::<ServiceSubV>::empty(),
    {
        let r = NamingService { registered: Vec::new(), entries: Vec::new() };
        proof {
            assert(r.regs() =~= Seq::<InstanceV>::empty());
            assert(r.subs() =~= Seq::<ServiceSubV>::empty());
        }
        r
    }

    fn find_registered(&self, instance: &Instance) -> (r: Option<usize>)
        ensures
            match r {
                Some(i) => 0 <= i < self.regs().len() && self.regs()[i as int].id()
                    == instance@.id(),
                None => !has_instance_id(self.regs(), instance@.id()),
            },
    {
        let mut i: usize = 0;
        while i < self.registered.len()
            invariant
                i <= self.regs().len(),
                forall|j: int| 0 <= j < i ==> self.regs()[j].id() != instance@.id(),
            decreases self.regs().len() - i,
        {
            let same = self.registered[i].same_identity(instance);
            proof {
                assert(self.regs()[i as int] == self.registered@[i as int]@);
            }
            if same {
                return Some(i);
            }
            i = i + 1;
        }
        None
    }

    fn find_entry(&self, key: &ServiceInstanceKey) -> (r: Option<usize>)
        ensures
            match r {
                Some(i) => 0 <= i < self.subs().len() && self.subs()[i as int].key == key@,
                None => !has_service_key(self.subs(), key@),
            },
    {
        let mut i: usize = 0;
        while i < self.entries.len()
            invariant
                i <= self.subs().len(),
                forall|j: int| 0 <= j < i ==> self.subs()[j].key != key@,
            decreases self.subs().len() - i,
        {
            if self.entries[i].key.key_eq(key) {
                return Some(i);
            }
            i = i + 1;
        }
        None
    }

    /// Add an instance to the registered set, replacing any prior
    /// registration of the same identity.
    pub fn register(&mut self, instance: Instance)
        requires
            old(self).wf(),
        ensures
            final(self).wf(),
            final(self).entries == old(self).entries,
            final(self).regs() == remove_identity(old(self).regs(), instance@.id()).push(
                instance@,
            ),
    {
        match self.find_registered(&instance) {
            Some(i) => {
                proof {
                    assert(index_of_identity(old(self).regs(), instance@.id()) == i);
                }
                self.registered.remove(i);
                proof {
                    assert(views_of(self.registered@) =~= old(self).regs().remove(i as int));
                }
            },
            None => {},
        }
        let ghost mid = views_of(self.registered@);
        proof {
            assert(mid == remove_identity(old(self).regs(), instance@.id()));
            if has_instance_id(old(self).regs(), instance@.id()) {
                let i = index_of_identity(old(self).regs(), instance@.id());
                assert forall|j: int| 0 <= j < mid.len() implies mid[j].id()
                    != instance@.id() by {
                    if j < i {
                        assert(mid[j] == old(self).regs()[j]);
                    } else {
                        assert(mid[j] == old(self).regs()[j + 1]);
                    }
                }
                assert forall|a: int, b: int| 0 <= a < b < mid.len() implies mid[a].id()
                    != mid[b].id() by {
                    assert(mid[a] == old(self).regs()[if a < i {
                        a
                    } else {
                        a + 1
                    }]);
                    assert(mid[b] == old(self).regs()[if b < i {
                        b
                    } else {
                        b + 1
                    }]);
                }
            }
        }
        self.registered.push(instance);
        proof {
            assert(final(self).regs() =~= mid.push(instance@));
        }
    }

    /// Drop the instance with the given identity from the registered set.
    /// The removal is local and unconditional: a failed wire deregister is
    /// accepted as at-most-once toward the server.
    pub fn deregister(&mut self, instance: &Instance)
        requires
            old(self).wf(),
        ensures
            final(self).wf(),
            final(self).entries == old(self).entries,
            final(self).regs() == remove_identity(old(self).regs(), instance@.id()),
    {
        match self.find_registered(instance) {
            Some(i) => {
                proof {
                    assert(index_of_identity(old(self).regs(), instance@.id()) == i);
                }
                self.registered.remove(i);
                proof {
                    assert(views_of(self.registered@) =~= old(self).regs().remove(i as int));
                    let r = final(self).regs();
                    assert forall|a: int, b: int| 0 <= a < b < r.len() implies r[a].id()
                        != r[b].id() by {
                        assert(r[a] == old(self).regs()[if a < i {
                            a
                        } else {
                            a + 1
                        }]);
                        assert(r[b] == old(self).regs()[if b < i {
                            b
                        } else {
                            b + 1
                        }]);
                    }
                }
            },
            None => {},
        }
    }

    /// Copies of the current registered set: the batch the periodic
    /// re-assertion sends.
    pub fn registered_snapshot(&self) -> (r: Vec<Instance>)
        ensures
            views_of(r@) == self.regs(),
    {
        clone_instances(&self.registered)
    }

    /// Register a listener under a service key. The first subscription for
    /// a key creates its entry, with no snapshot cached yet.
    pub fn subscribe(&mut self, key: ServiceInstanceKey, listener_id: u64)
        requires
            old(self).wf(),
        ensures
            final(self).wf(),
            final(self).registered == old(self).registered,
            !has_service_key(old(self).subs(), key@) ==> final(self).subs() == old(
                self,
            ).subs().push(
                ServiceSubV {
                    key: key@,
                    listeners: seq![listener_id],
                    cached: false,
                    hosts: Seq::<InstanceV>::empty(),
                    cache_millis: 0,
                    fetched_at: 0,
                },
            ),
            has_service_key(old(self).subs(), key@) ==> ({
                let i = index_of_service_key(old(self).subs(), key@);
                final(self).subs() == old(self).subs().update(
                    i,
                    ServiceSubV {
                        listeners: old(self).subs()[i].listeners.push(listener_id),
                        ..old(self).subs()[i]
                    },
                )
            }),
    {
        match self.find_entry(&key) {
            Some(i) => {
                proof {
                    assert(index_of_service_key(old(self).subs(), key@) == i);
                }
                let mut entry = self.entries.remove(i);
                entry.listeners.push(listener_id);
                self.entries.insert(i, entry);
                proof {
                    let i = i as int;
                    assert(final(self).subs() =~~= old(self).subs().update(
                        i,
                        ServiceSubV {
                            listeners: old(self).subs()[i].listeners.push(listener_id),
                            ..old(self).subs()[i]
                        },
                    ));
                    assert forall|a: int, b: int|
                        0 <= a < b < final(self).subs().len() implies final(self).subs()[a].key
                        != final(self).subs()[b].key by {
                        assert(old(self).subs()[a].key == final(self).subs()[a].key || a == i);
                        assert(old(self).subs()[b].key == final(self).subs()[b].key || b == i);
                    }
                }
            },
            None => {
                self.entries.push(
                    ServiceSubscription {
                        key,
                        listeners: vec![listener_id],
                        cached: false,
                        hosts: Vec::new(),
                        cache_millis: 0,
                        fetched_at: 0,
                    },
                );
                proof {
                    assert(final(self).subs() =~~= old(self).subs().push(
                        ServiceSubV {
                            key: key@,
                            listeners: seq![listener_id],
                            cached: false,
                            hosts: Seq::<InstanceV>::empty(),
                            cache_millis: 0,
                            fetched_at: 0,
                        },
                    ));
                }
            },
        }
    }

    /// Drop the subscription for a service key, with all its listeners.
    /// Absent keys are left as they are, without error.
    pub fn unsubscribe(&mut self, key: &ServiceInstanceKey)
        requires
            old(self).wf(),
        ensures
            final(self).wf(),
            final(self).registered == old(self).registered,
            final(self).subs() == remove_service_key(old(self).subs(), key@),
    {
        match self.find_entry(key) {
            Some(i) => {
                proof {
                    assert(index_of_service_key(old(self).subs(), key@) == i);
                }
                self.entries.remove(i);
                proof {
                    assert(final(self).subs() =~= old(self).subs().remove(i as int));
                }
            },
            None => {},
        }
    }

    /// Accept a fresh snapshot for a service key: swap the cache entry
    /// wholesale, and hand back the full list, the deltas against the
    /// previous snapshot, and the listeners to invoke with them. Every
    /// accepted update produces exactly one such dispatch, even when both
    /// delta lists are empty. An update for a key without an entry
    /// creates one with no listeners, so that one-shot queries also fill
    /// the cache.
    pub fn on_service_update(
        &mut self,
        key: &ServiceInstanceKey,
        result: ServiceResult,
        now: u64,
    ) -> (u: ServiceUpdate)
        requires
            old(self).wf(),
        ensures
            final(self).wf(),
            final(self).registered == old(self).registered,
            ({
                let s = old(self).subs();
                let hv = views_of(result.hosts@);
                let prevv = if has_service_key(s, key@) && s[index_of_service_key(s, key@)].cached {
                    s[index_of_service_key(s, key@)].hosts
                } else {
                    Seq::<InstanceV>::empty()
                };
                &&& views_of(u.hosts@) == hv
                &&& views_of(u.added@) == delta_added(prevv, hv)
                &&& views_of(u.removed@) == delta_removed(prevv, hv)
                &&& u.listeners@ == (if has_service_key(s, key@) {
                    s[index_of_service_key(s, key@)].listeners
                } else {
                    Seq::<u64>::empty()
                })
                &&& final(self).subs() == (if has_service_key(s, key@) {
                    s.update(
                        index_of_service_key(s, key@),
                        ServiceSubV {
                            cached: true,
                            hosts: hv,
                            cache_millis: result.cache_millis,
                            fetched_at: now,
                            ..s[index_of_service_key(s, key@)]
                        },
                    )
                } else {
                    s.push(
                        ServiceSubV {
                            key: key@,
                            listeners: Seq::<u64>::empty(),
                            cached: true,
                            hosts: hv,
                            cache_millis: result.cache_millis,
                            fetched_at: now,
                        },
                    )
                })
            }),
    {
        let empty_hosts: Vec<Instance> = Vec::new();
        proof {
            assert(views_of(empty_hosts@) =~= Seq::<InstanceV>::empty());
        }
        match self.find_entry(key) {
            Some(i) => {
                proof {
                    assert(index_of_service_key(old(self).subs(), key@) == i);
                }
                let entry = self.entries.remove(i);
                let prev_ref: &Vec<Instance> = if entry.cached {
                    &entry.hosts
                } else {
                    &empty_hosts
                };
                let added = compute_added(prev_ref, &result.hosts);
                let removed = compute_added(&result.hosts, prev_ref);
                let listeners = copy_listener_ids(&entry.listeners);
                let hosts_out = clone_instances(&result.hosts);
                let new_entry = ServiceSubscription {
                    key: entry.key,
                    listeners: entry.listeners,
                    cached: true,
                    hosts: result.hosts,
                    cache_millis: result.cache_millis,
                    fetched_at: now,
                };
                self.entries.insert(i, new_entry);
                proof {
                    let i = i as int;
                    let s = old(self).subs();
                    assert(final(self).subs() =~~= s.update(
                        i,
                        ServiceSubV {
                            cached: true,
                            hosts: views_of(result.hosts@),
                            cache_millis: result.cache_millis,
                            fetched_at: now,
                            ..s[i]
                        },
                    ));
                    assert forall|a: int, b: int|
                        0 <= a < b < final(self).subs().len() implies final(self).subs()[a].key
                        != final(self).subs()[b].key by {
                        assert(s[a].key == final(self).subs()[a].key || a == i);
                        assert(s[b].key == final(self).subs()[b].key || b == i);
                    }
                }
                ServiceUpdate { hosts: hosts_out, added, removed, listeners }
            },
            None => {
                let added = compute_added(&empty_hosts, &result.hosts);
                let removed = compute_added(&result.hosts, &empty_hosts);
                let hosts_out = clone_instances(&result.hosts);
                let new_entry = ServiceSubscription {
                    key: key.clone(),
                    listeners: Vec::new(),
                    cached: true,
                    hosts: result.hosts,
                    cache_millis: result.cache_millis,
                    fetched_at: now,
                };
                self.entries.push(new_entry);
                proof {
                    assert(final(self).subs() =~~= old(self).subs().push(
                        ServiceSubV {
                            key: key@,
                            listeners: Seq::<u64>::empty(),
                            cached: true,
                            hosts: views_of(result.hosts@),
                            cache_millis: result.cache_millis,
                            fetched_at: now,
                        },
                    ));
                }
                ServiceUpdate {
                    hosts: hosts_out,
                    added,
                    removed,
                    listeners: Vec::new(),
                }
            },
        }
    }

    /// Whether a selection for the key must first refresh the cache: no
    /// snapshot is cached yet, or its validity window has elapsed.
    pub fn cache_needs_refresh(&self, key: &ServiceInstanceKey, now: u64) -> (r: bool)
        requires
            self.wf(),
        ensures
            r == !cache_fresh_at(self.subs(), key@, now),
    {
        match self.find_entry(key) {
            Some(i) => {
                proof {
                    assert(index_of_service_key(self.subs(), key@) == i);
                }
                let e = &self.entries[i];
                let fresh = e.cached && now >= e.fetched_at && now - e.fetched_at
                    <= e.cache_millis;
                !fresh
            },
            None => true,
        }
    }

    /// A weighted-random pick over the cached snapshot for the key: only
    /// healthy, enabled, positive-weight instances are candidates, and the
    /// pick fails with `NoAvailableInstance` exactly when there is no
    /// candidate.
    pub fn select_instance(&self, key: &ServiceInstanceKey, rng: &mut SelectionRng) -> (r: Result<
        Instance,
        ClientError,
    >)
        requires
            self.wf(),
        ensures
            !has_service_key(self.subs(), key@) ==> r == Err::<Instance, ClientError>(
                ClientError::NoAvailableInstance,
            ),
            has_service_key(self.subs(), key@) ==> ({
                let hosts = self.subs()[index_of_service_key(self.subs(), key@)].hosts;
                &&& (total_weight(hosts) == 0 ==> r == Err::<Instance, ClientError>(
                    ClientError::NoAvailableInstance,
                ))
                &&& (total_weight(hosts) > 0 ==> (r matches Ok(inst) && exists|i: int|
                    0 <= i < hosts.len() && inst@ == hosts[i] && #[trigger] hosts[i].eligible()))
            }),
    {
        match self.find_entry(key) {
            Some(i) => {
                proof {
                    assert(index_of_service_key(self.subs(), key@) == i);
                }
                let hi = rng.next_u64();
                let lo = rng.next_u64();
                let draw: u128 = ((hi as u128) << 64u128) | (lo as u128);
                select_by_draw(&self.entries[i].hosts, draw)
            },
            None => Err(ClientError::NoAvailableInstance),
        }
    }
}

} // verus!
