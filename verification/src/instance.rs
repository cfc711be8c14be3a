//! Service instances and the keys that identify logical services.

use vstd::prelude::*;

verus! {

/// Weight assigned to an instance when none is given. Weights are held in
/// integral weight units so that selection arithmetic is exact.
pub const DEFAULT_WEIGHT: u64 = 1;

/// One network endpoint registered under a service. Identity for set and
/// diff purposes is the tuple (ip, port, cluster_name, service_name,
/// group_name, namespace_id); weight, health and metadata changes do not
/// change identity but do replace the cached copy.
#[derive(Debug)]
pub struct Instance {
    pub ip: String,
    pub port: u32,
    /// Positive weight units; only instances with weight > 0 are selectable.
    pub weight: u64,
    pub enabled: bool,
    pub healthy: bool,
    /// An ephemeral registration lapses at the server unless re-asserted.
    pub ephemeral: bool,
    pub cluster_name: String,
    pub service_name: String,
    pub group_name: String,
    pub namespace_id: String,
    pub metadata: Vec<(String, String)>,
}

/// The mathematical value of an [`Instance`].
pub ghost struct InstanceV {
    pub ip: Seq<char>,
    pub port: u32,
    pub weight: u64,
    pub enabled: bool,
    pub healthy: bool,
    pub ephemeral: bool,
    pub cluster_name: Seq<char>,
    pub service_name: Seq<char>,
    pub group_name: Seq<char>,
    pub namespace_id: Seq<char>,
    pub metadata: Seq<(Seq<char>, Seq<char>)>,
}

/// The identity of an instance: the fields that make it the same endpoint
/// across snapshots.
pub ghost struct InstanceId {
    pub ip: Seq<char>,
    pub port: u32,
    pub cluster_name: Seq<char>,
    pub service_name: Seq<char>,
    pub group_name: Seq<char>,
    pub namespace_id: Seq<char>,
}

/// The value of a metadata table: each pair as character sequences.
pub open spec fn meta_view(m: Seq<(String, String)>) -> Seq<(Seq<char>, Seq<char>)> {
    m.map_values(|p: (String, String)| (p.0@, p.1@))
}

impl View for Instance {
    type V = InstanceV;

    open spec fn view(&self) -> InstanceV {
        InstanceV {
            ip: self.ip@,
            port: self.port,
            weight: self.weight,
            enabled: self.enabled,
            healthy: self.healthy,
            ephemeral: self.ephemeral,
            cluster_name: self.cluster_name@,
            service_name: self.service_name@,
            group_name: self.group_name@,
            namespace_id: self.namespace_id@,
            metadata: meta_view(self.metadata@),
        }
    }
}

impl InstanceV {
    /// The identity tuple of this instance value.
    pub open spec fn id(self) -> InstanceId {
        InstanceId {
            ip: self.ip,
            port: self.port,
            cluster_name: self.cluster_name,
            service_name: self.service_name,
            group_name: self.group_name,
            namespace_id: self.namespace_id,
        }
    }

    /// Whether this instance takes part in selection and in the
    /// listener-visible current set: healthy, enabled, positive weight.
    pub open spec fn eligible(self) -> bool {
        self.healthy && self.enabled && self.weight > 0
    }
}

/// The views of the instances in a vector, in order.
pub open spec fn views_of(s: Seq<Instance>) -> Seq<InstanceV> {
    s.map_values(|i: Instance| i@)
}

/// A copy of a metadata table with the same mathematical value.
pub fn clone_metadata_pairs(m: &Vec<(String, String)>) -> (r: Vec<(String, String)>)
    ensures
        meta_view(r@) == meta_view(m@),
{
    let mut r: Vec<(String, String)> = Vec::new();
    let mut i: usize = 0;
    while i < m.len()
        invariant
            i <= m.len(),
            r@.len() == i,
            forall|j: int|
                0 <= j < i ==> r@[j].0@ == m@[j].0@ && r@[j].1@ == m@[j].1@,
        decreases m.len() - i,
    {
        let pair = (m[i].0.clone(), m[i].1.clone());
        r.push(pair);
        i = i + 1;
    }
    proof {
        assert(meta_view(r@) =~= meta_view(m@));
    }
    r
}

impl Clone for Instance {
    /// A copy with the same mathematical value.
    fn clone(&self) -> (r: Self)
        ensures
            r@ == self@,
    {
        Instance {
            ip: self.ip.clone(),
            port: self.port,
            weight: self.weight,
            enabled: self.enabled,
            healthy: self.healthy,
            ephemeral: self.ephemeral,
            cluster_name: self.cluster_name.clone(),
            service_name: self.service_name.clone(),
            group_name: self.group_name.clone(),
            namespace_id: self.namespace_id.clone(),
            metadata: clone_metadata_pairs(&self.metadata),
        }
    }
}

impl Instance {
    /// An instance with the given endpoint and service, and the default
    /// weight, flags and empty cluster, namespace and metadata.
    pub fn new(ip: String, port: u32, service_name: String, group_name: String) -> (r: Instance)
        ensures
            r@.ip == ip@,
            r@.port == port,
            r@.weight == DEFAULT_WEIGHT,
            r@.enabled,
            r@.healthy,
            r@.ephemeral,
            r@.cluster_name == Seq::<char>::empty(),
            r@.service_name == service_name@,
            r@.group_name == group_name@,
            r@.namespace_id == Seq::<char>::empty(),
            r@.metadata == Seq::<(Seq<char>, Seq<char>)>::empty(),
    {
        let r = Instance {
            ip,
            port,
            weight: DEFAULT_WEIGHT,
            enabled: true,
            healthy: true,
            ephemeral: true,
            cluster_name: String::new(),
            service_name,
            group_name,
            namespace_id: String::new(),
            metadata: Vec::new(),
        };
        proof {
            assert(meta_view(r.metadata@) =~= Seq::<(Seq<char>, Seq<char>)>::empty());
        }
        r
    }

    /// Whether the two instances are the same endpoint: equal in every
    /// identity field.
    pub fn same_identity(&self, other: &Instance) -> (r: bool)
        ensures
            r == (self@.id() == other@.id()),
    {
        let r = self.ip == other.ip && self.port == other.port
            && self.cluster_name == other.cluster_name
            && self.service_name == other.service_name
            && self.group_name == other.group_name
            && self.namespace_id == other.namespace_id;
        proof {
            if r {
                assert(self@.id() == other@.id());
            }
        }
        r
    }
}

/// Identifies one logical service. Equality is by all fields; the
/// namespace is an optional, empty-defaulted dimension.
#[derive(Debug)]
pub struct ServiceInstanceKey {
    pub namespace_id: Option<String>,
    pub group_name: String,
    pub service_name: String,
}

impl Clone for ServiceInstanceKey {
    /// A copy equal to the original.
    fn clone(&self) -> (r: Self)
        ensures
            r == *self,
    {
        ServiceInstanceKey {
            namespace_id: match &self.namespace_id {
                Some(n) => Some(n.clone()),
                None => None,
            },
            group_name: self.group_name.clone(),
            service_name: self.service_name.clone(),
        }
    }
}

/// The mathematical value of a [`ServiceInstanceKey`].
pub ghost struct ServiceKeyV {
    pub namespace_id: Option<Seq<char>>,
    pub group_name: Seq<char>,
    pub service_name: Seq<char>,
}

impl View for ServiceInstanceKey {
    type V = ServiceKeyV;

    open spec fn view(&self) -> ServiceKeyV {
        ServiceKeyV {
            namespace_id: match self.namespace_id {
                Some(ref n) => Some(n@),
                None => None,
            },
            group_name: self.group_name@,
            service_name: self.service_name@,
        }
    }
}

impl ServiceInstanceKey {
    /// A key built from its parts.
    pub fn new(namespace_id: Option<String>, group_name: String, service_name: String) -> (r:
        ServiceInstanceKey)
        ensures
            r.namespace_id == namespace_id,
            r@.group_name == group_name@,
            r@.service_name == service_name@,
    {
        ServiceInstanceKey { namespace_id, group_name, service_name }
    }

    /// Whether two keys identify the same logical service: equal in all
    /// fields.
    pub fn key_eq(&self, other: &ServiceInstanceKey) -> (r: bool)
        ensures
            r == (self@ == other@),
    {
        let ns_eq = match (&self.namespace_id, &other.namespace_id) {
            (Some(a), Some(b)) => *a == *b,
            (None, None) => true,
            _ => false,
        };
        let r = ns_eq && self.group_name == other.group_name
            && self.service_name == other.service_name;
        proof {
            if r {
                assert(self@ == other@);
            }
        }
        r
    }
}

} // verus!
