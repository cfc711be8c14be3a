//! Identification of configuration entries.

use vstd::prelude::*;

verus! {

/// Identifies one configuration entry. Equality is by all three fields;
/// the tenant defaults to the empty "public" sentinel.
#[derive(Debug)]
pub struct ConfigKey {
    pub data_id: String,
    pub group: String,
    pub tenant: String,
}

impl Clone for ConfigKey {
    /// A copy equal to the original.
    fn clone(&self) -> (r: Self)
        ensures
            r == *self,
    {
        ConfigKey {
            data_id: self.data_id.clone(),
            group: self.group.clone(),
            tenant: self.tenant.clone(),
        }
    }
}

/// The mathematical value of a [`ConfigKey`]: its three fields as
/// character sequences.
pub ghost struct ConfigKeyV {
    pub data_id: Seq<char>,
    pub group: Seq<char>,
    pub tenant: Seq<char>,
}

impl View for ConfigKey {
    type V = ConfigKeyV;

    open spec fn view(&self) -> ConfigKeyV {
        ConfigKeyV { data_id: self.data_id@, group: self.group@, tenant: self.tenant@ }
    }
}

impl ConfigKey {
    /// A key built from its parts.
    pub fn new(data_id: String, group: String, tenant: String) -> (r: ConfigKey)
        ensures
            r@.data_id == data_id@,
            r@.group == group@,
            r@.tenant == tenant@,
    {
        ConfigKey { data_id, group, tenant }
    }

    /// Whether two keys identify the same entry: equal in all three fields.
    pub fn key_eq(&self, other: &ConfigKey) -> (r: bool)
        ensures
            r == (self@ == other@),
    {
        let r = self.data_id == other.data_id && self.group == other.group
            && self.tenant == other.tenant;
        proof {
            if r {
                assert(self@ == other@);
            }
        }
        r
    }
}

} // verus!
