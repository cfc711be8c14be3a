//! Logical requests and responses exchanged between the services and the
//! connection layer. The transport only carries them; their meaning is
//! interpreted here.

use vstd::prelude::*;

use crate::config_key::ConfigKey;
use crate::instance::Instance;

verus! {

/// A configuration answer from the server.
pub enum ConfigResponse {
    /// Full content of one entry together with its digest.
    ConfigValue(String, String),
    /// The keys the server reports as changed in a batched listen exchange.
    ChangeKeys(Vec<ConfigKey>),
    /// An acknowledgement carrying no data.
    Ack,
}

/// One cache entry for a service: the instance snapshot and the validity
/// duration (milliseconds) the server supplied for it. Replaced wholesale
/// on every successful fetch or push, never mutated in place.
pub struct ServiceResult {
    pub hosts: Vec<Instance>,
    pub cache_millis: u64,
}

/// A naming answer from the server.
pub enum NamingResponse {
    /// A fresh instance snapshot for a service.
    ServiceResult(ServiceResult),
    /// An acknowledgement carrying no data.
    Ack,
}

} // verus!
