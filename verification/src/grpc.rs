//! Request models and response interpretation for the wire exchanges.
//!
//! The transport serializes these models and hands back the plain values of
//! the server's answer; everything that decides what a request holds and
//! what an answer means is verified here.

use vstd::prelude::*;

use crate::config_key::{ConfigKey, ConfigKeyV};
use crate::conn_msg::{ConfigResponse, NamingResponse, ServiceResult};
use crate::digest::{content_digest, digest_of};
use crate::errors::ClientError;
use crate::instance::{
    meta_view, views_of, Instance, InstanceV, ServiceInstanceKey, ServiceKeyV,
};

verus! {

/// The status code a server puts on a successful answer.
pub const SUCCESS_CODE: u16 = 200;

/// The status code a server puts on a query for an absent entry.
pub const CONFIG_NOT_FOUND_CODE: u16 = 300;

/// Body of a single-entry configuration query.
pub struct ConfigQueryRequest {
    pub data_id: String,
    pub group: String,
    pub tenant: String,
}

/// Body of a configuration publish.
pub struct ConfigPublishRequest {
    pub data_id: String,
    pub group: String,
    pub tenant: String,
    pub content: String,
}

/// Body of a configuration removal.
pub struct ConfigRemoveRequest {
    pub data_id: String,
    pub group: String,
    pub tenant: String,
}

/// One subscription entry of a batched listen request: a key with the
/// digest last seen for it.
pub struct ConfigListenContext {
    pub data_id: String,
    pub group: String,
    pub tenant: String,
    pub md5: String,
}

/// The mathematical value of a [`ConfigListenContext`].
pub ghost struct ConfigListenContextV {
    pub key: ConfigKeyV,
    pub md5: Seq<char>,
}

impl View for ConfigListenContext {
    type V = ConfigListenContextV;

    open spec fn view(&self) -> ConfigListenContextV {
        ConfigListenContextV {
            key: ConfigKeyV { data_id: self.data_id@, group: self.group@, tenant: self.tenant@ },
            md5: self.md5@,
        }
    }
}

/// Body of the batched "which of these changed" exchange.
pub struct ConfigBatchListenRequest {
    pub listen: bool,
    pub config_listen_contexts: Vec<ConfigListenContext>,
}

/// The wire shape of an instance. Optional fields are absent-defaulted on
/// the way back in.
pub struct ApiInstance {
    pub ip: Option<String>,
    pub port: u32,
    pub weight: u64,
    pub enabled: bool,
    pub healthy: bool,
    pub ephemeral: bool,
    pub cluster_name: Option<String>,
    pub service_name: Option<String>,
    pub metadata: Vec<(String, String)>,
}

/// The mathematical value of an [`ApiInstance`].
pub ghost struct ApiInstanceV {
    pub ip: Option<Seq<char>>,
    pub port: u32,
    pub weight: u64,
    pub enabled: bool,
    pub healthy: bool,
    pub ephemeral: bool,
    pub cluster_name: Option<Seq<char>>,
    pub service_name: Option<Seq<char>>,
    pub metadata: Seq<(Seq<char>, Seq<char>)>,
}

fn clone_opt_string(o: &Option<String>) -> (r: Option<String>)
    ensures
        r == *o,
{
    match o {
        Some(s) => Some(s.clone()),
        None => None,
    }
}

impl Clone for ApiInstance {
    /// A copy with the same mathematical value.
    fn clone(&self) -> (r: Self)
        ensures
            r@ == self@,
    {
        ApiInstance {
            ip: clone_opt_string(&self.ip),
            port: self.port,
            weight: self.weight,
            enabled: self.enabled,
            healthy: self.healthy,
            ephemeral: self.ephemeral,
            cluster_name: clone_opt_string(&self.cluster_name),
            service_name: clone_opt_string(&self.service_name),
            metadata: crate::instance::clone_metadata_pairs(&self.metadata),
        }
    }
}

impl View for ApiInstance {
    type V = ApiInstanceV;

    open spec fn view(&self) -> ApiInstanceV {
        ApiInstanceV {
            ip: match self.ip {
                Some(ref s) => Some(s@),
                None => None,
            },
            port: self.port,
            weight: self.weight,
            enabled: self.enabled,
            healthy: self.healthy,
            ephemeral: self.ephemeral,
            cluster_name: match self.cluster_name {
                Some(ref s) => Some(s@),
                None => None,
            },
            service_name: match self.service_name {
                Some(ref s) => Some(s@),
                None => None,
            },
            metadata: meta_view(self.metadata@),
        }
    }
}

/// Body of a batched register or deregister of instances.
pub struct BatchInstanceRequest {
    pub namespace: Option<String>,
    pub service_name: Option<String>,
    pub group_name: Option<String>,
    pub request_type: String,
    pub instances: Vec<ApiInstance>,
}

/// Body of a service subscribe or unsubscribe.
pub struct SubscribeServiceRequest {
    pub namespace: Option<String>,
    pub group_name: Option<String>,
    pub service_name: Option<String>,
    pub subscribe: bool,
    pub clusters: Option<String>,
}

/// Body of a one-shot service query.
pub struct ServiceQueryRequest {
    pub namespace: Option<String>,
    pub group_name: Option<String>,
    pub service_name: Option<String>,
    pub cluster: Option<String>,
    pub healthy_only: Option<bool>,
}

/// The service payload of a subscribe or query answer: the instance list
/// and the validity duration the server grants the snapshot.
pub struct ServiceInfo {
    pub hosts: Option<Vec<ApiInstance>>,
    pub cache_millis: u64,
}

/// The string sequence an optional string holds, or the empty sequence.
pub open spec fn opt_or_empty(o: Option<Seq<char>>) -> Seq<char> {
    match o {
        Some(s) => s,
        None => Seq::<char>::empty(),
    }
}

/// The wire value an instance is sent as.
pub open spec fn api_of(v: InstanceV) -> ApiInstanceV {
    ApiInstanceV {
        ip: Some(v.ip),
        port: v.port,
        weight: v.weight,
        enabled: v.enabled,
        healthy: v.healthy,
        ephemeral: v.ephemeral,
        cluster_name: Some(v.cluster_name),
        service_name: Some(v.service_name),
        metadata: v.metadata,
    }
}

/// The instance value a wire instance stands for, under the service key
/// the exchange was made for.
pub open spec fn instance_of(a: ApiInstanceV, k: ServiceKeyV) -> InstanceV {
    InstanceV {
        ip: opt_or_empty(a.ip),
        port: a.port,
        weight: a.weight,
        enabled: a.enabled,
        healthy: a.healthy,
        ephemeral: a.ephemeral,
        cluster_name: opt_or_empty(a.cluster_name),
        service_name: opt_or_empty(a.service_name),
        group_name: k.group_name,
        namespace_id: opt_or_empty(k.namespace_id),
        metadata: a.metadata,
    }
}

/// The views of the wire instances in a vector, in order.
pub open spec fn api_views_of(s: Seq<ApiInstance>) -> Seq<ApiInstanceV> {
    s.map_values(|a: ApiInstance| a@)
}

fn opt_string_or_empty(o: Option<String>) -> (r: String)
    ensures
        r@ == opt_or_empty(match o {
            Some(ref s) => Some(s@),
            None => None,
        }),
{
    match o {
        Some(s) => s,
        None => String::new(),
    }
}

/// Builders and interpreters of the configuration exchanges.
pub struct InnerRequestUtils;

impl InnerRequestUtils {
    /// The query body for one key.
    pub fn config_query_request(config_key: ConfigKey) -> (r: ConfigQueryRequest)
        ensures
            r.data_id@ == config_key@.data_id,
            r.group@ == config_key@.group,
            r.tenant@ == config_key@.tenant,
    {
        ConfigQueryRequest {
            data_id: config_key.data_id,
            group: config_key.group,
            tenant: config_key.tenant,
        }
    }

    /// The publish body for one key and its new content.
    pub fn config_publish_request(config_key: ConfigKey, content: String) -> (r:
        ConfigPublishRequest)
        ensures
            r.data_id@ == config_key@.data_id,
            r.group@ == config_key@.group,
            r.tenant@ == config_key@.tenant,
            r.content@ == content@,
    {
        ConfigPublishRequest {
            data_id: config_key.data_id,
            group: config_key.group,
            tenant: config_key.tenant,
            content,
        }
    }

    /// The removal body for one key.
    pub fn config_remove_request(config_key: ConfigKey) -> (r: ConfigRemoveRequest)
        ensures
            r.data_id@ == config_key@.data_id,
            r.group@ == config_key@.group,
            r.tenant@ == config_key@.tenant,
    {
        ConfigRemoveRequest {
            data_id: config_key.data_id,
            group: config_key.group,
            tenant: config_key.tenant,
        }
    }

    /// The batched listen body for the gathered (key, digest) pairs.
    pub fn config_change_batch_listen_request(
        listen_items: Vec<(ConfigKey, String)>,
        listen: bool,
    ) -> (r: ConfigBatchListenRequest)
        ensures
            r.listen == listen,
            r.config_listen_contexts@.len() == listen_items@.len(),
            forall|i: int|
                0 <= i < listen_items@.len() ==> (#[trigger] r.config_listen_contexts@[i])@
                    == (ConfigListenContextV {
                    key: listen_items@[i].0@,
                    md5: listen_items@[i].1@,
                }),
    {
        let mut contexts: Vec<ConfigListenContext> = Vec::new();
        let mut i: usize = 0;
        while i < listen_items.len()
            invariant
                i <= listen_items@.len(),
                contexts@.len() == i,
                forall|j: int|
                    0 <= j < i ==> (#[trigger] contexts@[j])@ == (ConfigListenContextV {
                        key: listen_items@[j].0@,
                        md5: listen_items@[j].1@,
                    }),
            decreases listen_items@.len() - i,
        {
            let config_key = &listen_items[i].0;
            contexts.push(ConfigListenContext {
                data_id: config_key.data_id.clone(),
                group: config_key.group.clone(),
                tenant: config_key.tenant.clone(),
                md5: listen_items[i].1.clone(),
            });
            i = i + 1;
        }
        ConfigBatchListenRequest { listen, config_listen_contexts: contexts }
    }

    /// The answer of a single-entry query: the content and its digest on
    /// success, `NotFound` for an absent entry, `ProtocolError` otherwise.
    pub fn interpret_config_query(error_code: u16, content: String) -> (r: Result<
        ConfigResponse,
        ClientError,
    >)
        ensures
            error_code == SUCCESS_CODE ==> (r matches Ok(ConfigResponse::ConfigValue(c, d))
                && c@ == content@ && d@ == digest_of(content@)),
            error_code == CONFIG_NOT_FOUND_CODE ==> r == Err::<ConfigResponse, ClientError>(
                ClientError::NotFound,
            ),
            error_code != SUCCESS_CODE && error_code != CONFIG_NOT_FOUND_CODE ==> r == Err::<
                ConfigResponse,
                ClientError,
            >(ClientError::ProtocolError),
    {
        if error_code == SUCCESS_CODE {
            let d = content_digest(content.as_str());
            Ok(ConfigResponse::ConfigValue(content, d))
        } else if error_code == CONFIG_NOT_FOUND_CODE {
            Err(ClientError::NotFound)
        } else {
            Err(ClientError::ProtocolError)
        }
    }

    /// The answer of an exchange that only acknowledges: success exactly on
    /// the success status code.
    pub fn interpret_base_response(error_code: u16) -> (r: Result<ConfigResponse, ClientError>)
        ensures
            error_code == SUCCESS_CODE ==> r == Ok::<ConfigResponse, ClientError>(
                ConfigResponse::Ack,
            ),
            error_code != SUCCESS_CODE ==> r == Err::<ConfigResponse, ClientError>(
                ClientError::ProtocolError,
            ),
    {
        if error_code == SUCCESS_CODE {
            Ok(ConfigResponse::Ack)
        } else {
            Err(ClientError::ProtocolError)
        }
    }

    /// The answer of the batched listen exchange: the keys the server
    /// reports as changed.
    pub fn interpret_config_change_batch_listen(
        error_code: u16,
        changed_configs: Vec<ConfigListenContext>,
    ) -> (r: Result<ConfigResponse, ClientError>)
        ensures
            error_code != SUCCESS_CODE ==> r == Err::<ConfigResponse, ClientError>(
                ClientError::ProtocolError,
            ),
            error_code == SUCCESS_CODE ==> (r matches Ok(ConfigResponse::ChangeKeys(keys))
                && keys@.len() == changed_configs@.len() && (forall|i: int|
                0 <= i < changed_configs@.len() ==> (#[trigger] keys@[i])@
                    == (changed_configs@[i])@.key)),
    {
        if error_code != SUCCESS_CODE {
            return Err(ClientError::ProtocolError);
        }
        let mut keys: Vec<ConfigKey> = Vec::new();
        let mut i: usize = 0;
        while i < changed_configs.len()
            invariant
                i <= changed_configs@.len(),
                keys@.len() == i,
                forall|j: int|
                    0 <= j < i ==> (#[trigger] keys@[j])@ == (changed_configs@[j])@.key,
            decreases changed_configs@.len() - i,
        {
            let e = &changed_configs[i];
            keys.push(ConfigKey {
                tenant: e.tenant.clone(),
                data_id: e.data_id.clone(),
                group: e.group.clone(),
            });
            i = i + 1;
        }
        Ok(ConfigResponse::ChangeKeys(keys))
    }
}

/// Builders and interpreters of the naming exchanges.
pub struct GrpcNamingRequestUtils;

impl GrpcNamingRequestUtils {
    /// The wire shape of one instance.
    pub fn convert_to_api_instance(input: Instance) -> (r: ApiInstance)
        ensures
            r@ == api_of(input@),
    {
        ApiInstance {
            ip: Some(input.ip),
            port: input.port,
            weight: input.weight,
            enabled: input.enabled,
            healthy: input.healthy,
            ephemeral: input.ephemeral,
            cluster_name: Some(input.cluster_name),
            service_name: Some(input.service_name),
            metadata: input.metadata,
        }
    }

    /// The instance a wire instance stands for, under the service key the
    /// exchange was made for.
    pub fn convert_to_instance(input: ApiInstance, service_key: &ServiceInstanceKey) -> (r:
        Instance)
        ensures
            r@ == instance_of(input@, service_key@),
    {
        Instance {
            ip: opt_string_or_empty(input.ip),
            port: input.port,
            weight: input.weight,
            enabled: input.enabled,
            healthy: input.healthy,
            ephemeral: input.ephemeral,
            cluster_name: opt_string_or_empty(input.cluster_name),
            service_name: opt_string_or_empty(input.service_name),
            metadata: input.metadata,
            group_name: service_key.group_name.clone(),
            namespace_id: opt_string_or_empty(service_key.namespace_id.clone()),
        }
    }

    /// The batched register or deregister body. The batch takes its
    /// namespace, service and group from its first instance; an empty batch
    /// is refused.
    pub fn batch_register_request(instances: Vec<Instance>, is_register: bool) -> (r: Result<
        BatchInstanceRequest,
        ClientError,
    >)
        ensures
            instances@.len() == 0 ==> r == Err::<BatchInstanceRequest, ClientError>(
                ClientError::ProtocolError,
            ),
            instances@.len() > 0 ==> ({
                &&& r matches Ok(req)
                &&& req.namespace matches Some(ns)
                &&& ns@ == instances@[0]@.namespace_id
                &&& req.service_name matches Some(sn)
                &&& sn@ == instances@[0]@.service_name
                &&& req.group_name matches Some(gn)
                &&& gn@ == instances@[0]@.group_name
                &&& req.request_type@ == (if is_register {
                    "registerInstance"@
                } else {
                    "deregisterInstance"@
                })
                &&& req.instances@.len() == instances@.len()
                &&& forall|i: int|
                    0 <= i < instances@.len() ==> (#[trigger] req.instances@[i])@ == api_of(
                        instances@[i]@,
                    )
            }),
    {
        if instances.len() == 0 {
            return Err(ClientError::ProtocolError);
        }
        let first = &instances[0];
        let namespace = Some(first.namespace_id.clone());
        let service_name = Some(first.service_name.clone());
        let group_name = Some(first.group_name.clone());
        let request_type = if is_register {
            "registerInstance".to_string()
        } else {
            "deregisterInstance".to_string()
        };
        let mut api_instances: Vec<ApiInstance> = Vec::new();
        let mut i: usize = 0;
        while i < instances.len()
            invariant
                i <= instances@.len(),
                api_instances@.len() == i,
                forall|j: int|
                    0 <= j < i ==> (#[trigger] api_instances@[j])@ == api_of((instances@[j])@),
            decreases instances@.len() - i,
        {
            api_instances.push(Self::convert_to_api_instance(instances[i].clone()));
            i = i + 1;
        }
        Ok(BatchInstanceRequest {
            namespace,
            service_name,
            group_name,
            request_type,
            instances: api_instances,
        })
    }

    /// The subscribe or unsubscribe body for one service key.
    pub fn subscribe_request(
        service_key: ServiceInstanceKey,
        is_subscribe: bool,
        clusters: Option<String>,
    ) -> (r: SubscribeServiceRequest)
        ensures
            r.namespace == service_key.namespace_id,
            r.group_name matches Some(gn) && gn@ == service_key@.group_name,
            r.service_name matches Some(sn) && sn@ == service_key@.service_name,
            r.subscribe == is_subscribe,
            r.clusters == clusters,
    {
        SubscribeServiceRequest {
            namespace: service_key.namespace_id,
            group_name: Some(service_key.group_name),
            service_name: Some(service_key.service_name),
            subscribe: is_subscribe,
            clusters,
        }
    }

    /// The one-shot query body for one service key.
    pub fn service_query_request(
        service_key: ServiceInstanceKey,
        cluster: Option<String>,
        healthy_only: Option<bool>,
    ) -> (r: ServiceQueryRequest)
        ensures
            r.namespace == service_key.namespace_id,
            r.group_name matches Some(gn) && gn@ == service_key@.group_name,
            r.service_name matches Some(sn) && sn@ == service_key@.service_name,
            r.cluster == cluster,
            r.healthy_only == healthy_only,
    {
        ServiceQueryRequest {
            namespace: service_key.namespace_id,
            group_name: Some(service_key.group_name),
            service_name: Some(service_key.service_name),
            cluster,
            healthy_only,
        }
    }

    /// The answer of a subscribe or query exchange: a fresh snapshot when
    /// the server sent one, an empty acknowledgement when it sent none, and
    /// `ProtocolError` on a non-success status code.
    pub fn interpret_service_response(
        error_code: u16,
        service_info: Option<ServiceInfo>,
        service_key: &ServiceInstanceKey,
    ) -> (r: Result<NamingResponse, ClientError>)
        ensures
            error_code != SUCCESS_CODE ==> r == Err::<NamingResponse, ClientError>(
                ClientError::ProtocolError,
            ),
            error_code == SUCCESS_CODE && service_info is None ==> r == Ok::<
                NamingResponse,
                ClientError,
            >(NamingResponse::Ack),
            service_info matches Some(info) ==> error_code == SUCCESS_CODE ==> ({
                &&& r matches Ok(NamingResponse::ServiceResult(sr))
                &&& sr.cache_millis == info.cache_millis
                &&& views_of(sr.hosts@) == (match info.hosts {
                    Some(hs) => api_views_of(hs@),
                    None => Seq::<ApiInstanceV>::empty(),
                }).map_values(|a: ApiInstanceV| instance_of(a, service_key@))
            }),
    {
        if error_code != SUCCESS_CODE {
            return Err(ClientError::ProtocolError);
        }
        match service_info {
            None => Ok(NamingResponse::Ack),
            Some(info) => {
                let api_hosts = match info.hosts {
                    Some(hs) => hs,
                    None => Vec::new(),
                };
                let mut hosts: Vec<Instance> = Vec::new();
                let mut i: usize = 0;
                while i < api_hosts.len()
                    invariant
                        i <= api_hosts@.len(),
                        hosts@.len() == i,
                        forall|j: int|
                            0 <= j < i ==> (#[trigger] hosts@[j])@ == instance_of(
                                (api_hosts@[j])@,
                                service_key@,
                            ),
                    decreases api_hosts@.len() - i,
                {
                    hosts.push(Self::convert_to_instance(api_hosts[i].clone(), service_key));
                    i = i + 1;
                }
                proof {
                    assert(views_of(hosts@) =~= api_views_of(api_hosts@).map_values(
                        |a: ApiInstanceV| instance_of(a, service_key@),
                    ));
                }
                Ok(NamingResponse::ServiceResult(ServiceResult {
                    cache_millis: info.cache_millis,
                    hosts,
                }))
            },
        }
    }
}

} // verus!
