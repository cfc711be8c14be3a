use std::collections::HashMap;

use nacos_client::config_service::{get_config_result, ConfigService};
use nacos_client::conn_msg::ConfigResponse;
use nacos_client::digest::content_digest;
use nacos_client::errors::ClientError;
use nacos_client::grpc::{InnerRequestUtils, CONFIG_NOT_FOUND_CODE, SUCCESS_CODE};

#[test]
fn digest_is_a_checksum_of_the_content() {
    assert_eq!(content_digest("abc"), "900150983cd24fb0d6963f7d28e17f72");
    assert_ne!(content_digest("abc"), content_digest("abd"));
    assert_eq!(content_digest("abc"), content_digest("abc"));
}

#[test]
fn gene_config_key_carries_the_tenant() {
    let svc = ConfigService::new("tenant-a".to_string());
    let key = svc.gene_config_key("app.properties", "DEFAULT_GROUP");
    assert_eq!(key.data_id, "app.properties");
    assert_eq!(key.group, "DEFAULT_GROUP");
    assert_eq!(key.tenant, "tenant-a");
}

#[test]
fn subscribe_then_change_invokes_listener_and_stores_digest() {
    let mut svc = ConfigService::new(String::new());
    let key = svc.gene_config_key("app.properties", "DEFAULT_GROUP");
    let seed = "v0".to_string();
    svc.subscribe_with_key(key.clone(), 1, Some(&seed));
    assert_eq!(svc.subscription_digest(&key), Some(content_digest("v0")));

    let listeners = svc.on_config_changed(&key, "v1");
    assert_eq!(listeners, vec![1]);
    assert_eq!(svc.subscription_digest(&key), Some(content_digest("v1")));

    let listeners = svc.on_config_changed(&key, "v2");
    assert_eq!(listeners, vec![1]);
    assert_eq!(svc.subscription_digest(&key), Some(content_digest("v2")));
}

#[test]
fn subscribe_without_content_seeds_the_empty_digest() {
    let mut svc = ConfigService::new(String::new());
    let key = svc.gene_config_key("missing", "DEFAULT_GROUP");
    svc.subscribe_with_key(key.clone(), 9, None);
    assert_eq!(svc.subscription_digest(&key), Some(String::new()));
    let items = svc.listen_items();
    assert_eq!(items.len(), 1);
    assert_eq!(items[0].0.data_id, "missing");
    assert_eq!(items[0].1, "");
}

#[test]
fn change_for_unsubscribed_key_invokes_nobody() {
    let mut svc = ConfigService::new(String::new());
    let key = svc.gene_config_key("gone", "DEFAULT_GROUP");
    let listeners = svc.on_config_changed(&key, "v1");
    assert!(listeners.is_empty());
    assert_eq!(svc.subscription_digest(&key), None);
}

#[test]
fn unsubscribe_twice_is_a_no_op_the_second_time() {
    let mut svc = ConfigService::new(String::new());
    let key = svc.gene_config_key("app.properties", "DEFAULT_GROUP");
    let seed = "v0".to_string();
    svc.subscribe_with_key(key.clone(), 1, Some(&seed));
    svc.subscribe_with_key(key.clone(), 2, Some(&seed));
    assert_eq!(svc.listeners_of(&key), vec![1, 2]);

    svc.unsubscribe(&key);
    assert_eq!(svc.subscription_digest(&key), None);
    assert!(svc.listeners_of(&key).is_empty());
    assert_eq!(svc.listen_items().len(), 0);

    svc.unsubscribe(&key);
    assert_eq!(svc.subscription_digest(&key), None);
    assert_eq!(svc.listen_items().len(), 0);
}

#[test]
fn batch_listen_request_carries_every_pair() {
    let svc = ConfigService::new(String::new());
    let k1 = svc.gene_config_key("a", "g1");
    let k2 = svc.gene_config_key("b", "g2");
    let req = InnerRequestUtils::config_change_batch_listen_request(
        vec![(k1, "d1".to_string()), (k2, "d2".to_string())],
        true,
    );
    assert!(req.listen);
    assert_eq!(req.config_listen_contexts.len(), 2);
    assert_eq!(req.config_listen_contexts[0].data_id, "a");
    assert_eq!(req.config_listen_contexts[0].md5, "d1");
    assert_eq!(req.config_listen_contexts[1].group, "g2");
    assert_eq!(req.config_listen_contexts[1].md5, "d2");
}

#[test]
fn batch_listen_answer_yields_the_changed_keys() {
    let svc = ConfigService::new(String::new());
    let k1 = svc.gene_config_key("a", "g1");
    let req =
        InnerRequestUtils::config_change_batch_listen_request(vec![(k1, String::new())], true);
    let res =
        InnerRequestUtils::interpret_config_change_batch_listen(200, req.config_listen_contexts);
    match res {
        Ok(ConfigResponse::ChangeKeys(keys)) => {
            assert_eq!(keys.len(), 1);
            assert_eq!(keys[0].data_id, "a");
            assert_eq!(keys[0].group, "g1");
        }
        _ => panic!("expected changed keys"),
    }
    let res = InnerRequestUtils::interpret_config_change_batch_listen(500, Vec::new());
    assert!(matches!(res, Err(ClientError::ProtocolError)));
}

// A minimal in-memory configuration server: the round-trip scenarios run
// the verified request builders and answer interpreters against it.
struct MemoryServer {
    entries: HashMap<(String, String, String), String>,
}

impl MemoryServer {
    fn new() -> MemoryServer {
        MemoryServer { entries: HashMap::new() }
    }

    fn publish(&mut self, key: (String, String, String), content: String) -> u16 {
        self.entries.insert(key, content);
        SUCCESS_CODE
    }

    fn remove(&mut self, key: &(String, String, String)) -> u16 {
        self.entries.remove(key);
        SUCCESS_CODE
    }

    fn query(&self, key: &(String, String, String)) -> (u16, String) {
        match self.entries.get(key) {
            Some(content) => (SUCCESS_CODE, content.clone()),
            None => (CONFIG_NOT_FOUND_CODE, String::new()),
        }
    }
}

#[test]
fn set_then_get_round_trips_and_delete_yields_not_found() {
    let mut server = MemoryServer::new();
    let svc = ConfigService::new(String::new());
    let key = svc.gene_config_key("app.properties", "DEFAULT_GROUP");

    let publish = InnerRequestUtils::config_publish_request(key.clone(), "v1".to_string());
    let code = server.publish(
        (publish.data_id, publish.group, publish.tenant),
        publish.content,
    );
    assert!(matches!(
        InnerRequestUtils::interpret_base_response(code),
        Ok(ConfigResponse::Ack)
    ));

    let query = InnerRequestUtils::config_query_request(key.clone());
    let (code, content) = server.query(&(query.data_id, query.group, query.tenant));
    let resp = InnerRequestUtils::interpret_config_query(code, content).unwrap();
    assert_eq!(get_config_result(resp).unwrap(), "v1");

    let remove = InnerRequestUtils::config_remove_request(key.clone());
    let code = server.remove(&(remove.data_id, remove.group, remove.tenant));
    assert!(matches!(
        InnerRequestUtils::interpret_base_response(code),
        Ok(ConfigResponse::Ack)
    ));

    let query = InnerRequestUtils::config_query_request(key.clone());
    let (code, content) = server.query(&(query.data_id, query.group, query.tenant));
    let resp = InnerRequestUtils::interpret_config_query(code, content);
    assert!(matches!(resp, Err(ClientError::NotFound)));
}

#[test]
fn unexpected_answer_shape_is_a_protocol_error() {
    let resp = InnerRequestUtils::interpret_config_query(500, String::new());
    assert!(matches!(resp, Err(ClientError::ProtocolError)));
    let r = get_config_result(ConfigResponse::Ack);
    assert!(matches!(r, Err(ClientError::ProtocolError)));
}

#[test]
fn error_kinds_describe_themselves() {
    assert_eq!(ClientError::NotFound.describe(), "not found");
    assert_eq!(ClientError::ConnectionError.describe(), "connection error");
    assert_eq!(ClientError::Timeout.describe(), "timeout");
}
