use nacos_client::conn_msg::{NamingResponse, ServiceResult};
use nacos_client::errors::ClientError;
use nacos_client::grpc::{ApiInstance, GrpcNamingRequestUtils, ServiceInfo};
use nacos_client::instance::{Instance, ServiceInstanceKey};
use nacos_client::naming_service::NamingService;
use nacos_client::rng::SelectionRng;

fn foo_key() -> ServiceInstanceKey {
    ServiceInstanceKey::new(None, "DEFAULT_GROUP".to_string(), "foo".to_string())
}

fn inst(ip: &str, port: u32) -> Instance {
    Instance::new(
        ip.to_string(),
        port,
        "foo".to_string(),
        "DEFAULT_GROUP".to_string(),
    )
}

#[test]
fn register_then_deregister_updates_the_local_set() {
    let mut svc = NamingService::new();
    svc.register(inst("10.0.0.1", 8080));
    svc.register(inst("10.0.0.2", 8080));
    assert_eq!(svc.registered_snapshot().len(), 2);

    // Re-registering the same endpoint replaces it, not duplicates it.
    let mut again = inst("10.0.0.1", 8080);
    again.weight = 5;
    svc.register(again);
    let snapshot = svc.registered_snapshot();
    assert_eq!(snapshot.len(), 2);
    assert!(snapshot.iter().any(|i| i.ip == "10.0.0.1" && i.weight == 5));

    svc.deregister(&inst("10.0.0.1", 8080));
    let snapshot = svc.registered_snapshot();
    assert_eq!(snapshot.len(), 1);
    assert_eq!(snapshot[0].ip, "10.0.0.2");

    // Deregistering an absent endpoint is accepted silently.
    svc.deregister(&inst("10.0.0.1", 8080));
    assert_eq!(svc.registered_snapshot().len(), 1);
}

#[test]
fn snapshot_transition_reports_exact_deltas() {
    let mut svc = NamingService::new();
    let key = foo_key();
    svc.subscribe(key.clone(), 7);

    let a1 = inst("10.0.0.1", 8080);
    let a2 = inst("10.0.0.2", 8080);
    let first = svc.on_service_update(
        &key,
        ServiceResult { hosts: vec![a1, a2], cache_millis: 10_000 },
        100,
    );
    assert_eq!(first.listeners, vec![7]);
    assert_eq!(first.added.len(), 2);
    assert!(first.removed.is_empty());

    // 10.0.0.2 stays (with a new weight), 10.0.0.1 leaves, 10.0.0.3 joins.
    let mut a2_new = inst("10.0.0.2", 8080);
    a2_new.weight = 3;
    let a3 = inst("10.0.0.3", 8080);
    let second = svc.on_service_update(
        &key,
        ServiceResult { hosts: vec![a2_new, a3], cache_millis: 10_000 },
        200,
    );
    assert_eq!(second.listeners, vec![7]);
    assert_eq!(second.added.len(), 1);
    assert_eq!(second.added[0].ip, "10.0.0.3");
    assert_eq!(second.removed.len(), 1);
    assert_eq!(second.removed[0].ip, "10.0.0.1");
    assert_eq!(second.hosts.len(), 2);
    assert_eq!(second.hosts[0].ip, "10.0.0.2");
    assert_eq!(second.hosts[0].weight, 3);
    assert_eq!(second.hosts[1].ip, "10.0.0.3");
}

#[test]
fn update_with_no_deltas_still_dispatches_once() {
    let mut svc = NamingService::new();
    let key = foo_key();
    svc.subscribe(key.clone(), 3);
    svc.on_service_update(
        &key,
        ServiceResult { hosts: vec![inst("10.0.0.1", 8080)], cache_millis: 1000 },
        0,
    );
    let update = svc.on_service_update(
        &key,
        ServiceResult { hosts: vec![inst("10.0.0.1", 8080)], cache_millis: 1000 },
        10,
    );
    assert!(update.added.is_empty());
    assert!(update.removed.is_empty());
    assert_eq!(update.listeners, vec![3]);
    assert_eq!(update.hosts.len(), 1);
}

#[test]
fn unsubscribe_twice_is_a_no_op_for_services() {
    let mut svc = NamingService::new();
    let key = foo_key();
    svc.subscribe(key.clone(), 1);
    svc.unsubscribe(&key);
    let update = svc.on_service_update(
        &key,
        ServiceResult { hosts: vec![inst("10.0.0.1", 8080)], cache_millis: 1000 },
        0,
    );
    // The entry is gone: nobody is invoked for the late update.
    assert!(update.listeners.is_empty());
    svc.unsubscribe(&key);
    svc.unsubscribe(&key);
}

#[test]
fn cache_freshness_follows_the_validity_window() {
    let mut svc = NamingService::new();
    let key = foo_key();
    assert!(svc.cache_needs_refresh(&key, 0));
    svc.subscribe(key.clone(), 1);
    assert!(svc.cache_needs_refresh(&key, 0));
    svc.on_service_update(
        &key,
        ServiceResult { hosts: vec![inst("10.0.0.1", 8080)], cache_millis: 1000 },
        100,
    );
    assert!(!svc.cache_needs_refresh(&key, 100));
    assert!(!svc.cache_needs_refresh(&key, 1100));
    assert!(svc.cache_needs_refresh(&key, 1101));
}

#[test]
fn end_to_end_register_subscribe_and_select() {
    let key = foo_key();

    // One process registers itself.
    let mut registrar = NamingService::new();
    registrar.register(inst("10.0.0.1", 8080));
    let batch = registrar.registered_snapshot();
    let request = GrpcNamingRequestUtils::batch_register_request(batch, true).unwrap();
    assert_eq!(request.request_type, "registerInstance");
    let wire_hosts = request.instances;

    // A second client view subscribes and receives the server's snapshot.
    let info = ServiceInfo { hosts: Some(wire_hosts), cache_millis: 10_000 };
    let response =
        GrpcNamingRequestUtils::interpret_service_response(200, Some(info), &key).unwrap();
    let result = match response {
        NamingResponse::ServiceResult(r) => r,
        NamingResponse::Ack => panic!("expected a snapshot"),
    };

    let mut watcher = NamingService::new();
    watcher.subscribe(key.clone(), 42);
    let update = watcher.on_service_update(&key, result, 50);
    assert_eq!(update.listeners, vec![42]);
    assert_eq!(update.added.len(), 1);
    assert_eq!(update.added[0].ip, "10.0.0.1");
    assert_eq!(update.added[0].port, 8080);

    let mut rng = SelectionRng::new(7);
    let picked = watcher.select_instance(&key, &mut rng).unwrap();
    assert_eq!(picked.ip, "10.0.0.1");
    assert_eq!(picked.port, 8080);
}

#[test]
fn empty_register_batch_is_refused() {
    let r = GrpcNamingRequestUtils::batch_register_request(Vec::new(), true);
    assert!(matches!(r, Err(ClientError::ProtocolError)));
    let one = GrpcNamingRequestUtils::batch_register_request(vec![inst("10.0.0.1", 80)], false)
        .unwrap();
    assert_eq!(one.request_type, "deregisterInstance");
    assert_eq!(one.instances.len(), 1);
    assert_eq!(one.service_name.as_deref(), Some("foo"));
}

#[test]
fn wire_instances_convert_in_both_directions() {
    let mut original = inst("10.0.0.1", 8080);
    original.cluster_name = "c1".to_string();
    original.metadata = vec![("zone".to_string(), "b".to_string())];
    let api = GrpcNamingRequestUtils::convert_to_api_instance(original);
    assert_eq!(api.ip.as_deref(), Some("10.0.0.1"));
    assert_eq!(api.port, 8080);
    assert_eq!(api.cluster_name.as_deref(), Some("c1"));
    assert_eq!(api.metadata.len(), 1);

    let key = foo_key();
    let back = GrpcNamingRequestUtils::convert_to_instance(api, &key);
    assert_eq!(back.ip, "10.0.0.1");
    assert_eq!(back.port, 8080);
    assert_eq!(back.cluster_name, "c1");
    assert_eq!(back.group_name, "DEFAULT_GROUP");
    assert_eq!(back.namespace_id, "");
    assert_eq!(back.metadata, vec![("zone".to_string(), "b".to_string())]);
}

#[test]
fn absent_wire_fields_default_to_empty() {
    let api = ApiInstance {
        ip: None,
        port: 80,
        weight: 1,
        enabled: true,
        healthy: true,
        ephemeral: true,
        cluster_name: None,
        service_name: None,
        metadata: Vec::new(),
    };
    let key = foo_key();
    let back = GrpcNamingRequestUtils::convert_to_instance(api, &key);
    assert_eq!(back.ip, "");
    assert_eq!(back.cluster_name, "");
    assert_eq!(back.service_name, "");
}

#[test]
fn service_answers_interpret_by_status_and_payload() {
    let key = foo_key();
    let r = GrpcNamingRequestUtils::interpret_service_response(500, None, &key);
    assert!(matches!(r, Err(ClientError::ProtocolError)));
    let r = GrpcNamingRequestUtils::interpret_service_response(200, None, &key).unwrap();
    assert!(matches!(r, NamingResponse::Ack));
    let info = ServiceInfo { hosts: None, cache_millis: 99 };
    let r = GrpcNamingRequestUtils::interpret_service_response(200, Some(info), &key).unwrap();
    match r {
        NamingResponse::ServiceResult(sr) => {
            assert!(sr.hosts.is_empty());
            assert_eq!(sr.cache_millis, 99);
        }
        NamingResponse::Ack => panic!("expected a snapshot"),
    }
}

#[test]
fn subscribe_and_query_requests_carry_the_key() {
    let req = GrpcNamingRequestUtils::subscribe_request(foo_key(), true, None);
    assert_eq!(req.group_name.as_deref(), Some("DEFAULT_GROUP"));
    assert_eq!(req.service_name.as_deref(), Some("foo"));
    assert!(req.subscribe);
    let req = GrpcNamingRequestUtils::service_query_request(foo_key(), None, Some(true));
    assert_eq!(req.service_name.as_deref(), Some("foo"));
    assert_eq!(req.healthy_only, Some(true));
}
