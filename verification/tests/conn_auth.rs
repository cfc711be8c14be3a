use nacos_client::auth::AuthSession;
use nacos_client::conn::{ConnManager, SendAction, SendOutcome};
use nacos_client::errors::ClientError;

fn endpoints() -> Vec<String> {
    vec![
        "127.0.0.1:8848".to_string(),
        "127.0.0.2:8848".to_string(),
        "127.0.0.3:8848".to_string(),
    ]
}

// A transport stand-in: endpoint liveness by index.
fn send(live: &[bool], endpoint: usize) -> SendOutcome {
    if live[endpoint] {
        SendOutcome::Delivered
    } else {
        SendOutcome::TransportFailed
    }
}

fn drive_request(manager: &mut ConnManager, live: &[bool]) -> Result<usize, ClientError> {
    let mut endpoint = manager.begin_attempt();
    let mut tried: usize = 0;
    loop {
        let outcome = send(live, endpoint);
        match manager.on_send_outcome(outcome, tried, false) {
            SendAction::Done => return Ok(endpoint),
            SendAction::UseEndpoint(next) => {
                endpoint = next;
                tried += 1;
            }
            SendAction::Fail(e) => return Err(e),
            SendAction::RefreshAndRetry(_) => unreachable!(),
        }
    }
}

#[test]
fn failure_mid_request_fails_over_to_the_next_live_endpoint() {
    let mut manager = ConnManager::new(endpoints());
    // The active endpoint dies mid-request; the attempt rotates and
    // completes on a live endpoint without a restart.
    let live = [false, true, true];
    assert_eq!(drive_request(&mut manager, &live), Ok(1));
    // The next request starts directly at the endpoint that worked.
    assert_eq!(manager.begin_attempt(), 1);
    assert_eq!(drive_request(&mut manager, &live), Ok(1));
    // That one dies too; the next send still succeeds on the remaining one.
    let live = [false, false, true];
    assert_eq!(drive_request(&mut manager, &live), Ok(2));
}

#[test]
fn exhausting_every_endpoint_fails_the_attempt() {
    let mut manager = ConnManager::new(endpoints());
    let live = [false, false, false];
    assert_eq!(drive_request(&mut manager, &live), Err(ClientError::ConnectionError));
    // A later request succeeds once an endpoint is reachable again.
    let live = [true, false, false];
    assert_eq!(drive_request(&mut manager, &live), Ok(0));
}

#[test]
fn auth_rejection_forces_one_refresh_then_fails() {
    let mut manager = ConnManager::new(endpoints());
    let first = manager.on_send_outcome(SendOutcome::AuthRejected, 0, false);
    assert_eq!(first, SendAction::RefreshAndRetry(0));
    let second = manager.on_send_outcome(SendOutcome::AuthRejected, 0, true);
    assert_eq!(second, SendAction::Fail(ClientError::AuthError));
}

#[test]
fn token_lifecycle_schedules_refresh_before_expiry() {
    let mut session = AuthSession::new(true);
    assert!(session.needs_refresh(0));
    assert_eq!(session.token_for_request(), None);

    session.on_login_success("tok-1".to_string(), 1000, 0);
    assert_eq!(session.token_for_request().as_deref(), Some("tok-1"));
    assert_eq!(session.expiry, 1000);
    assert_eq!(session.refresh_at, 800);
    assert!(!session.needs_refresh(799));
    assert!(session.needs_refresh(800));

    // A failed refresh keeps the previous token in place.
    session.on_login_failure();
    assert_eq!(session.token_for_request().as_deref(), Some("tok-1"));
    assert_eq!(session.failures, 1);

    session.on_login_success("tok-2".to_string(), 1000, 900);
    assert_eq!(session.token_for_request().as_deref(), Some("tok-2"));
    assert_eq!(session.expiry, 1900);
    assert_eq!(session.refresh_at, 1700);
    assert_eq!(session.failures, 0);
}

#[test]
fn anonymous_sessions_never_ask_to_refresh() {
    let session = AuthSession::new(false);
    assert!(!session.needs_refresh(0));
    assert!(!session.needs_refresh(u64::MAX));
    assert_eq!(session.token_for_request(), None);
}
