use dsql_connect::config::{
    ConnectConfig, ConnectError, CredentialSource, DEFAULT_MAX_CONNECTIONS, DEFAULT_PORT,
};
use dsql_connect::connector::{Action, Connector, Event, Phase};

fn config(endpoint: &str, region: &str) -> ConnectConfig {
    ConnectConfig::new(endpoint.to_string(), region.to_string(), DEFAULT_PORT)
}

fn started(endpoint: &str) -> Connector {
    let mut c = Connector::new(config(endpoint, "us-east-1"));
    let a = c.step(Event::Start);
    assert!(matches!(
        a,
        Action::LoadCredentials { source: CredentialSource::DefaultChain, timeout_secs: 30 }
    ));
    c
}

fn connected(endpoint: &str, token: &str) -> Connector {
    let mut c = started(endpoint);
    c.step(Event::CredentialsLoaded);
    c.step(Event::TokenIssued(token.to_string()));
    assert!(matches!(c.step(Event::PoolOpened), Action::Ready));
    c
}

#[test]
fn handshake_receives_issued_token() {
    let mut c = started("test.cluster.local");
    match c.step(Event::CredentialsLoaded) {
        Action::RequestToken { hostname, region, timeout_secs } => {
            assert_eq!(hostname, "test.cluster.local");
            assert_eq!(region, "us-east-1");
            assert_eq!(timeout_secs, 30);
        }
        other => panic!("unexpected action {:?}", other),
    }
    match c.step(Event::TokenIssued("abc123".to_string())) {
        Action::OpenPool(req) => {
            assert_eq!(req.password, "abc123");
            assert_eq!(req.host, "test.cluster.local");
            assert_eq!(req.port, 5432);
            assert_eq!(req.database, "postgres");
            assert_eq!(req.username, "admin");
            assert_eq!(req.max_connections, 10);
            assert!(req.verify_full);
        }
        other => panic!("unexpected action {:?}", other),
    }
    assert_eq!(c.phase, Phase::AwaitingPool);
    assert!(matches!(c.step(Event::PoolOpened), Action::Ready));
    assert_eq!(c.phase, Phase::Connected);
    assert_eq!(c.open_connections, 1);
    assert_eq!(c.password, "abc123");
    assert_eq!(c.error, None);
}

#[test]
fn defaults_of_new_config() {
    let c = config("h", "r");
    assert_eq!(c.port, 5432);
    assert_eq!(c.database, "postgres");
    assert_eq!(c.username, "admin");
    assert_eq!(c.max_connections, DEFAULT_MAX_CONNECTIONS);
    assert_eq!(c.max_connections, 10);
    assert_eq!(c.validate(), Ok(()));
}

#[test]
fn empty_endpoint_is_rejected_before_any_call() {
    let mut c = Connector::new(config("", "us-east-1"));
    assert!(matches!(c.step(Event::Start), Action::Fail(ConnectError::InvalidEndpoint)));
    assert_eq!(c.phase, Phase::Failed);
    assert_eq!(c.error, Some(ConnectError::InvalidEndpoint));
}

#[test]
fn empty_region_is_rejected() {
    assert_eq!(config("h", "").validate(), Err(ConnectError::InvalidRegion));
    let mut c = Connector::new(config("h", ""));
    assert!(matches!(c.step(Event::Start), Action::Fail(ConnectError::InvalidRegion)));
}

#[test]
fn empty_pool_is_rejected() {
    let mut cfg = config("h", "r");
    cfg.max_connections = 0;
    assert_eq!(cfg.validate(), Err(ConnectError::InvalidPoolSize));
    let mut c = Connector::new(cfg);
    assert!(matches!(c.step(Event::Start), Action::Fail(ConnectError::InvalidPoolSize)));
}

#[test]
fn missing_credentials_fail_without_network() {
    let mut c = started("test.cluster.local");
    assert!(matches!(
        c.step(Event::CredentialsMissing),
        Action::Fail(ConnectError::CredentialError)
    ));
    assert_eq!(c.error, Some(ConnectError::CredentialError));
    assert!(matches!(c.step(Event::CredentialsLoaded), Action::NoOp));
    assert!(matches!(c.step(Event::TokenIssued("abc123".to_string())), Action::NoOp));
    assert!(matches!(c.step(Event::PoolOpened), Action::NoOp));
    assert_eq!(c.phase, Phase::Failed);
}

#[test]
fn token_failure_never_opens_pool() {
    let mut c = started("test.cluster.local");
    c.step(Event::CredentialsLoaded);
    assert!(matches!(
        c.step(Event::TokenFailed),
        Action::Fail(ConnectError::TokenGenerationError)
    ));
    assert!(matches!(c.step(Event::TokenIssued("abc123".to_string())), Action::NoOp));
    assert!(matches!(c.step(Event::PoolOpened), Action::NoOp));
    assert_eq!(c.error, Some(ConnectError::TokenGenerationError));
}

#[test]
fn empty_token_counts_as_token_failure() {
    let mut c = started("test.cluster.local");
    c.step(Event::CredentialsLoaded);
    assert!(matches!(
        c.step(Event::TokenIssued(String::new())),
        Action::Fail(ConnectError::TokenGenerationError)
    ));
}

#[test]
fn rejected_token_never_yields_pool() {
    let mut c = started("test.cluster.local");
    c.step(Event::CredentialsLoaded);
    c.step(Event::TokenIssued("expired".to_string()));
    assert!(matches!(
        c.step(Event::PoolRejected),
        Action::Fail(ConnectError::ConnectionError)
    ));
    assert!(matches!(c.step(Event::PoolOpened), Action::NoOp));
    assert_eq!(c.phase, Phase::Failed);
    assert_eq!(c.open_connections, 0);
    assert_eq!(c.error, Some(ConnectError::ConnectionError));
}

#[test]
fn two_attempts_give_independent_pools() {
    let mut a = connected("test.cluster.local", "abc123");
    let b = connected("test.cluster.local", "abc123");
    assert_eq!(a.password, b.password);
    assert!(matches!(a.step(Event::Close), Action::ClosePool));
    assert_eq!(a.phase, Phase::Closed);
    assert_eq!(a.open_connections, 0);
    assert_eq!(b.phase, Phase::Connected);
    assert_eq!(b.open_connections, 1);
}

#[test]
fn close_before_connecting_needs_no_pool_close() {
    let mut c = started("h");
    assert!(matches!(c.step(Event::Close), Action::NoOp));
    assert_eq!(c.phase, Phase::Closed);
    assert!(matches!(c.step(Event::CredentialsLoaded), Action::NoOp));
    assert!(matches!(c.step(Event::Close), Action::NoOp));
}

#[test]
fn events_out_of_order_are_ignored() {
    let mut c = Connector::new(config("h", "r"));
    assert!(matches!(c.step(Event::PoolOpened), Action::NoOp));
    assert_eq!(c.phase, Phase::Idle);
    c.step(Event::Start);
    assert!(matches!(c.step(Event::TokenFailed), Action::NoOp));
    assert_eq!(c.phase, Phase::AwaitingCredentials);
}

#[test]
fn retryable_errors_are_the_transient_ones() {
    assert!(ConnectError::TokenGenerationError.is_retryable());
    assert!(ConnectError::ConnectionError.is_retryable());
    assert!(!ConnectError::CredentialError.is_retryable());
    assert!(!ConnectError::InvalidEndpoint.is_retryable());
    assert!(!ConnectError::InvalidRegion.is_retryable());
    assert!(!ConnectError::InvalidPoolSize.is_retryable());
}

#[test]
fn configured_credential_source_is_used() {
    let mut cfg = config("h", "r");
    cfg.credentials = CredentialSource::AttachedRole;
    cfg.credential_timeout_secs = 5;
    let mut c = Connector::new(cfg);
    assert!(matches!(
        c.step(Event::Start),
        Action::LoadCredentials { source: CredentialSource::AttachedRole, timeout_secs: 5 }
    ));
}
