use katey::acceptor::{
    AcceptEvent, AcceptorAction, BindScope, ConnectionAction, ConnectionEvent, acceptor_decision,
    connection_decision, listen_address,
};
use katey::lifecycle::{LifecycleEvent, Phase, RunError, lifecycle_step};
use katey::tcp_client;
use katey::tcp_server;
use katey::tls_client;
use katey::tls_server;

#[test]
fn listen_addresses_are_formatted() {
    assert_eq!(b"127.0.0.1:1729".to_vec(), listen_address(BindScope::LocalOnly, 1729));
    assert_eq!(b"0.0.0.0:443".to_vec(), listen_address(BindScope::Public, 443));
    assert_eq!(b"127.0.0.1:0".to_vec(), listen_address(BindScope::LocalOnly, 0));
    assert_eq!(b"0.0.0.0:65535".to_vec(), listen_address(BindScope::Public, 65535));
}

#[test]
fn acceptor_decisions() {
    assert_eq!(AcceptorAction::Abort, acceptor_decision(AcceptEvent::BindFailed));
    assert_eq!(AcceptorAction::ContinueListening, acceptor_decision(AcceptEvent::AcceptFailed));
    assert_eq!(AcceptorAction::DispatchConnection, acceptor_decision(AcceptEvent::Accepted));
}

#[test]
fn connection_decisions() {
    assert_eq!(ConnectionAction::RunHandler, connection_decision(ConnectionEvent::HandshakeSucceeded));
    assert_eq!(ConnectionAction::CloseWithoutData, connection_decision(ConnectionEvent::HandshakeFailed));
}

#[test]
fn lifecycle_follows_its_transitions() {
    let p = lifecycle_step(Phase::Created, LifecycleEvent::Started);
    assert_eq!(Phase::Running, p);
    let p = lifecycle_step(p, LifecycleEvent::SignalReceived);
    assert_eq!(Phase::Draining, p);
    // the losing stop reason arrives second and is ignored
    let p = lifecycle_step(p, LifecycleEvent::AcceptorStopped);
    assert_eq!(Phase::Draining, p);
    let p = lifecycle_step(p, LifecycleEvent::GraceElapsed);
    assert_eq!(Phase::Stopped, p);
    // stopped is terminal
    assert_eq!(Phase::Stopped, lifecycle_step(p, LifecycleEvent::Started));
    assert_eq!(Phase::Stopped, lifecycle_step(p, LifecycleEvent::SignalReceived));
}

#[test]
fn lifecycle_ignores_stray_events() {
    assert_eq!(Phase::Created, lifecycle_step(Phase::Created, LifecycleEvent::GraceElapsed));
    assert_eq!(Phase::Running, lifecycle_step(Phase::Running, LifecycleEvent::Started));
    assert_eq!(Phase::Running, lifecycle_step(Phase::Running, LifecycleEvent::GraceElapsed));
    assert_eq!(Phase::Draining, lifecycle_step(Phase::Draining, LifecycleEvent::Started));
}

#[test]
fn tcp_server_run_is_spent_by_first_call() {
    let config = tcp_server::Config::new(1729);
    let mut server = tcp_server::Server::new(config);
    let plan = server.run().expect("first run");
    assert_eq!(b"127.0.0.1:1729".to_vec(), plan.address);
    assert!(!plan.threaded);
    assert_eq!(1000, plan.shutdown_timeout_ms);
    assert_eq!(Err(RunError::AlreadyRun), server.run().map(|_| ()));
    assert_eq!(Err(RunError::AlreadyRun), server.run().map(|_| ()));
}

#[test]
fn tcp_server_builders_shape_the_plan() {
    let mut config = tcp_server::Config::new(3458);
    let config = config
        .with_public(true)
        .with_threading(true)
        .with_shutdown_timeout(250);
    let mut server = tcp_server::Server::new(config);
    let plan = server.run().expect("first run");
    assert_eq!(b"0.0.0.0:3458".to_vec(), plan.address);
    assert!(plan.threaded);
    assert_eq!(250, plan.shutdown_timeout_ms);
}

#[test]
fn tcp_client_run_is_spent_by_first_call() {
    let mut config = tcp_client::Config::new("localhost:1729");
    config.with_shutdown_timeout(100);
    let mut client = tcp_client::Client::new(config);
    let plan = client.run().expect("first run");
    assert_eq!("localhost:1729", plan.address);
    assert_eq!(100, plan.shutdown_timeout_ms);
    assert_eq!(Err(RunError::AlreadyRun), client.run().map(|_| ()));
}

#[test]
fn tls_server_run_is_spent_by_first_call() {
    let config = tls_server::Config::new(8443);
    let mut server = tls_server::Server::new(config);
    let plan = server.run().expect("first run");
    // the TLS listener binds all interfaces
    assert_eq!(b"0.0.0.0:8443".to_vec(), plan.address);
    assert!(plan.identity.is_none());
    assert!(plan.client_auth_roots.is_none());
    assert_eq!(Err(RunError::AlreadyRun), server.run().map(|_| ()));
}

#[test]
fn tls_client_run_is_spent_by_first_call() {
    let mut config = tls_client::Config::new("example.test:8443");
    config.with_threading(false);
    let mut client = tls_client::Client::new(config);
    let plan = client.run().expect("first run");
    assert_eq!("example.test:8443", plan.address);
    assert!(plan.trusted_roots.is_empty());
    assert!(plan.identity.is_none());
    assert_eq!(Err(RunError::AlreadyRun), client.run().map(|_| ()));
}

#[test]
fn domain_strips_the_port() {
    assert_eq!("localhost", tls_client::Client::domain("localhost:1729"));
    assert_eq!("localhost", tls_client::Client::domain("localhost"));
    assert_eq!("example.test", tls_client::Client::domain("example.test:443"));
    assert_eq!("", tls_client::Client::domain(":443"));
    // only the first colon splits
    assert_eq!("a", tls_client::Client::domain("a:b:c"));
}
