use typedb_driver::address::AddressBook;
use typedb_driver::failover::{FailoverCoordinator, FailoverStep, ServerTopology};
use typedb_driver::status::{ClassifiedError, StatusCode};
use typedb_driver::user::User;
use typedb_driver::{Address, ConnectionError, Error};

fn addr(s: &str) -> Address {
    Address::new(s.to_string())
}

fn texts(v: &[Address]) -> Vec<String> {
    v.iter().map(|a| a.as_str().to_string()).collect()
}

#[test]
fn translation_mismatch_lists_both_sides() {
    let book = AddressBook { translation: Some(vec![(addr("A"), addr("a.public")), (addr("C"), addr("c.public"))]) };
    match book.resolve(&vec![addr("A"), addr("B")]) {
        Err(Error::Connection(ConnectionError::AddressTranslationMismatch { unknown, unmapped })) => {
            assert_eq!(texts(&unknown), vec!["C".to_string()]);
            assert_eq!(texts(&unmapped), vec!["B".to_string()]);
        }
        _ => panic!("expected a translation mismatch"),
    }
}

#[test]
fn translation_maps_every_advertised_server() {
    let book = AddressBook { translation: Some(vec![(addr("B"), addr("b.public")), (addr("A"), addr("a.public"))]) };
    let dialable = book.resolve(&vec![addr("A"), addr("B")]).ok().unwrap();
    assert_eq!(texts(&dialable), vec!["a.public".to_string(), "b.public".to_string()]);
    let plain = AddressBook { translation: None };
    let dialable = plain.resolve(&vec![addr("A"), addr("B")]).ok().unwrap();
    assert_eq!(texts(&dialable), vec!["A".to_string(), "B".to_string()]);
}

#[test]
fn failover_tries_each_server_once_then_reports_all() {
    let mut run = FailoverCoordinator::new(vec![addr("s1"), addr("s2"), addr("s3")]);
    let mut attempts = vec![run.target().unwrap().as_str().to_string()];
    let causes = ["refused", "not primary", "timeout"];
    let mut last = None;
    for cause in causes {
        match run.on_failure(ClassifiedError::RetryOtherServer, cause) {
            FailoverStep::Attempt { server } => attempts.push(server.as_str().to_string()),
            FailoverStep::GiveUp { error } => last = Some(error),
            FailoverStep::Surface => panic!("nothing here is fatal"),
        }
    }
    assert_eq!(attempts, vec!["s1".to_string(), "s2".to_string(), "s3".to_string()]);
    match last {
        Some(Error::Connection(ConnectionError::ServerConnectionFailedWithError { error })) => {
            assert_eq!(error, "- s1: refused\n- s2: not primary\n- s3: timeout")
        }
        _ => panic!("expected the composite failure"),
    }
    assert!(run.target().is_none());
}

#[test]
fn transient_failure_is_retried_once_on_the_same_server() {
    let mut run = FailoverCoordinator::new(vec![addr("s1"), addr("s2")]);
    match run.on_failure(ClassifiedError::RetrySameServer, "reset") {
        FailoverStep::Attempt { server } => assert_eq!(server.as_str(), "s1"),
        _ => panic!("expected a second try on s1"),
    }
    match run.on_failure(ClassifiedError::RetrySameServer, "reset") {
        FailoverStep::Attempt { server } => assert_eq!(server.as_str(), "s2"),
        _ => panic!("expected a move to s2"),
    }
    assert!(matches!(run.on_failure(ClassifiedError::Fatal, "unsupported"), FailoverStep::Surface));
    assert_eq!(run.on_success().unwrap().as_str(), "s2");
}

#[test]
fn errors_drive_the_failover_by_their_class() {
    let mut run = FailoverCoordinator::new(vec![addr("s1")]);
    match run.on_error(&Error::Connection(ConnectionError::CloudReplicaNotPrimary)) {
        FailoverStep::GiveUp { error } => assert_eq!(
            error.message(),
            "Unable to connect to TypeDB server(s), received errors: \n- s1: [CXN014] Connection Error: The replica is not the primary replica."
        ),
        _ => panic!("expected the composite failure"),
    }
    let mut run = FailoverCoordinator::new(vec![addr("s1"), addr("s2")]);
    assert!(matches!(run.on_error(&Error::Connection(ConnectionError::BrokenPipe)), FailoverStep::Surface));
}

#[test]
fn last_good_server_is_tried_first() {
    let mut topology = ServerTopology::new(vec![addr("s1"), addr("s2"), addr("s3")]);
    assert_eq!(texts(&topology.candidates()), vec!["s1", "s2", "s3"]);
    topology.record_success(&addr("s3"));
    assert_eq!(texts(&topology.candidates()), vec!["s3", "s1", "s2"]);
    topology.record_success(&addr("elsewhere"));
    assert_eq!(texts(&topology.candidates()), vec!["s3", "s1", "s2"]);
}

#[test]
fn repeated_servers_are_tried_once() {
    let mut run = FailoverCoordinator::new(vec![addr("s1"), addr("s2"), addr("s1")]);
    let mut attempts = vec![run.target().unwrap().as_str().to_string()];
    loop {
        match run.on_failure(ClassifiedError::RetryOtherServer, "down") {
            FailoverStep::Attempt { server } => attempts.push(server.as_str().to_string()),
            FailoverStep::GiveUp { error } => {
                assert_eq!(error.message(), "Unable to connect to TypeDB server(s), received errors: \n- s1: down\n- s2: down");
                break;
            }
            FailoverStep::Surface => panic!("nothing here is fatal"),
        }
    }
    assert_eq!(attempts, vec!["s1".to_string(), "s2".to_string()]);
    let topology = ServerTopology::new(vec![addr("s2"), addr("s2"), addr("s3")]);
    assert_eq!(texts(&topology.candidates()), vec!["s2", "s3"]);
}

#[test]
fn status_failures_drive_the_failover_by_their_code() {
    let mut run = FailoverCoordinator::new(vec![addr("s1"), addr("s2")]);
    let error = Error::from_status_parts(StatusCode::Unavailable, "h2 protocol error", None);
    match run.on_status_error(StatusCode::Unavailable, &error) {
        FailoverStep::Attempt { server } => assert_eq!(server.as_str(), "s2"),
        _ => panic!("an unavailable server sends the attempt elsewhere"),
    }
}

#[test]
fn user_deletion_asks_each_server_in_turn() {
    let user = User { name: "alice".to_string(), password: None, servers: vec![addr("s1"), addr("s2")] };
    let mut run = user.deletion();
    assert_eq!(run.target().unwrap().as_str(), "s1");
    match run.on_failure(ClassifiedError::RetryOtherServer, "down") {
        FailoverStep::Attempt { server } => assert_eq!(server.as_str(), "s2"),
        _ => panic!("expected s2"),
    }
    match run.on_failure(ClassifiedError::RetryOtherServer, "down too") {
        FailoverStep::GiveUp { error } => assert_eq!(error.code(), "[CXN011]"),
        _ => panic!("expected the composite failure"),
    }
}

#[test]
fn exhausted_run_reports_its_composite() {
    let mut run = FailoverCoordinator::new(vec![addr("s1")]);
    assert!(run.exhausted_error().is_none());
    assert!(matches!(run.on_failure(ClassifiedError::Fatal, "fatal"), FailoverStep::Surface));
    assert!(run.exhausted_error().is_none());
    let _ = run.on_failure(ClassifiedError::RetryOtherServer, "down");
    match run.exhausted_error() {
        Some(Error::Connection(ConnectionError::ServerConnectionFailedWithError { error })) => assert_eq!(error, "- s1: down"),
        _ => panic!("expected the composite failure"),
    }
}
