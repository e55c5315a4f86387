use typedb_driver::concept::{ValueType, IID};
use typedb_driver::concept_manager::ConceptManager;
use typedb_driver::correlator::RequestCorrelator;
use typedb_driver::request::{ConceptRequest, Request, TransactionType};
use typedb_driver::transaction::{CloseKind, TransactionState, TransactionStream};
use typedb_driver::{ConnectionError, Error, InternalError};

fn label_request(label: &str) -> Request {
    Request::Concept { operation: ConceptRequest::GetEntityType { label: label.to_string() } }
}

fn open_stream() -> TransactionStream {
    let mut tx = TransactionStream::new(TransactionType::Write);
    let frame = tx.open().ok().unwrap();
    assert_eq!(frame.request_id, 0);
    assert!(matches!(frame.request, Request::Open { transaction_type: TransactionType::Write }));
    tx.on_response(0, vec![]).ok().unwrap();
    assert!(matches!(tx.take(0), Some(Ok(_))));
    tx.acknowledge_open().ok().unwrap();
    assert_eq!(tx.state_now(), TransactionState::Open);
    tx
}

fn payload(r: Option<Result<Vec<u8>, Error>>) -> Vec<u8> {
    match r {
        Some(Ok(p)) => p,
        _ => panic!("expected a response"),
    }
}

#[test]
fn three_operations_answered_out_of_order() {
    let mut tx = open_stream();
    let a = tx.execute(label_request("a")).ok().unwrap().request_id;
    let b = tx.execute(label_request("b")).ok().unwrap().request_id;
    let c = tx.execute(label_request("c")).ok().unwrap().request_id;
    assert_eq!((a, b, c), (1, 2, 3));
    tx.on_response(b, vec![2]).ok().unwrap();
    tx.on_response(a, vec![1]).ok().unwrap();
    tx.on_response(c, vec![3]).ok().unwrap();
    assert_eq!(payload(tx.take(a)), vec![1]);
    assert_eq!(payload(tx.take(b)), vec![2]);
    assert_eq!(payload(tx.take(c)), vec![3]);
}

#[test]
fn every_arrival_order_reaches_its_own_request() {
    let orders = [[0usize, 1, 2, 3], [3, 2, 1, 0], [2, 0, 3, 1], [1, 3, 0, 2]];
    for order in orders {
        let mut c = RequestCorrelator::new();
        let mut ids = Vec::new();
        for k in 0..4u8 {
            ids.push(c.submit(label_request(&k.to_string())).ok().unwrap().request_id);
        }
        for &k in order.iter() {
            c.on_response(ids[k], vec![k as u8 * 10]).ok().unwrap();
        }
        assert_eq!(c.outstanding(), 0);
        for k in 0..4usize {
            assert_eq!(payload(c.take(ids[k])), vec![k as u8 * 10]);
        }
    }
}

#[test]
fn stream_failure_drains_every_pending_request() {
    let mut tx = open_stream();
    let a = tx.execute(label_request("a")).ok().unwrap().request_id;
    let b = tx.execute(label_request("b")).ok().unwrap().request_id;
    tx.on_response(a, vec![9]).ok().unwrap();
    tx.on_stream_error("stream reset".to_string());
    assert_eq!(tx.state_now(), TransactionState::Failed);
    assert_eq!(payload(tx.take(a)), vec![9]);
    match tx.take(b) {
        Some(Err(Error::Connection(ConnectionError::TransactionIsClosedWithErrors { errors }))) => {
            assert_eq!(errors, "stream reset")
        }
        _ => panic!("expected the drained error"),
    }
    match tx.execute(label_request("c")) {
        Err(Error::Connection(ConnectionError::TransactionIsClosedWithErrors { errors })) => {
            assert_eq!(errors, "stream reset")
        }
        _ => panic!("a failed transaction must reject operations"),
    }
}

#[test]
fn duplicate_response_is_ignored() {
    let mut c = RequestCorrelator::new();
    let id = c.submit(label_request("x")).ok().unwrap().request_id;
    assert!(c.on_response(id, vec![1]).is_ok());
    match c.on_response(id, vec![2]) {
        Err(Error::Connection(ConnectionError::UnknownRequestId { request_id })) => assert_eq!(request_id, id),
        _ => panic!("a second response must be refused"),
    }
    assert_eq!(payload(c.take(id)), vec![1]);
    assert!(c.take(id).is_none());
}

#[test]
fn unknown_request_id_is_dropped() {
    let mut c = RequestCorrelator::new();
    let id = c.submit(label_request("x")).ok().unwrap().request_id;
    match c.on_response(42, vec![5]) {
        Err(e) => assert_eq!(e.code(), "[CXN007]"),
        Ok(()) => panic!("an unknown id must be refused"),
    }
    assert!(c.pending(id));
    assert_eq!(c.outstanding(), 1);
    c.on_response(id, vec![6]).ok().unwrap();
    assert_eq!(payload(c.take(id)), vec![6]);
}

#[test]
fn closed_send_side_refuses_submission() {
    let mut c = RequestCorrelator::new();
    c.drain(&None);
    assert!(!c.is_open());
    assert!(matches!(c.submit(label_request("x")), Err(Error::Internal(InternalError::SendError))));
    assert_eq!(c.next_id(), 0);
}

#[test]
fn operations_after_close_commit_or_rollback_are_rejected() {
    for kind in [CloseKind::Close, CloseKind::Commit, CloseKind::Rollback] {
        let mut tx = open_stream();
        let pending = tx.execute(label_request("a")).ok().unwrap().request_id;
        let sent = tx.begin_close(kind).ok().unwrap();
        assert_eq!(sent.is_some(), kind != CloseKind::Close);
        assert_eq!(tx.state_now(), TransactionState::Closing);
        tx.finish_close();
        assert_eq!(tx.state_now(), TransactionState::Closed);
        assert!(matches!(tx.take(pending), Some(Err(Error::Connection(ConnectionError::TransactionIsClosed)))));
        for _ in 0..3 {
            assert!(matches!(
                tx.execute(label_request("b")),
                Err(Error::Connection(ConnectionError::TransactionIsClosed))
            ));
        }
        assert!(tx.begin_close(CloseKind::Commit).is_err());
    }
}

#[test]
fn operations_before_open_are_rejected() {
    let mut tx = TransactionStream::new(TransactionType::Read);
    assert!(matches!(tx.execute(label_request("a")), Err(Error::Connection(ConnectionError::TransactionIsClosed))));
    tx.open().ok().unwrap();
    assert!(tx.open().is_err());
    tx.acknowledge_open().ok().unwrap();
    assert!(matches!(tx.acknowledge_open(), Err(Error::Connection(ConnectionError::TransactionIsClosed))));
    assert_eq!(tx.next_request_id(), 1);
}

#[test]
fn concept_manager_sends_on_its_stream() {
    let mut manager = ConceptManager::new(open_stream());
    let frame = manager.put_attribute_type("age".to_string(), ValueType::Long).ok().unwrap();
    assert_eq!(frame.request_id, 1);
    assert!(matches!(
        frame.request,
        Request::Concept { operation: ConceptRequest::PutAttributeType { value_type: ValueType::Long, .. } }
    ));
    let frame = manager.get_entity(IID { bytes: vec![1, 2] }).ok().unwrap();
    assert_eq!(frame.request_id, 2);
    let frame = manager.get_schema_exceptions().ok().unwrap();
    assert_eq!(frame.request_id, 3);
    manager.transaction_stream.begin_close(CloseKind::Close).ok().unwrap();
    manager.transaction_stream.finish_close();
    assert!(manager.get_relation_type("marriage".to_string()).is_err());
}
