use tonic_types::StatusExt;
use typedb_driver::concept::{Concept, EntityType, RoleType, RootThingType, ScopedLabel};
use typedb_driver::status::{classify, classify_status, ClassifiedError, ErrorInfo, StatusCode, StatusDetails};
use typedb_driver::{Address, ConnectionError, Error, InternalError, ServerError};

#[test]
fn codes_are_padded_to_the_catalogue_width() {
    assert_eq!(ConnectionError::TransactionIsClosed.format_code(), "[CXN003]");
    assert_eq!(ConnectionError::ServerConnectionFailed { addresses: vec![] }.format_code(), "[CXN010]");
    assert_eq!(ConnectionError::QueryStreamNoResponse.format_code(), "[CXN101]");
    assert_eq!(InternalError::SendError.format_code(), "[INT2]");
    assert_eq!(Error::Other("x".to_string()).code(), "");
}

#[test]
fn messages_fill_in_their_fields() {
    let e = ConnectionError::DatabaseDoesNotExist { name: "typedb".to_string() };
    assert_eq!(e.message(), "The database 'typedb' does not exist.");
    let e = ConnectionError::UnknownRequestId { request_id: 1729 };
    assert_eq!(e.message(), "Received a response with unknown request id '1729'");
    let e = ConnectionError::ValueTimeZoneOffsetNotImplemented { offset: -305 };
    assert_eq!(
        e.message(),
        "Time zone provided by the server has numerical offset '-305', which is not yet supported by the driver."
    );
    let e = InternalError::EnumOutOfBounds { value: 7, enum_name: "Kind".to_string() };
    assert_eq!(e.message(), "Value '7' is out of bounds for enum 'Kind'.");
    let e = ConnectionError::TransactionIsClosed;
    assert_eq!(
        e.to_text(),
        "[CXN003] Connection Error: The transaction is closed and no further operation is allowed."
    );
    assert_eq!(Error::Internal(InternalError::RecvError).to_text(), "[INT1] Internal Error: Channel is closed.");
}

#[test]
fn server_errors_render_code_or_stack_trace() {
    let plain = ServerError::new("TXN01".to_string(), "Transaction".to_string(), "boom".to_string(), vec![]);
    assert_eq!(plain.to_text(), "[TXN01] Transaction. boom");
    assert_eq!(plain.format_code(), "TXN01");
    assert_eq!(plain.message(), "boom");
    let traced = ServerError::new(
        "TXN01".to_string(),
        "Transaction".to_string(),
        "boom".to_string(),
        vec!["first".to_string(), "second".to_string()],
    );
    assert_eq!(traced.to_text(), "\nfirst\nCaused: second");
    let e = Error::Server(traced);
    assert_eq!(e.code(), "TXN01");
    assert_eq!(e.message(), "boom");
}

#[test]
fn bracketed_codes_in_messages_are_recovered() {
    assert!(matches!(
        Error::from_message("  [RPL01] not primary"),
        Error::Connection(ConnectionError::CloudReplicaNotPrimary)
    ));
    assert!(matches!(Error::from_message("[CLS08] bad"), Error::Connection(ConnectionError::CloudTokenCredentialInvalid)));
    assert!(matches!(Error::from_message("[ENT08]"), Error::Connection(ConnectionError::CloudTokenCredentialInvalid)));
    match Error::from_message("[DBS06] Database 'shop' does not exist") {
        Error::Connection(ConnectionError::DatabaseDoesNotExist { name }) => assert_eq!(name, "shop"),
        _ => panic!("expected a missing database"),
    }
    match Error::from_message("[DBS06] no name here") {
        Error::Connection(ConnectionError::DatabaseDoesNotExist { name }) => assert_eq!(name, "{unknown}"),
        _ => panic!("expected a missing database"),
    }
    match Error::from_message("[RPL01]x something") {
        Error::Other(m) => assert_eq!(m, "[RPL01]x something"),
        _ => panic!("an unmatched message is carried as it is"),
    }
    assert!(matches!(Error::from_message("   "), Error::Other(_)));
}

#[test]
fn unavailable_messages_are_told_apart() {
    assert!(matches!(Error::parse_unavailable("broken pipe"), Error::Connection(ConnectionError::BrokenPipe)));
    assert!(matches!(
        Error::parse_unavailable("h2: received corrupt message"),
        Error::Connection(ConnectionError::CloudEncryptionSettingsMismatch)
    ));
    assert!(matches!(
        Error::parse_unavailable("invalid peer certificate: UnknownIssuer"),
        Error::Connection(ConnectionError::CloudSSLCertificateNotValidated)
    ));
    assert!(matches!(
        Error::parse_unavailable("tcp connect error: Connection refused (os error 111)"),
        Error::Connection(ConnectionError::ConnectionFailed)
    ));
    match Error::parse_unavailable("broken pipe!") {
        Error::Connection(ConnectionError::ServerConnectionFailedStatusError { error }) => {
            assert_eq!(error, "broken pipe!")
        }
        _ => panic!("expected a status error"),
    }
}

#[test]
fn status_parts_map_to_errors() {
    assert!(matches!(
        Error::from_status_parts(StatusCode::Unavailable, "broken pipe", None),
        Error::Connection(ConnectionError::BrokenPipe)
    ));
    assert!(matches!(
        Error::from_status_parts(StatusCode::Internal, "Received Rst Stream", None),
        Error::Connection(ConnectionError::ServerConnectionFailedStatusError { .. })
    ));
    assert!(matches!(
        Error::from_status_parts(StatusCode::AlreadyExists, "exists", None),
        Error::Connection(ConnectionError::ServerConnectionFailedStatusError { .. })
    ));
    match Error::from_status_parts(StatusCode::Unimplemented, "open", None) {
        Error::Connection(ConnectionError::RPCMethodUnavailable { message }) => assert_eq!(message, "open"),
        _ => panic!("expected an unsupported method"),
    }
    assert!(matches!(
        Error::from_status_parts(StatusCode::NotFound, "[RPL01] elsewhere", None),
        Error::Connection(ConnectionError::CloudReplicaNotPrimary)
    ));
    let details = StatusDetails {
        bad_request: None,
        error_info: Some(ErrorInfo { reason: "QRY01".to_string(), domain: "Query".to_string() }),
        stack_entries: Some(vec!["a".to_string()]),
    };
    match Error::from_status_parts(StatusCode::Unavailable, "bad query", Some(details)) {
        Error::Server(s) => {
            assert_eq!(s.error_code, "QRY01");
            assert_eq!(s.error_domain, "Query");
            assert_eq!(s.message, "bad query");
            assert_eq!(s.stack_trace, vec!["a".to_string()]);
        }
        _ => panic!("expected a server error"),
    }
    let details = StatusDetails { bad_request: Some("field".to_string()), error_info: None, stack_entries: None };
    match Error::from_status_parts(StatusCode::Unknown, "x", Some(details)) {
        Error::Connection(ConnectionError::ServerConnectionFailedWithError { error }) => assert_eq!(error, "field"),
        _ => panic!("expected a bad request"),
    }
    let details = StatusDetails { bad_request: None, error_info: None, stack_entries: None };
    assert!(matches!(Error::from_status_parts(StatusCode::Unavailable, "broken pipe", Some(details)), Error::Other(_)));
}

fn parts_of(status: &tonic::Status) -> (StatusCode, String, Option<StatusDetails>) {
    let code = StatusCode::from_number(status.code() as i32);
    let details = status.check_error_details().ok().map(|d| StatusDetails {
        bad_request: d.bad_request().map(|b| format!("{:?}", b)),
        error_info: d.error_info().map(|i| ErrorInfo { reason: i.reason.clone(), domain: i.domain.clone() }),
        stack_entries: d.debug_info().map(|i| i.stack_entries.clone()),
    });
    (code, status.message().to_owned(), details)
}

fn map_status(status: &tonic::Status) -> Error {
    let (code, message, details) = parts_of(status);
    Error::from_status_parts(code, &message, details)
}

#[test]
fn statuses_from_the_transport_are_mapped() {
    let status = tonic::Status::new(tonic::Code::Unimplemented, "[RPL01] moved");
    assert!(matches!(map_status(&status), Error::Connection(ConnectionError::CloudReplicaNotPrimary)));
    let status = tonic::Status::new(tonic::Code::Unavailable, "plain words");
    match map_status(&status) {
        Error::Other(m) => assert_eq!(m, "plain words"),
        _ => panic!("decodable empty details fall back to the message"),
    }
    assert_eq!(StatusCode::from_number(14), StatusCode::Unavailable);
    assert_eq!(StatusCode::from_number(12), StatusCode::Unimplemented);
}

#[test]
fn classification_follows_the_failover_policy() {
    assert_eq!(classify(&Error::Connection(ConnectionError::BrokenPipe)), ClassifiedError::Fatal);
    assert_eq!(
        classify(&Error::Connection(ConnectionError::RPCMethodUnavailable { message: String::new() })),
        ClassifiedError::Fatal
    );
    assert_eq!(classify(&Error::Connection(ConnectionError::CloudReplicaNotPrimary)), ClassifiedError::RetryOtherServer);
    assert_eq!(classify(&Error::Connection(ConnectionError::ConnectionFailed)), ClassifiedError::RetryOtherServer);
    assert_eq!(
        classify(&Error::Connection(ConnectionError::ServerConnectionFailedStatusError { error: String::new() })),
        ClassifiedError::RetrySameServer
    );
    assert_eq!(classify(&Error::Other("x".to_string())), ClassifiedError::Fatal);
}

#[test]
fn unavailable_status_moves_to_another_server() {
    let unknown = Error::from_status_parts(StatusCode::Unavailable, "h2 protocol error", None);
    assert_eq!(classify_status(StatusCode::Unavailable, &unknown), ClassifiedError::RetryOtherServer);
    let reset = Error::from_status_parts(StatusCode::Unknown, "Received Rst Stream", None);
    assert_eq!(classify_status(StatusCode::Unknown, &reset), ClassifiedError::RetrySameServer);
    let pipe = Error::from_status_parts(StatusCode::Unavailable, "broken pipe", None);
    assert_eq!(classify_status(StatusCode::Unavailable, &pipe), ClassifiedError::Fatal);
}

#[test]
fn type_labels_of_concepts() {
    assert_eq!(Concept::RootThingType(RootThingType).type_label_cloned(), RootThingType::LABEL);
    let person = EntityType { label: "person".to_string(), is_root: false, is_abstract: false };
    assert_eq!(Concept::EntityType(person).type_label_cloned(), "person");
    let role = RoleType {
        label: ScopedLabel { scope: "marriage".to_string(), name: "spouse".to_string() },
        is_root: false,
        is_abstract: false,
    };
    assert_eq!(Concept::RoleType(role).type_label_cloned(), "marriage:spouse");
}

#[test]
fn address_lists_render_in_messages() {
    let e = ConnectionError::ServerConnectionFailed {
        addresses: vec![Address::new("a:1".to_string()), Address::new("b:2".to_string())],
    };
    assert_eq!(e.message(), "Unable to connect to TypeDB server(s) at: \n[a:1, b:2]");
}

#[test]
fn undecodable_details_fall_back_to_the_code() {
    let junk = tonic::codegen::Bytes::from_static(&[0xff, 0xff]);
    let status = tonic::Status::with_details(tonic::Code::Unavailable, "broken pipe", junk.clone());
    assert!(matches!(map_status(&status), Error::Connection(ConnectionError::BrokenPipe)));
    let status = tonic::Status::with_details(tonic::Code::Unimplemented, "open", junk.clone());
    match map_status(&status) {
        Error::Connection(ConnectionError::RPCMethodUnavailable { message }) => assert_eq!(message, "open"),
        _ => panic!("expected an unsupported method"),
    }
    let status = tonic::Status::with_details(tonic::Code::InvalidArgument, "bad", junk);
    assert!(matches!(
        map_status(&status),
        Error::Connection(ConnectionError::ServerConnectionFailedStatusError { .. })
    ));
}

#[test]
fn structured_details_become_server_errors() {
    let mut details = tonic_types::ErrorDetails::with_error_info(
        "TXN07",
        "Transaction",
        std::collections::HashMap::<String, String>::new(),
    );
    details.set_debug_info(vec!["outer".to_string(), "inner".to_string()], "");
    let status = tonic::Status::with_error_details(tonic::Code::Internal, "conflict", details);
    match map_status(&status) {
        Error::Server(s) => {
            assert_eq!(s.error_code, "TXN07");
            assert_eq!(s.error_domain, "Transaction");
            assert_eq!(s.message, "conflict");
            assert_eq!(s.to_text(), "\nouter\nCaused: inner");
        }
        _ => panic!("expected a server error"),
    }
}

#[test]
fn query_language_errors_pass_through() {
    let e = Error::TypeQL("syntax error at line 1".to_string());
    assert_eq!(e.message(), "syntax error at line 1");
    assert_eq!(e.to_text(), "syntax error at line 1");
    assert_eq!(e.code(), "");
}
