use vstd::prelude::*;

use crate::error::{ConnectionError, Error, ServerError};
use crate::text::{contains_text, first_word, first_word_of, has_infix, second_quoted, second_quoted_field};

verus! {

/// The gRPC status codes, numbered as the protocol numbers them.
#[derive(Clone, Copy, Debug, PartialEq, Eq, Structural)]
pub enum StatusCode {
    Success,
    Cancelled,
    Unknown,
    InvalidArgument,
    DeadlineExceeded,
    NotFound,
    AlreadyExists,
    PermissionDenied,
    ResourceExhausted,
    FailedPrecondition,
    Aborted,
    OutOfRange,
    Unimplemented,
    Internal,
    Unavailable,
    DataLoss,
    Unauthenticated,
}

/// The machine-readable cause that a server attaches to a failure.
pub struct ErrorInfo {
    pub reason: String,
    pub domain: String,
}

/// The structured details that a status may carry.
pub struct StatusDetails {
    /// The rendering of a bad-request detail, if the status holds one.
    pub bad_request: Option<String>,
    pub error_info: Option<ErrorInfo>,
    /// The stack entries of a debug-info detail, if the status holds one.
    pub stack_entries: Option<Vec<String>>,
}

/// How the failover logic treats a failure.
#[derive(Clone, Copy, Debug, PartialEq, Eq, Structural)]
pub enum ClassifiedError {
    RetrySameServer,
    RetryOtherServer,
    Fatal,
}

impl StatusCode {
    pub open spec fn spec_from_number(n: i32) -> StatusCode {
        if n == 1 { StatusCode::Cancelled }
        else if n == 2 { StatusCode::Unknown }
        else if n == 3 { StatusCode::InvalidArgument }
        else if n == 4 { StatusCode::DeadlineExceeded }
        else if n == 5 { StatusCode::NotFound }
        else if n == 6 { StatusCode::AlreadyExists }
        else if n == 7 { StatusCode::PermissionDenied }
        else if n == 8 { StatusCode::ResourceExhausted }
        else if n == 9 { StatusCode::FailedPrecondition }
        else if n == 10 { StatusCode::Aborted }
        else if n == 11 { StatusCode::OutOfRange }
        else if n == 12 { StatusCode::Unimplemented }
        else if n == 13 { StatusCode::Internal }
        else if n == 14 { StatusCode::Unavailable }
        else if n == 15 { StatusCode::DataLoss }
        else if n == 16 { StatusCode::Unauthenticated }
        else { StatusCode::Success }
    }

    /// The code with protocol number `n`; numbers outside the protocol read as `Success`.
    pub fn from_number(n: i32) -> (r: StatusCode)
        ensures
            r == Self::spec_from_number(n),
    {
        if n == 1 { StatusCode::Cancelled }
        else if n == 2 { StatusCode::Unknown }
        else if n == 3 { StatusCode::InvalidArgument }
        else if n == 4 { StatusCode::DeadlineExceeded }
        else if n == 5 { StatusCode::NotFound }
        else if n == 6 { StatusCode::AlreadyExists }
        else if n == 7 { StatusCode::PermissionDenied }
        else if n == 8 { StatusCode::ResourceExhausted }
        else if n == 9 { StatusCode::FailedPrecondition }
        else if n == 10 { StatusCode::Aborted }
        else if n == 11 { StatusCode::OutOfRange }
        else if n == 12 { StatusCode::Unimplemented }
        else if n == 13 { StatusCode::Internal }
        else if n == 14 { StatusCode::Unavailable }
        else if n == 15 { StatusCode::DataLoss }
        else if n == 16 { StatusCode::Unauthenticated }
        else { StatusCode::Success }
    }
}

/// The error that a message recovers from the bracketed code it starts with.
pub open spec fn message_error(m: Seq<char>, e: Error) -> bool {
    let w = first_word_of(m);
    if w == "[RPL01]"@ {
        e == Error::Connection(ConnectionError::CloudReplicaNotPrimary)
    } else if w == "[CLS08]"@ || w == "[ENT08]"@ {
        e == Error::Connection(ConnectionError::CloudTokenCredentialInvalid)
    } else if w == "[DBS06]"@ {
        e matches Error::Connection(ConnectionError::DatabaseDoesNotExist { name }) && name@ == match second_quoted_field(m) {
            Some(n) => n,
            None => "{unknown}"@,
        }
    } else {
        e matches Error::Other(t) && t@ == m
    }
}

/// The error for an unavailable server, told apart by its message.
pub open spec fn unavailable_error(m: Seq<char>, e: Error) -> bool {
    if m == "broken pipe"@ {
        e == Error::Connection(ConnectionError::BrokenPipe)
    } else if has_infix(m, "received corrupt message"@) {
        e == Error::Connection(ConnectionError::CloudEncryptionSettingsMismatch)
    } else if has_infix(m, "UnknownIssuer"@) {
        e == Error::Connection(ConnectionError::CloudSSLCertificateNotValidated)
    } else if has_infix(m, "Connection refused"@) {
        e == Error::Connection(ConnectionError::ConnectionFailed)
    } else {
        e matches Error::Connection(ConnectionError::ServerConnectionFailedStatusError { error }) && error@ == m
    }
}

/// The error that a status with code `code`, message `m` and `details` maps to.
pub open spec fn status_error(code: StatusCode, m: Seq<char>, details: Option<StatusDetails>, e: Error) -> bool {
    match details {
        Some(d) => match d.bad_request {
            Some(b) => e == Error::Connection(ConnectionError::ServerConnectionFailedWithError { error: b }),
            None => match d.error_info {
                Some(info) => e matches Error::Server(s) && s.error_code == info.reason && s.error_domain
                    == info.domain && s.message@ == m && s.stack_trace@ == match d.stack_entries {
                    Some(v) => v@,
                    None => Seq::<String>::empty(),
                },
                None => message_error(m, e),
            },
        },
        None => if code == StatusCode::Unavailable {
            unavailable_error(m, e)
        } else if code == StatusCode::Unknown || has_infix(m, "Received Rst Stream"@) || code
            == StatusCode::InvalidArgument || code == StatusCode::FailedPrecondition || code
            == StatusCode::AlreadyExists {
            e matches Error::Connection(ConnectionError::ServerConnectionFailedStatusError { error }) && error@ == m
        } else if code == StatusCode::Unimplemented {
            e matches Error::Connection(ConnectionError::RPCMethodUnavailable { message }) && message@ == m
        } else {
            message_error(m, e)
        },
    }
}

/// The failover policy for an error: a broken pipe and an unsupported method
/// would fail again anywhere; a replica that is not primary, an unreachable
/// server or an encryption mismatch send the attempt to another server; an
/// unclassified status failure may be transient, so the same server is tried again.
pub open spec fn classification(e: Error) -> ClassifiedError {
    match e {
        Error::Connection(c) => match c {
            ConnectionError::BrokenPipe => ClassifiedError::Fatal,
            ConnectionError::RPCMethodUnavailable { .. } => ClassifiedError::Fatal,
            ConnectionError::CloudReplicaNotPrimary => ClassifiedError::RetryOtherServer,
            ConnectionError::ConnectionFailed => ClassifiedError::RetryOtherServer,
            ConnectionError::CloudEncryptionSettingsMismatch => ClassifiedError::RetryOtherServer,
            ConnectionError::CloudSSLCertificateNotValidated => ClassifiedError::RetryOtherServer,
            ConnectionError::ServerConnectionFailed { .. } => ClassifiedError::RetryOtherServer,
            ConnectionError::ServerConnectionFailedStatusError { .. } => ClassifiedError::RetrySameServer,
            _ => ClassifiedError::Fatal,
        },
        _ => ClassifiedError::Fatal,
    }
}

/// Classifies an error for the failover logic.
pub fn classify(e: &Error) -> (r: ClassifiedError)
    ensures
        r == classification(*e),
{
    match e {
        Error::Connection(c) => match c {
            ConnectionError::BrokenPipe => ClassifiedError::Fatal,
            ConnectionError::RPCMethodUnavailable { .. } => ClassifiedError::Fatal,
            ConnectionError::CloudReplicaNotPrimary => ClassifiedError::RetryOtherServer,
            ConnectionError::ConnectionFailed => ClassifiedError::RetryOtherServer,
            ConnectionError::CloudEncryptionSettingsMismatch => ClassifiedError::RetryOtherServer,
            ConnectionError::CloudSSLCertificateNotValidated => ClassifiedError::RetryOtherServer,
            ConnectionError::ServerConnectionFailed { .. } => ClassifiedError::RetryOtherServer,
            ConnectionError::ServerConnectionFailedStatusError { .. } => ClassifiedError::RetrySameServer,
            _ => ClassifiedError::Fatal,
        },
        _ => ClassifiedError::Fatal,
    }
}

/// The failover policy for a failed call, from its status code and the error
/// that the status maps to. An unavailable server whose message names no known
/// cause sends the attempt to another server; otherwise the error decides.
pub open spec fn status_classification(code: StatusCode, e: Error) -> ClassifiedError {
    if code == StatusCode::Unavailable && e matches Error::Connection(
        ConnectionError::ServerConnectionFailedStatusError { .. },
    ) {
        ClassifiedError::RetryOtherServer
    } else {
        classification(e)
    }
}

/// Classifies a failed call by its status code and the error it maps to.
pub fn classify_status(code: StatusCode, e: &Error) -> (r: ClassifiedError)
    ensures
        r == status_classification(code, *e),
{
    let unclassified = match e {
        Error::Connection(ConnectionError::ServerConnectionFailedStatusError { .. }) => true,
        _ => false,
    };
    if code == StatusCode::Unavailable && unclassified {
        ClassifiedError::RetryOtherServer
    } else {
        classify(e)
    }
}

fn is_word(w: &String, lit: &str) -> (r: bool)
    ensures
        r == (w@ == lit@),
{
    *w == String::from_str(lit)
}

impl Error {
    /// Recovers a connection error from a bracketed code at the start of the
    /// message; any other message is carried as it is.
    pub fn from_message(message: &str) -> (r: Error)
        ensures
            message_error(message@, r),
    {
        match first_word(message) {
            Some(w) => {
                if is_word(&w, "[RPL01]") {
                    Error::Connection(ConnectionError::CloudReplicaNotPrimary)
                } else if is_word(&w, "[CLS08]") || is_word(&w, "[ENT08]") {
                    Error::Connection(ConnectionError::CloudTokenCredentialInvalid)
                } else if is_word(&w, "[DBS06]") {
                    let name = match second_quoted(message) {
                        Some(n) => n,
                        None => String::from_str("{unknown}"),
                    };
                    Error::Connection(ConnectionError::DatabaseDoesNotExist { name })
                } else {
                    Error::Other(String::from_str(message))
                }
            },
            None => {
                proof {
                    reveal_strlit("[RPL01]");
                    reveal_strlit("[CLS08]");
                    reveal_strlit("[ENT08]");
                    reveal_strlit("[DBS06]");
                }
                Error::Other(String::from_str(message))
            },
        }
    }

    /// Tells apart the failures of an unavailable server by their message.
    pub fn parse_unavailable(status_message: &str) -> (r: Error)
        ensures
            unavailable_error(status_message@, r),
    {
        if is_word(&String::from_str(status_message), "broken pipe") {
            Error::Connection(ConnectionError::BrokenPipe)
        } else if contains_text(status_message, "received corrupt message") {
            Error::Connection(ConnectionError::CloudEncryptionSettingsMismatch)
        } else if contains_text(status_message, "UnknownIssuer") {
            Error::Connection(ConnectionError::CloudSSLCertificateNotValidated)
        } else if contains_text(status_message, "Connection refused") {
            Error::Connection(ConnectionError::ConnectionFailed)
        } else {
            Error::Connection(ConnectionError::ServerConnectionFailedStatusError {
                error: String::from_str(status_message),
            })
        }
    }

    /// Maps the parts of a failed call's status to an error.
    pub fn from_status_parts(code: StatusCode, message: &str, details: Option<StatusDetails>) -> (r: Error)
        ensures
            status_error(code, message@, details, r),
    {
        match details {
            Some(d) => match d.bad_request {
                Some(b) => Error::Connection(ConnectionError::ServerConnectionFailedWithError { error: b }),
                None => match d.error_info {
                    Some(info) => {
                        let stack_trace = match d.stack_entries {
                            Some(v) => v,
                            None => Vec::new(),
                        };
                        Error::Server(ServerError::new(info.reason, info.domain, String::from_str(message), stack_trace))
                    },
                    None => Error::from_message(message),
                },
            },
            None => {
                if code == StatusCode::Unavailable {
                    Error::parse_unavailable(message)
                } else if code == StatusCode::Unknown || contains_text(message, "Received Rst Stream")
                    || code == StatusCode::InvalidArgument || code == StatusCode::FailedPrecondition
                    || code == StatusCode::AlreadyExists {
                    Error::Connection(ConnectionError::ServerConnectionFailedStatusError {
                        error: String::from_str(message),
                    })
                } else if code == StatusCode::Unimplemented {
                    Error::Connection(ConnectionError::RPCMethodUnavailable { message: String::from_str(message) })
                } else {
                    Error::from_message(message)
                }
            },
        }
    }
}

} // verus!
