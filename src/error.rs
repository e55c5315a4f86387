use vstd::prelude::*;

use crate::address::{views, Address};
use crate::text::{decimal, decimal_of, join, joined_by, signed_decimal, signed_decimal_of, texts};
use crate::RequestID;

verus! {

/// Problems with the transport or the cluster topology.
pub enum ConnectionError {
    RPCMethodUnavailable { message: String },
    ConnectionOpenError,
    ConnectionIsClosed,
    TransactionIsClosed,
    TransactionIsClosedWithErrors { errors: String },
    DatabaseDoesNotExist { name: String },
    MissingResponseField { field: String },
    UnknownRequestId { request_id: RequestID },
    QueryStreamNoResponse,
    InvalidResponseField { name: String },
    UnexpectedResponse { response: String },
    ServerConnectionFailed { addresses: Vec<Address> },
    ServerConnectionFailedWithError { error: String },
    ServerConnectionFailedStatusError { error: String },
    UserManagementCloudOnly,
    CloudReplicaNotPrimary,
    CloudAllNodesFailed { errors: String },
    CloudTokenCredentialInvalid,
    SessionCloseFailed,
    CloudEncryptionSettingsMismatch,
    CloudSSLCertificateNotValidated,
    BrokenPipe,
    ConnectionFailed,
    MissingPort { address: String },
    AddressTranslationMismatch { unknown: Vec<Address>, unmapped: Vec<Address> },
    ValueTimeZoneNameNotRecognised { time_zone: String },
    ValueTimeZoneOffsetNotImplemented { offset: i32 },
    ValueStructNotImplemented,
    ListsNotImplemented,
}

/// Violations of the protocol's invariants on the client side.
pub enum InternalError {
    RecvError,
    SendError,
    UnexpectedRequestType { request_type: String },
    UnexpectedResponseType { response_type: String },
    UnknownServer { server: Address },
    EnumOutOfBounds { value: i32, enum_name: String },
}

/// A structured failure reported by a server node.
pub struct ServerError {
    pub error_code: String,
    pub error_domain: String,
    pub message: String,
    pub stack_trace: Vec<String>,
}

/// Every failure the driver reports.
pub enum Error {
    Connection(ConnectionError),
    Internal(InternalError),
    Server(ServerError),
    /// A query-language error, carried as the text that the query-language layer rendered.
    TypeQL(String),
    Other(String),
}

impl ServerError {
    pub fn new(error_code: String, error_domain: String, message: String, stack_trace: Vec<String>) -> (r: ServerError)
        ensures
            r == (ServerError { error_code, error_domain, message, stack_trace }),
    {
        ServerError { error_code, error_domain, message, stack_trace }
    }

    pub fn format_code(&self) -> (r: &str)
        ensures
            r@ == self.error_code@,
    {
        self.error_code.as_str()
    }

    pub fn message(&self) -> (r: &str)
        ensures
            r@ == self.message@,
    {
        self.message.as_str()
    }
}

impl ConnectionError {
    pub open spec fn spec_code(&self) -> nat {
        match self {
            ConnectionError::RPCMethodUnavailable { .. } => 1,
            ConnectionError::ConnectionOpenError => 100,
            ConnectionError::ConnectionIsClosed => 2,
            ConnectionError::TransactionIsClosed => 3,
            ConnectionError::TransactionIsClosedWithErrors { .. } => 4,
            ConnectionError::DatabaseDoesNotExist { .. } => 5,
            ConnectionError::MissingResponseField { .. } => 6,
            ConnectionError::UnknownRequestId { .. } => 7,
            ConnectionError::QueryStreamNoResponse => 101,
            ConnectionError::InvalidResponseField { .. } => 8,
            ConnectionError::UnexpectedResponse { .. } => 9,
            ConnectionError::ServerConnectionFailed { .. } => 10,
            ConnectionError::ServerConnectionFailedWithError { .. } => 11,
            ConnectionError::ServerConnectionFailedStatusError { .. } => 12,
            ConnectionError::UserManagementCloudOnly => 13,
            ConnectionError::CloudReplicaNotPrimary => 14,
            ConnectionError::CloudAllNodesFailed { .. } => 15,
            ConnectionError::CloudTokenCredentialInvalid => 16,
            ConnectionError::SessionCloseFailed => 17,
            ConnectionError::CloudEncryptionSettingsMismatch => 18,
            ConnectionError::CloudSSLCertificateNotValidated => 19,
            ConnectionError::BrokenPipe => 20,
            ConnectionError::ConnectionFailed => 21,
            ConnectionError::MissingPort { .. } => 22,
            ConnectionError::AddressTranslationMismatch { .. } => 23,
            ConnectionError::ValueTimeZoneNameNotRecognised { .. } => 24,
            ConnectionError::ValueTimeZoneOffsetNotImplemented { .. } => 25,
            ConnectionError::ValueStructNotImplemented => 26,
            ConnectionError::ListsNotImplemented => 27,
        }
    }

    /// The number of this error within the connection catalogue.
    pub fn code(&self) -> (r: usize)
        ensures
            r == self.spec_code(),
    {
        match self {
            ConnectionError::RPCMethodUnavailable { .. } => 1,
            ConnectionError::ConnectionOpenError => 100,
            ConnectionError::ConnectionIsClosed => 2,
            ConnectionError::TransactionIsClosed => 3,
            ConnectionError::TransactionIsClosedWithErrors { .. } => 4,
            ConnectionError::DatabaseDoesNotExist { .. } => 5,
            ConnectionError::MissingResponseField { .. } => 6,
            ConnectionError::UnknownRequestId { .. } => 7,
            ConnectionError::QueryStreamNoResponse => 101,
            ConnectionError::InvalidResponseField { .. } => 8,
            ConnectionError::UnexpectedResponse { .. } => 9,
            ConnectionError::ServerConnectionFailed { .. } => 10,
            ConnectionError::ServerConnectionFailedWithError { .. } => 11,
            ConnectionError::ServerConnectionFailedStatusError { .. } => 12,
            ConnectionError::UserManagementCloudOnly => 13,
            ConnectionError::CloudReplicaNotPrimary => 14,
            ConnectionError::CloudAllNodesFailed { .. } => 15,
            ConnectionError::CloudTokenCredentialInvalid => 16,
            ConnectionError::SessionCloseFailed => 17,
            ConnectionError::CloudEncryptionSettingsMismatch => 18,
            ConnectionError::CloudSSLCertificateNotValidated => 19,
            ConnectionError::BrokenPipe => 20,
            ConnectionError::ConnectionFailed => 21,
            ConnectionError::MissingPort { .. } => 22,
            ConnectionError::AddressTranslationMismatch { .. } => 23,
            ConnectionError::ValueTimeZoneNameNotRecognised { .. } => 24,
            ConnectionError::ValueTimeZoneOffsetNotImplemented { .. } => 25,
            ConnectionError::ValueStructNotImplemented => 26,
            ConnectionError::ListsNotImplemented => 27,
        }
    }
}

impl InternalError {
    pub open spec fn spec_code(&self) -> nat {
        match self {
            InternalError::RecvError => 1,
            InternalError::SendError => 2,
            InternalError::UnexpectedRequestType { .. } => 3,
            InternalError::UnexpectedResponseType { .. } => 4,
            InternalError::UnknownServer { .. } => 5,
            InternalError::EnumOutOfBounds { .. } => 6,
        }
    }

    /// The number of this error within the internal catalogue.
    pub fn code(&self) -> (r: usize)
        ensures
            r == self.spec_code(),
    {
        match self {
            InternalError::RecvError => 1,
            InternalError::SendError => 2,
            InternalError::UnexpectedRequestType { .. } => 3,
            InternalError::UnexpectedResponseType { .. } => 4,
            InternalError::UnknownServer { .. } => 5,
            InternalError::EnumOutOfBounds { .. } => 6,
        }
    }
}

/// Renders addresses as a list between `open` and `close`, separated by commas.
fn address_list(list: &Vec<Address>, open: &str, close: &str) -> (r: String)
    ensures
        r@ == open@ + joined_by(views(list@), ", "@) + close@,
{
    let mut items: Vec<String> = Vec::new();
    let mut i: usize = 0;
    while i < list.len()
        invariant
            i <= list.len(),
            items@.len() == i,
            forall|k: int| 0 <= k < i ==> #[trigger] items@[k]@ == list@[k]@,
        decreases list.len() - i,
    {
        items.push(list[i].text.clone());
        i = i + 1;
    }
    assert(texts(items@) =~= views(list@));
    String::from_str(open).concat(join(&items, ", ").as_str()).concat(close)
}

impl ConnectionError {
    /// The catalogue text of this error, its fields filled in.
    pub open spec fn message_text(&self) -> Seq<char> {
        match self {
            ConnectionError::RPCMethodUnavailable { message } => "The server does not support this method, please check the driver-server compatibility:\n'"@
                    + message@
                    + "'."@,
            ConnectionError::ConnectionOpenError => "Error opening connection."@,
            ConnectionError::ConnectionIsClosed => "The connection has been closed and no further operation is allowed."@,
            ConnectionError::TransactionIsClosed => "The transaction is closed and no further operation is allowed."@,
            ConnectionError::TransactionIsClosedWithErrors { errors } => "The transaction is closed because of the error(s):\n"@
                    + errors@,
            ConnectionError::DatabaseDoesNotExist { name } => "The database '"@
                    + name@
                    + "' does not exist."@,
            ConnectionError::MissingResponseField { field } => "Missing field in message received from server: '"@
                    + field@
                    + "'. This is either a version compatibility issue or a bug."@,
            ConnectionError::UnknownRequestId { request_id } => "Received a response with unknown request id '"@
                    + decimal_of(request_id as nat)
                    + "'"@,
            ConnectionError::QueryStreamNoResponse => "Didn't receive any server responses for the query."@,
            ConnectionError::InvalidResponseField { name } => "Invalid field in message received from server: '"@
                    + name@
                    + "'. This is either a version compatibility issue or a bug."@,
            ConnectionError::UnexpectedResponse { response } => "Received unexpected response from server: '"@
                    + response@
                    + "'. This is either a version compatibility issue or a bug."@,
            ConnectionError::ServerConnectionFailed { addresses } => "Unable to connect to TypeDB server(s) at: \n"@
                    + "["@
                    + joined_by(views(addresses@), ", "@)
                    + "]"@,
            ConnectionError::ServerConnectionFailedWithError { error } => "Unable to connect to TypeDB server(s), received errors: \n"@
                    + error@,
            ConnectionError::ServerConnectionFailedStatusError { error } => "Unable to connect to TypeDB server(s), received network or protocol error: \n"@
                    + error@,
            ConnectionError::UserManagementCloudOnly => "User management is only available in TypeDB Cloud servers."@,
            ConnectionError::CloudReplicaNotPrimary => "The replica is not the primary replica."@,
            ConnectionError::CloudAllNodesFailed { errors } => "Attempted connecting to all TypeDB Cloud servers, but the following errors occurred: \n"@
                    + errors@
                    + "."@,
            ConnectionError::CloudTokenCredentialInvalid => "Invalid token credential."@,
            ConnectionError::SessionCloseFailed => "Failed to close session. It may still be open on the server: or it may already have been closed previously."@,
            ConnectionError::CloudEncryptionSettingsMismatch => "Unable to connect to TypeDB Cloud: possible encryption settings mismatch."@,
            ConnectionError::CloudSSLCertificateNotValidated => "SSL handshake with TypeDB Cloud failed: the server's identity could not be verified. Possible CA mismatch."@,
            ConnectionError::BrokenPipe => "Stream closed because of a broken pipe. This could happen if you are attempting to connect to an unencrypted cloud instance using a TLS-enabled credential."@,
            ConnectionError::ConnectionFailed => "Connection failed. Please check the server is running and the address is accessible. Encrypted Cloud endpoints may also have misconfigured SSL certificates."@,
            ConnectionError::MissingPort { address } => "Invalid URL '"@ + address@ + "': missing port."@,
            ConnectionError::AddressTranslationMismatch { unknown, unmapped } => "Address translation map does not match the server's advertised address list. User-provided servers not in the advertised list: "@
                    + "{"@
                    + joined_by(views(unknown@), ", "@)
                    + "}"@
                    + ". Advertised servers not mapped by user: "@
                    + "{"@
                    + joined_by(views(unmapped@), ", "@)
                    + "}"@
                    + "."@,
            ConnectionError::ValueTimeZoneNameNotRecognised { time_zone } => "Time zone provided by the server has name '"@
                    + time_zone@
                    + "', which is not an officially recognized timezone."@,
            ConnectionError::ValueTimeZoneOffsetNotImplemented { offset } => "Time zone provided by the server has numerical offset '"@
                    + signed_decimal_of(offset as int)
                    + "', which is not yet supported by the driver."@,
            ConnectionError::ValueStructNotImplemented => "Struct valued responses are not yet supported by the driver."@,
            ConnectionError::ListsNotImplemented => "Lists are not yet supported by the driver."@,
        }
    }

    pub fn message(&self) -> (r: String)
        ensures
            r@ == self.message_text(),
    {
        match self {
            ConnectionError::RPCMethodUnavailable { message } => String::from_str("The server does not support this method, please check the driver-server compatibility:\n'")
                .concat(message.as_str())
                .concat("'."),
            ConnectionError::ConnectionOpenError => String::from_str("Error opening connection."),
            ConnectionError::ConnectionIsClosed => String::from_str("The connection has been closed and no further operation is allowed."),
            ConnectionError::TransactionIsClosed => String::from_str("The transaction is closed and no further operation is allowed."),
            ConnectionError::TransactionIsClosedWithErrors { errors } => String::from_str("The transaction is closed because of the error(s):\n")
                .concat(errors.as_str()),
            ConnectionError::DatabaseDoesNotExist { name } => String::from_str("The database '")
                .concat(name.as_str())
                .concat("' does not exist."),
            ConnectionError::MissingResponseField { field } => String::from_str("Missing field in message received from server: '")
                .concat(field.as_str())
                .concat("'. This is either a version compatibility issue or a bug."),
            ConnectionError::UnknownRequestId { request_id } => String::from_str("Received a response with unknown request id '")
                .concat(decimal(*request_id).as_str())
                .concat("'"),
            ConnectionError::QueryStreamNoResponse => String::from_str("Didn't receive any server responses for the query."),
            ConnectionError::InvalidResponseField { name } => String::from_str("Invalid field in message received from server: '")
                .concat(name.as_str())
                .concat("'. This is either a version compatibility issue or a bug."),
            ConnectionError::UnexpectedResponse { response } => String::from_str("Received unexpected response from server: '")
                .concat(response.as_str())
                .concat("'. This is either a version compatibility issue or a bug."),
            ConnectionError::ServerConnectionFailed { addresses } => String::from_str("Unable to connect to TypeDB server(s) at: \n")
                .concat(address_list(addresses, "[", "]").as_str()),
            ConnectionError::ServerConnectionFailedWithError { error } => String::from_str("Unable to connect to TypeDB server(s), received errors: \n")
                .concat(error.as_str()),
            ConnectionError::ServerConnectionFailedStatusError { error } => String::from_str("Unable to connect to TypeDB server(s), received network or protocol error: \n")
                .concat(error.as_str()),
            ConnectionError::UserManagementCloudOnly => String::from_str("User management is only available in TypeDB Cloud servers."),
            ConnectionError::CloudReplicaNotPrimary => String::from_str("The replica is not the primary replica."),
            ConnectionError::CloudAllNodesFailed { errors } => String::from_str("Attempted connecting to all TypeDB Cloud servers, but the following errors occurred: \n")
                .concat(errors.as_str())
                .concat("."),
            ConnectionError::CloudTokenCredentialInvalid => String::from_str("Invalid token credential."),
            ConnectionError::SessionCloseFailed => String::from_str("Failed to close session. It may still be open on the server: or it may already have been closed previously."),
            ConnectionError::CloudEncryptionSettingsMismatch => String::from_str("Unable to connect to TypeDB Cloud: possible encryption settings mismatch."),
            ConnectionError::CloudSSLCertificateNotValidated => String::from_str("SSL handshake with TypeDB Cloud failed: the server's identity could not be verified. Possible CA mismatch."),
            ConnectionError::BrokenPipe => String::from_str("Stream closed because of a broken pipe. This could happen if you are attempting to connect to an unencrypted cloud instance using a TLS-enabled credential."),
            ConnectionError::ConnectionFailed => String::from_str("Connection failed. Please check the server is running and the address is accessible. Encrypted Cloud endpoints may also have misconfigured SSL certificates."),
            ConnectionError::MissingPort { address } => String::from_str("Invalid URL '")
                .concat(address.as_str())
                .concat("': missing port."),
            ConnectionError::AddressTranslationMismatch { unknown, unmapped } => String::from_str("Address translation map does not match the server's advertised address list. User-provided servers not in the advertised list: ")
                .concat(address_list(unknown, "{", "}").as_str())
                .concat(". Advertised servers not mapped by user: ")
                .concat(address_list(unmapped, "{", "}").as_str())
                .concat("."),
            ConnectionError::ValueTimeZoneNameNotRecognised { time_zone } => String::from_str("Time zone provided by the server has name '")
                .concat(time_zone.as_str())
                .concat("', which is not an officially recognized timezone."),
            ConnectionError::ValueTimeZoneOffsetNotImplemented { offset } => String::from_str("Time zone provided by the server has numerical offset '")
                .concat(signed_decimal(*offset).as_str())
                .concat("', which is not yet supported by the driver."),
            ConnectionError::ValueStructNotImplemented => String::from_str("Struct valued responses are not yet supported by the driver."),
            ConnectionError::ListsNotImplemented => String::from_str("Lists are not yet supported by the driver."),
        }
    }

    /// The zeros that pad this error's number to the width of the largest one.
    pub open spec fn padding(&self) -> Seq<char> {
        if self.spec_code() < 10 {
            "00"@
        } else if self.spec_code() < 100 {
            "0"@
        } else {
            Seq::empty()
        }
    }

    pub open spec fn code_text(&self) -> Seq<char> {
        "[CXN"@ + self.padding() + decimal_of(self.spec_code()) + "]"@
    }

    /// The bracketed code of this error, such as `[CXN003]`.
    pub fn format_code(&self) -> (r: String)
        ensures
            r@ == self.code_text(),
    {
        let n = self.code();
        let pad = if n < 10 {
            "00"
        } else if n < 100 {
            "0"
        } else {
            ""
        };
        proof {
            reveal_strlit("");
        }
        String::from_str("[CXN").concat(pad).concat(decimal(n as u64).as_str()).concat("]")
    }

    /// The code, the kind and the message, as one line of text.
    pub open spec fn text(&self) -> Seq<char> {
        self.code_text() + " Connection Error: "@ + self.message_text()
    }

    pub fn to_text(&self) -> (r: String)
        ensures
            r@ == self.text(),
    {
        self.format_code().concat(" Connection Error: ").concat(self.message().as_str())
    }
}

impl InternalError {
    /// The catalogue text of this error, its fields filled in.
    pub open spec fn message_text(&self) -> Seq<char> {
        match self {
            InternalError::RecvError => "Channel is closed."@,
            InternalError::SendError => "Unable to send response over callback channel (receiver dropped)."@,
            InternalError::UnexpectedRequestType { request_type } => "Unexpected request type for remote procedure call: "@
                    + request_type@
                    + ". This is either a version compatibility issue or a bug."@,
            InternalError::UnexpectedResponseType { response_type } => "Unexpected response type for remote procedure call: "@
                    + response_type@
                    + ". This is either a version compatibility issue or a bug."@,
            InternalError::UnknownServer { server } => "Received replica at unrecognized server: "@
                    + server@
                    + "."@,
            InternalError::EnumOutOfBounds { value, enum_name } => "Value '"@
                    + signed_decimal_of(value as int)
                    + "' is out of bounds for enum '"@
                    + enum_name@
                    + "'."@,
        }
    }

    pub fn message(&self) -> (r: String)
        ensures
            r@ == self.message_text(),
    {
        match self {
            InternalError::RecvError => String::from_str("Channel is closed."),
            InternalError::SendError => String::from_str("Unable to send response over callback channel (receiver dropped)."),
            InternalError::UnexpectedRequestType { request_type } => String::from_str("Unexpected request type for remote procedure call: ")
                .concat(request_type.as_str())
                .concat(". This is either a version compatibility issue or a bug."),
            InternalError::UnexpectedResponseType { response_type } => String::from_str("Unexpected response type for remote procedure call: ")
                .concat(response_type.as_str())
                .concat(". This is either a version compatibility issue or a bug."),
            InternalError::UnknownServer { server } => String::from_str("Received replica at unrecognized server: ")
                .concat(server.as_str())
                .concat("."),
            InternalError::EnumOutOfBounds { value, enum_name } => String::from_str("Value '")
                .concat(signed_decimal(*value).as_str())
                .concat("' is out of bounds for enum '")
                .concat(enum_name.as_str())
                .concat("'."),
        }
    }

    pub open spec fn code_text(&self) -> Seq<char> {
        "[INT"@ + decimal_of(self.spec_code()) + "]"@
    }

    /// The bracketed code of this error, such as `[INT2]`.
    pub fn format_code(&self) -> (r: String)
        ensures
            r@ == self.code_text(),
    {
        String::from_str("[INT").concat(decimal(self.code() as u64).as_str()).concat("]")
    }

    /// The code, the kind and the message, as one line of text.
    pub open spec fn text(&self) -> Seq<char> {
        self.code_text() + " Internal Error: "@ + self.message_text()
    }

    pub fn to_text(&self) -> (r: String)
        ensures
            r@ == self.text(),
    {
        self.format_code().concat(" Internal Error: ").concat(self.message().as_str())
    }
}

impl ServerError {
    /// The rendering of a server error: its code, domain and message, or the
    /// chain of its stack trace where it has one.
    pub open spec fn text(&self) -> Seq<char> {
        if self.stack_trace@.len() == 0 {
            "["@ + self.error_code@ + "] "@ + self.error_domain@ + ". "@ + self.message@
        } else {
            "\n"@ + joined_by(texts(self.stack_trace@), "\nCaused: "@)
        }
    }

    pub fn to_text(&self) -> (r: String)
        ensures
            r@ == self.text(),
    {
        if self.stack_trace.len() == 0 {
            String::from_str("[").concat(self.error_code.as_str()).concat("] ").concat(
                self.error_domain.as_str(),
            ).concat(". ").concat(self.message.as_str())
        } else {
            String::from_str("\n").concat(join(&self.stack_trace, "\nCaused: ").as_str())
        }
    }
}

impl Error {
    /// The bracketed code of the error; errors without one give empty text.
    pub open spec fn code_text(&self) -> Seq<char> {
        match self {
            Error::Connection(c) => c.code_text(),
            Error::Internal(i) => i.code_text(),
            Error::Server(s) => s.error_code@,
            _ => Seq::empty(),
        }
    }

    pub fn code(&self) -> (r: String)
        ensures
            r@ == self.code_text(),
    {
        match self {
            Error::Connection(c) => c.format_code(),
            Error::Internal(i) => i.format_code(),
            Error::Server(s) => String::from_str(s.format_code()),
            Error::TypeQL(_) => String::new(),
            Error::Other(_) => String::new(),
        }
    }

    /// The message of the error; a query-language error passes its text through.
    pub open spec fn message_text(&self) -> Seq<char> {
        match self {
            Error::Connection(c) => c.message_text(),
            Error::Internal(i) => i.message_text(),
            Error::Server(s) => s.message@,
            Error::TypeQL(t) => t@,
            Error::Other(m) => m@,
        }
    }

    pub fn message(&self) -> (r: String)
        ensures
            r@ == self.message_text(),
    {
        match self {
            Error::Connection(c) => c.message(),
            Error::Internal(i) => i.message(),
            Error::Server(s) => String::from_str(s.message()),
            Error::TypeQL(t) => t.clone(),
            Error::Other(m) => m.clone(),
        }
    }

    /// The full rendering of the error.
    pub open spec fn text(&self) -> Seq<char> {
        match self {
            Error::Connection(c) => c.text(),
            Error::Internal(i) => i.text(),
            Error::Server(s) => s.text(),
            Error::TypeQL(t) => t@,
            Error::Other(m) => m@,
        }
    }

    pub fn to_text(&self) -> (r: String)
        ensures
            r@ == self.text(),
    {
        match self {
            Error::Connection(c) => c.to_text(),
            Error::Internal(i) => i.to_text(),
            Error::Server(s) => s.to_text(),
            Error::TypeQL(t) => t.clone(),
            Error::Other(m) => m.clone(),
        }
    }
}

} // verus!
