//! Error kinds reported by the driver and their numeric codes.
use vstd::prelude::*;

use crate::text::{decimal, lemma_decimal_not_empty, to_decimal};

verus! {

/// The code the driver reports on success.
pub const CASS_OK: u32 = 0;

/// The code of each error the driver is known to report: the error's source
/// (1 for the library, 2 for the server, 3 for the TLS layer) in the top byte,
/// the error's number within that source below it.
pub const LIB_BAD_PARAMS: u32 = 0x01000001;
pub const LIB_CALLBACK_ALREADY_SET: u32 = 0x01000010;
pub const LIB_EXECUTION_PROFILE_INVALID: u32 = 0x01000022;
pub const LIB_HOST_RESOLUTION: u32 = 0x01000005;
pub const LIB_INDEX_OUT_OF_BOUNDS: u32 = 0x0100000B;
pub const LIB_INTERNAL_ERROR: u32 = 0x0100001C;
pub const LIB_INVALID_CUSTOM_TYPE: u32 = 0x0100001D;
pub const LIB_INVALID_DATA: u32 = 0x0100001E;
pub const LIB_INVALID_ERROR_RESULT_TYPE: u32 = 0x0100001A;
pub const LIB_INVALID_FUTURE_TYPE: u32 = 0x0100001B;
pub const LIB_INVALID_ITEM_COUNT: u32 = 0x0100000C;
pub const LIB_INVALID_STATE: u32 = 0x01000020;
pub const LIB_INVALID_STATEMENT_TYPE: u32 = 0x01000011;
pub const LIB_INVALID_VALUE_TYPE: u32 = 0x0100000D;
pub const LIB_MESSAGE_ENCODE: u32 = 0x01000004;
pub const LIB_NAME_DOES_NOT_EXIST: u32 = 0x01000012;
pub const LIB_NOT_ENOUGH_DATA: u32 = 0x0100001F;
pub const LIB_NOT_IMPLEMENTED: u32 = 0x01000015;
pub const LIB_NO_AVAILABLE_IO_THREAD: u32 = 0x01000008;
pub const LIB_NO_CUSTOM_PAYLOAD: u32 = 0x01000021;
pub const LIB_NO_HOSTS_AVAILABLE: u32 = 0x0100000A;
pub const LIB_NO_PAGING_STATE: u32 = 0x01000018;
pub const LIB_NO_STREAMS: u32 = 0x01000002;
pub const LIB_NO_TRACING_ID: u32 = 0x01000023;
pub const LIB_NULL_VALUE: u32 = 0x01000014;
pub const LIB_PARAMETER_UNSET: u32 = 0x01000019;
pub const LIB_REQUEST_QUEUE_FULL: u32 = 0x01000007;
pub const LIB_REQUEST_TIMED_OUT: u32 = 0x0100000E;
pub const LIB_UNABLE_TO_CLOSE: u32 = 0x01000017;
pub const LIB_UNABLE_TO_CONNECT: u32 = 0x01000016;
pub const LIB_UNABLE_TO_DETERMINE_PROTOCOL: u32 = 0x01000013;
pub const LIB_UNABLE_TO_INIT: u32 = 0x01000003;
pub const LIB_UNABLE_TO_SET_KEYSPACE: u32 = 0x0100000F;
pub const LIB_UNEXPECTED_RESPONSE: u32 = 0x01000006;
pub const LIB_WRITE_ERROR: u32 = 0x01000009;
pub const SERVER_ALREADY_EXISTS: u32 = 0x02002400;
pub const SERVER_BAD_CREDENTIALS: u32 = 0x02000100;
pub const SERVER_CONFIG_ERROR: u32 = 0x02002300;
pub const SERVER_FUNCTION_FAILURE: u32 = 0x02001400;
pub const SERVER_INVALID_QUERY: u32 = 0x02002200;
pub const SERVER_IS_BOOTSTRAPPING: u32 = 0x02001002;
pub const SERVER_OVERLOADED: u32 = 0x02001001;
pub const SERVER_PROTOCOL_ERROR: u32 = 0x0200000A;
pub const SERVER_READ_FAILURE: u32 = 0x02001300;
pub const SERVER_READ_TIMEOUT: u32 = 0x02001200;
pub const SERVER_SERVER_ERROR: u32 = 0x02000000;
pub const SERVER_SYNTAX_ERROR: u32 = 0x02002000;
pub const SERVER_TRUNCATE_ERROR: u32 = 0x02001003;
pub const SERVER_UNAUTHORIZED: u32 = 0x02002100;
pub const SERVER_UNAVAILABLE: u32 = 0x02001000;
pub const SERVER_UNPREPARED: u32 = 0x02002500;
pub const SERVER_WRITE_FAILURE: u32 = 0x02001500;
pub const SERVER_WRITE_TIMEOUT: u32 = 0x02001100;
pub const SSL_CLOSED: u32 = 0x03000007;
pub const SSL_IDENTITY_MISMATCH: u32 = 0x03000005;
pub const SSL_INVALID_CERT: u32 = 0x03000001;
pub const SSL_INVALID_PEER_CERT: u32 = 0x03000004;
pub const SSL_INVALID_PRIVATE_KEY: u32 = 0x03000002;
pub const SSL_NO_PEER_CERT: u32 = 0x03000003;
pub const SSL_PROTOCOL_ERROR: u32 = 0x03000006;

/// The family of an error: the driver
/// itself, the cluster, or the transport layer; codes that none of the tables
/// holds stay unknown.
#[derive(Debug, Copy, Clone, PartialEq, Eq, Structural)]
pub enum ErrorFamily {
    /// Misuse of the driver or a fault inside it.
    Library,
    /// The cluster rejected or failed the operation.
    Server,
    /// A fault of the TLS or connection layer.
    Transport,
    /// A code that this library does not know.
    Unknown,
}

/// The category of an error the driver reported.
///
/// The driver reports errors from three sources: the driver itself (`Lib*`),
/// the server (`Server*`) and the TLS layer (`Ssl*`). A code that none of the
/// tables knows is kept as it is in `Other`, so that newer driver versions
/// still map to a value.
#[derive(Debug, Copy, Clone, PartialEq, Eq, Structural)]
pub enum DriverErrorKind {
    /// The incorrect params were passed to a driver's function.
    LibBadParams,
    /// The future callback was already set.
    LibCallbackAlreadySet,
    /// The execution profile is invalid or does not exist.
    LibExecutionProfileInvalid,
    /// Failed to resolve the host.
    LibHostResolution,
    /// The index is out of bounds.
    ///
    /// This is returned by many functions that take an index as a parameter.
    LibIndexOutOfBounds,
    /// The driver encountered an internal error which is most likely a bug.
    LibInternalError,
    /// The value has invalid custom data type.
    LibInvalidCustomType,
    /// An error occurred while parsing or validating data coming from
    /// Cassandra.
    LibInvalidData,
    /// The requested data cannot be extracted from the error result because
    /// its type does not support it.
    LibInvalidErrorResultType,
    /// The requested data cannot be extracted from the future because its type
    /// does not support it.
    LibInvalidFutureType,
    /// The collection has an invalid item count.
    ///
    /// For example, a Cassandra map with an odd number of items.
    LibInvalidItemCount,
    /// The driver failed tp perform an operation because of an invalid state.
    ///
    /// This is most likely a bug in the driver.
    LibInvalidState,
    /// The statement has an invalid type.
    ///
    /// Currently, the driver does not use this error code.
    LibInvalidStatementType,
    /// Cannot perform the operation because of an invalid value type.
    ///
    /// For example, this happens when a trying to get a `tinyint` as a `text`.
    LibInvalidValueType,
    /// The operation is unsupported by the current version of the protocol or
    /// the encoded request had no data to write.
    LibMessageEncode,
    /// There is no such name in the data.
    LibNameDoesNotExist,
    /// The driver did not receive enough data to perform the operation.
    LibNotEnoughData,
    /// The operation is not implemented.
    LibNotImplemented,
    /// No IO threads are available.
    LibNoAvailableIoThread,
    /// Failed to get the custom payload from the driver's future.
    LibNoCustomPayload,
    /// The driver's session cannot connect to any hosts.
    LibNoHostsAvailable,
    /// The response from the server does not contain a paging state token.
    LibNoPagingState,
    /// The driver's session has no networking streams available.
    LibNoStreams,
    /// The response from the server does not contain a tracing ID.
    LibNoTracingId,
    /// Tried to extract data from a Cassandra value that is `NULL`.
    LibNullValue,
    /// The statement's parameter is not set, i.e. it is unbound.
    LibParameterUnset,
    /// The request queue has reached its capacity.
    LibRequestQueueFull,
    /// The request timed out.
    LibRequestTimedOut,
    /// Cannot close the session because it is already closed or is closing.
    LibUnableToClose,
    /// The driver was unable to connect to the server for unknown reason.
    ///
    /// This is most likely a bug in the driver.
    LibUnableToConnect,
    /// The driver was unable to determine the protocol version to use.
    LibUnableToDetermineProtocol,
    /// The driver was unable to initialize one of its subsystems.
    LibUnableToInit,
    /// The driver was unable to set the keyspace.
    LibUnableToSetKeyspace,
    /// The driver received an unexpected response from the server.
    LibUnexpectedResponse,
    /// The driver encountered an error while writing data to the server.
    LibWriteError,
    /// The query attempted to create a keyspace or a table that was already
    /// existing.
    ServerAlreadyExists,
    /// Authentication was required and failed.
    ///
    /// The possible reason for failing depends on the authenticator in use,
    /// which may or may not include more detail in the accompanying error
    /// message.
    ServerBadCredentials,
    /// The query is invalid because of a configuration issue.
    ServerConfigError,
    /// A (user defined) function failed during execution.
    ServerFunctionFailure,
    /// The query is syntactically correct but invalid.
    ServerInvalidQuery,
    /// The request was a read request but the coordinator node is
    /// bootstrapping.
    ServerIsBootstrapping,
    /// The request cannot be processed because the coordinator node is
    /// overloaded.
    ServerOverloaded,
    /// A client message triggered a protocol violation.
    ServerProtocolError,
    /// A non-timeout error during a read request.
    ServerReadFailure,
    /// Timeout error during a read request.
    ServerReadTimeout,
    /// Something unexpected happened.
    ///
    /// This indicates a server-side bug.
    ServerServerError,
    /// The submitted query has a syntax error.
    ServerSyntaxError,
    /// A `TRUNCATE` operation triggered an error.
    ServerTruncateError,
    /// The logged user doesn't have the right to perform the query.
    ServerUnauthorized,
    /// The server is not available.
    ServerUnavailable,
    /// Can happen while a prepared statement tries to be executed if the
    /// provided prepared statement ID is not known by this host.
    ServerUnprepared,
    /// A non-timeout error during a write request.
    ServerWriteFailure,
    /// Timeout error during a write request.
    ServerWriteTimeout,
    /// The SSL connection was closed.
    SslClosed,
    /// The certificate does not match the host or IP address.
    SslIdentityMismatch,
    /// The certificate is invalid.
    SslInvalidCert,
    /// The peer certificate is invalid.
    SslInvalidPeerCert,
    /// The private key is invalid.
    SslInvalidPrivateKey,
    /// No peer certificate was provided.
    SslNoPeerCert,
    /// An SSL protocol error occurred.
    SslProtocolError,
    /// The driver returned an error which code is unknown to this crate.
    Other(u32),
}

/// The native code of each kind; `Other` carries its own.
pub open spec fn code_of(kind: DriverErrorKind) -> u32 {
    match kind {
        DriverErrorKind::LibBadParams => LIB_BAD_PARAMS,
        DriverErrorKind::LibCallbackAlreadySet => LIB_CALLBACK_ALREADY_SET,
        DriverErrorKind::LibExecutionProfileInvalid => LIB_EXECUTION_PROFILE_INVALID,
        DriverErrorKind::LibHostResolution => LIB_HOST_RESOLUTION,
        DriverErrorKind::LibIndexOutOfBounds => LIB_INDEX_OUT_OF_BOUNDS,
        DriverErrorKind::LibInternalError => LIB_INTERNAL_ERROR,
        DriverErrorKind::LibInvalidCustomType => LIB_INVALID_CUSTOM_TYPE,
        DriverErrorKind::LibInvalidData => LIB_INVALID_DATA,
        DriverErrorKind::LibInvalidErrorResultType => LIB_INVALID_ERROR_RESULT_TYPE,
        DriverErrorKind::LibInvalidFutureType => LIB_INVALID_FUTURE_TYPE,
        DriverErrorKind::LibInvalidItemCount => LIB_INVALID_ITEM_COUNT,
        DriverErrorKind::LibInvalidState => LIB_INVALID_STATE,
        DriverErrorKind::LibInvalidStatementType => LIB_INVALID_STATEMENT_TYPE,
        DriverErrorKind::LibInvalidValueType => LIB_INVALID_VALUE_TYPE,
        DriverErrorKind::LibMessageEncode => LIB_MESSAGE_ENCODE,
        DriverErrorKind::LibNameDoesNotExist => LIB_NAME_DOES_NOT_EXIST,
        DriverErrorKind::LibNotEnoughData => LIB_NOT_ENOUGH_DATA,
        DriverErrorKind::LibNotImplemented => LIB_NOT_IMPLEMENTED,
        DriverErrorKind::LibNoAvailableIoThread => LIB_NO_AVAILABLE_IO_THREAD,
        DriverErrorKind::LibNoCustomPayload => LIB_NO_CUSTOM_PAYLOAD,
        DriverErrorKind::LibNoHostsAvailable => LIB_NO_HOSTS_AVAILABLE,
        DriverErrorKind::LibNoPagingState => LIB_NO_PAGING_STATE,
        DriverErrorKind::LibNoStreams => LIB_NO_STREAMS,
        DriverErrorKind::LibNoTracingId => LIB_NO_TRACING_ID,
        DriverErrorKind::LibNullValue => LIB_NULL_VALUE,
        DriverErrorKind::LibParameterUnset => LIB_PARAMETER_UNSET,
        DriverErrorKind::LibRequestQueueFull => LIB_REQUEST_QUEUE_FULL,
        DriverErrorKind::LibRequestTimedOut => LIB_REQUEST_TIMED_OUT,
        DriverErrorKind::LibUnableToClose => LIB_UNABLE_TO_CLOSE,
        DriverErrorKind::LibUnableToConnect => LIB_UNABLE_TO_CONNECT,
        DriverErrorKind::LibUnableToDetermineProtocol => LIB_UNABLE_TO_DETERMINE_PROTOCOL,
        DriverErrorKind::LibUnableToInit => LIB_UNABLE_TO_INIT,
        DriverErrorKind::LibUnableToSetKeyspace => LIB_UNABLE_TO_SET_KEYSPACE,
        DriverErrorKind::LibUnexpectedResponse => LIB_UNEXPECTED_RESPONSE,
        DriverErrorKind::LibWriteError => LIB_WRITE_ERROR,
        DriverErrorKind::ServerAlreadyExists => SERVER_ALREADY_EXISTS,
        DriverErrorKind::ServerBadCredentials => SERVER_BAD_CREDENTIALS,
        DriverErrorKind::ServerConfigError => SERVER_CONFIG_ERROR,
        DriverErrorKind::ServerFunctionFailure => SERVER_FUNCTION_FAILURE,
        DriverErrorKind::ServerInvalidQuery => SERVER_INVALID_QUERY,
        DriverErrorKind::ServerIsBootstrapping => SERVER_IS_BOOTSTRAPPING,
        DriverErrorKind::ServerOverloaded => SERVER_OVERLOADED,
        DriverErrorKind::ServerProtocolError => SERVER_PROTOCOL_ERROR,
        DriverErrorKind::ServerReadFailure => SERVER_READ_FAILURE,
        DriverErrorKind::ServerReadTimeout => SERVER_READ_TIMEOUT,
        DriverErrorKind::ServerServerError => SERVER_SERVER_ERROR,
        DriverErrorKind::ServerSyntaxError => SERVER_SYNTAX_ERROR,
        DriverErrorKind::ServerTruncateError => SERVER_TRUNCATE_ERROR,
        DriverErrorKind::ServerUnauthorized => SERVER_UNAUTHORIZED,
        DriverErrorKind::ServerUnavailable => SERVER_UNAVAILABLE,
        DriverErrorKind::ServerUnprepared => SERVER_UNPREPARED,
        DriverErrorKind::ServerWriteFailure => SERVER_WRITE_FAILURE,
        DriverErrorKind::ServerWriteTimeout => SERVER_WRITE_TIMEOUT,
        DriverErrorKind::SslClosed => SSL_CLOSED,
        DriverErrorKind::SslIdentityMismatch => SSL_IDENTITY_MISMATCH,
        DriverErrorKind::SslInvalidCert => SSL_INVALID_CERT,
        DriverErrorKind::SslInvalidPeerCert => SSL_INVALID_PEER_CERT,
        DriverErrorKind::SslInvalidPrivateKey => SSL_INVALID_PRIVATE_KEY,
        DriverErrorKind::SslNoPeerCert => SSL_NO_PEER_CERT,
        DriverErrorKind::SslProtocolError => SSL_PROTOCOL_ERROR,
        DriverErrorKind::Other(code) => code,
    }
}

/// Whether `code` is one of the error codes in the tables above.
pub open spec fn is_known_code(code: u32) -> bool {
    ||| code == LIB_BAD_PARAMS
    ||| code == LIB_CALLBACK_ALREADY_SET
    ||| code == LIB_EXECUTION_PROFILE_INVALID
    ||| code == LIB_HOST_RESOLUTION
    ||| code == LIB_INDEX_OUT_OF_BOUNDS
    ||| code == LIB_INTERNAL_ERROR
    ||| code == LIB_INVALID_CUSTOM_TYPE
    ||| code == LIB_INVALID_DATA
    ||| code == LIB_INVALID_ERROR_RESULT_TYPE
    ||| code == LIB_INVALID_FUTURE_TYPE
    ||| code == LIB_INVALID_ITEM_COUNT
    ||| code == LIB_INVALID_STATE
    ||| code == LIB_INVALID_STATEMENT_TYPE
    ||| code == LIB_INVALID_VALUE_TYPE
    ||| code == LIB_MESSAGE_ENCODE
    ||| code == LIB_NAME_DOES_NOT_EXIST
    ||| code == LIB_NOT_ENOUGH_DATA
    ||| code == LIB_NOT_IMPLEMENTED
    ||| code == LIB_NO_AVAILABLE_IO_THREAD
    ||| code == LIB_NO_CUSTOM_PAYLOAD
    ||| code == LIB_NO_HOSTS_AVAILABLE
    ||| code == LIB_NO_PAGING_STATE
    ||| code == LIB_NO_STREAMS
    ||| code == LIB_NO_TRACING_ID
    ||| code == LIB_NULL_VALUE
    ||| code == LIB_PARAMETER_UNSET
    ||| code == LIB_REQUEST_QUEUE_FULL
    ||| code == LIB_REQUEST_TIMED_OUT
    ||| code == LIB_UNABLE_TO_CLOSE
    ||| code == LIB_UNABLE_TO_CONNECT
    ||| code == LIB_UNABLE_TO_DETERMINE_PROTOCOL
    ||| code == LIB_UNABLE_TO_INIT
    ||| code == LIB_UNABLE_TO_SET_KEYSPACE
    ||| code == LIB_UNEXPECTED_RESPONSE
    ||| code == LIB_WRITE_ERROR
    ||| code == SERVER_ALREADY_EXISTS
    ||| code == SERVER_BAD_CREDENTIALS
    ||| code == SERVER_CONFIG_ERROR
    ||| code == SERVER_FUNCTION_FAILURE
    ||| code == SERVER_INVALID_QUERY
    ||| code == SERVER_IS_BOOTSTRAPPING
    ||| code == SERVER_OVERLOADED
    ||| code == SERVER_PROTOCOL_ERROR
    ||| code == SERVER_READ_FAILURE
    ||| code == SERVER_READ_TIMEOUT
    ||| code == SERVER_SERVER_ERROR
    ||| code == SERVER_SYNTAX_ERROR
    ||| code == SERVER_TRUNCATE_ERROR
    ||| code == SERVER_UNAUTHORIZED
    ||| code == SERVER_UNAVAILABLE
    ||| code == SERVER_UNPREPARED
    ||| code == SERVER_WRITE_FAILURE
    ||| code == SERVER_WRITE_TIMEOUT
    ||| code == SSL_CLOSED
    ||| code == SSL_IDENTITY_MISMATCH
    ||| code == SSL_INVALID_CERT
    ||| code == SSL_INVALID_PEER_CERT
    ||| code == SSL_INVALID_PRIVATE_KEY
    ||| code == SSL_NO_PEER_CERT
    ||| code == SSL_PROTOCOL_ERROR
}

/// The family a code belongs to, read from its top byte.
pub open spec fn family_of_code(code: u32) -> ErrorFamily {
    if !is_known_code(code) {
        ErrorFamily::Unknown
    } else if code >> 24u32 == 1 {
        ErrorFamily::Library
    } else if code >> 24u32 == 2 {
        ErrorFamily::Server
    } else {
        ErrorFamily::Transport
    }
}

/// The family of a kind.
pub open spec fn family_of(kind: DriverErrorKind) -> ErrorFamily {
    match kind {
        DriverErrorKind::Other(_) => ErrorFamily::Unknown,
        _ => family_of_code(code_of(kind)),
    }
}

/// The human readable message of each kind.
pub open spec fn kind_message(kind: DriverErrorKind) -> Seq<char> {
    match kind {
        DriverErrorKind::LibBadParams => "bad parameters"@,
        DriverErrorKind::LibCallbackAlreadySet => "callback already set"@,
        DriverErrorKind::LibExecutionProfileInvalid => "invalid execution profile specified"@,
        DriverErrorKind::LibHostResolution => "unable to resolve host"@,
        DriverErrorKind::LibIndexOutOfBounds => "index out of bounds"@,
        DriverErrorKind::LibInternalError => "internal error"@,
        DriverErrorKind::LibInvalidCustomType => "invalid custom type"@,
        DriverErrorKind::LibInvalidData => "invalid data"@,
        DriverErrorKind::LibInvalidErrorResultType => "invalid error result type"@,
        DriverErrorKind::LibInvalidFutureType => "invalid future type"@,
        DriverErrorKind::LibInvalidItemCount => "invalid item count"@,
        DriverErrorKind::LibInvalidState => "invalid state"@,
        DriverErrorKind::LibInvalidStatementType => "invalid statement type"@,
        DriverErrorKind::LibInvalidValueType => "invalid value type"@,
        DriverErrorKind::LibMessageEncode => "unable to encode message"@,
        DriverErrorKind::LibNameDoesNotExist => "no value or column for name"@,
        DriverErrorKind::LibNotEnoughData => "not enough data"@,
        DriverErrorKind::LibNotImplemented => "not implemented"@,
        DriverErrorKind::LibNoAvailableIoThread => "no available IO threads"@,
        DriverErrorKind::LibNoCustomPayload => "no custom payload"@,
        DriverErrorKind::LibNoHostsAvailable => "no hosts available"@,
        DriverErrorKind::LibNoPagingState => "no paging state"@,
        DriverErrorKind::LibNoStreams => "no streams available"@,
        DriverErrorKind::LibNoTracingId => "no tracing ID"@,
        DriverErrorKind::LibNullValue => "NULL value specified"@,
        DriverErrorKind::LibParameterUnset => "parameter unse"@,
        DriverErrorKind::LibRequestQueueFull => "the request queue is full"@,
        DriverErrorKind::LibRequestTimedOut => "request timed out"@,
        DriverErrorKind::LibUnableToClose => "unable to close"@,
        DriverErrorKind::LibUnableToConnect => "unable to connect"@,
        DriverErrorKind::LibUnableToDetermineProtocol => "unable to find supported protocol version"@,
        DriverErrorKind::LibUnableToInit => "unable to initialize"@,
        DriverErrorKind::LibUnableToSetKeyspace => "unable to set keyspace"@,
        DriverErrorKind::LibUnexpectedResponse => "unexpected response from server"@,
        DriverErrorKind::LibWriteError => "write error"@,
        DriverErrorKind::ServerAlreadyExists => "already exists"@,
        DriverErrorKind::ServerBadCredentials => "bad credentials"@,
        DriverErrorKind::ServerConfigError => "configuration error"@,
        DriverErrorKind::ServerFunctionFailure => "function failure"@,
        DriverErrorKind::ServerInvalidQuery => "invalid query"@,
        DriverErrorKind::ServerIsBootstrapping => "is bootstrapping"@,
        DriverErrorKind::ServerOverloaded => "overloaded"@,
        DriverErrorKind::ServerProtocolError => "protocol error"@,
        DriverErrorKind::ServerReadFailure => "read failure"@,
        DriverErrorKind::ServerReadTimeout => "read timeout"@,
        DriverErrorKind::ServerServerError => "server error"@,
        DriverErrorKind::ServerSyntaxError => "syntax error"@,
        DriverErrorKind::ServerTruncateError => "truncate error"@,
        DriverErrorKind::ServerUnauthorized => "unauthorized"@,
        DriverErrorKind::ServerUnavailable => "unavailable"@,
        DriverErrorKind::ServerUnprepared => "unprepared"@,
        DriverErrorKind::ServerWriteFailure => "write failure"@,
        DriverErrorKind::ServerWriteTimeout => "write timeout"@,
        DriverErrorKind::SslClosed => "connection closed"@,
        DriverErrorKind::SslIdentityMismatch => "certificate does not match host or IP address"@,
        DriverErrorKind::SslInvalidCert => "unable to load certificate"@,
        DriverErrorKind::SslInvalidPeerCert => "invalid peer certificate"@,
        DriverErrorKind::SslInvalidPrivateKey => "unable to load private key"@,
        DriverErrorKind::SslNoPeerCert => "no peer certificate"@,
        DriverErrorKind::SslProtocolError => "protocol error"@,
        DriverErrorKind::Other(code) => "unknown CassError "@ + decimal(code as nat),
    }
}

impl DriverErrorKind {
    /// The value of a code the driver returned.
    ///
    /// Returns `None` for the success code, the named kind for a code of the
    /// tables, and `Other` with the code itself for any other code.
    pub fn from_driver(code: u32) -> (r: Option<DriverErrorKind>)
        ensures
            r is None <==> code == CASS_OK,
            r matches Some(kind) ==> code_of(kind) == code,
            r matches Some(DriverErrorKind::Other(_)) <==> (code != CASS_OK && !is_known_code(code)),
    {
        if code == CASS_OK {
            None
        } else if code == LIB_BAD_PARAMS {
            Some(DriverErrorKind::LibBadParams)
        } else if code == LIB_CALLBACK_ALREADY_SET {
            Some(DriverErrorKind::LibCallbackAlreadySet)
        } else if code == LIB_EXECUTION_PROFILE_INVALID {
            Some(DriverErrorKind::LibExecutionProfileInvalid)
        } else if code == LIB_HOST_RESOLUTION {
            Some(DriverErrorKind::LibHostResolution)
        } else if code == LIB_INDEX_OUT_OF_BOUNDS {
            Some(DriverErrorKind::LibIndexOutOfBounds)
        } else if code == LIB_INTERNAL_ERROR {
            Some(DriverErrorKind::LibInternalError)
        } else if code == LIB_INVALID_CUSTOM_TYPE {
            Some(DriverErrorKind::LibInvalidCustomType)
        } else if code == LIB_INVALID_DATA {
            Some(DriverErrorKind::LibInvalidData)
        } else if code == LIB_INVALID_ERROR_RESULT_TYPE {
            Some(DriverErrorKind::LibInvalidErrorResultType)
        } else if code == LIB_INVALID_FUTURE_TYPE {
            Some(DriverErrorKind::LibInvalidFutureType)
        } else if code == LIB_INVALID_ITEM_COUNT {
            Some(DriverErrorKind::LibInvalidItemCount)
        } else if code == LIB_INVALID_STATE {
            Some(DriverErrorKind::LibInvalidState)
        } else if code == LIB_INVALID_STATEMENT_TYPE {
            Some(DriverErrorKind::LibInvalidStatementType)
        } else if code == LIB_INVALID_VALUE_TYPE {
            Some(DriverErrorKind::LibInvalidValueType)
        } else if code == LIB_MESSAGE_ENCODE {
            Some(DriverErrorKind::LibMessageEncode)
        } else if code == LIB_NAME_DOES_NOT_EXIST {
            Some(DriverErrorKind::LibNameDoesNotExist)
        } else if code == LIB_NOT_ENOUGH_DATA {
            Some(DriverErrorKind::LibNotEnoughData)
        } else if code == LIB_NOT_IMPLEMENTED {
            Some(DriverErrorKind::LibNotImplemented)
        } else if code == LIB_NO_AVAILABLE_IO_THREAD {
            Some(DriverErrorKind::LibNoAvailableIoThread)
        } else if code == LIB_NO_CUSTOM_PAYLOAD {
            Some(DriverErrorKind::LibNoCustomPayload)
        } else if code == LIB_NO_HOSTS_AVAILABLE {
            Some(DriverErrorKind::LibNoHostsAvailable)
        } else if code == LIB_NO_PAGING_STATE {
            Some(DriverErrorKind::LibNoPagingState)
        } else if code == LIB_NO_STREAMS {
            Some(DriverErrorKind::LibNoStreams)
        } else if code == LIB_NO_TRACING_ID {
            Some(DriverErrorKind::LibNoTracingId)
        } else if code == LIB_NULL_VALUE {
            Some(DriverErrorKind::LibNullValue)
        } else if code == LIB_PARAMETER_UNSET {
            Some(DriverErrorKind::LibParameterUnset)
        } else if code == LIB_REQUEST_QUEUE_FULL {
            Some(DriverErrorKind::LibRequestQueueFull)
        } else if code == LIB_REQUEST_TIMED_OUT {
            Some(DriverErrorKind::LibRequestTimedOut)
        } else if code == LIB_UNABLE_TO_CLOSE {
            Some(DriverErrorKind::LibUnableToClose)
        } else if code == LIB_UNABLE_TO_CONNECT {
            Some(DriverErrorKind::LibUnableToConnect)
        } else if code == LIB_UNABLE_TO_DETERMINE_PROTOCOL {
            Some(DriverErrorKind::LibUnableToDetermineProtocol)
        } else if code == LIB_UNABLE_TO_INIT {
            Some(DriverErrorKind::LibUnableToInit)
        } else if code == LIB_UNABLE_TO_SET_KEYSPACE {
            Some(DriverErrorKind::LibUnableToSetKeyspace)
        } else if code == LIB_UNEXPECTED_RESPONSE {
            Some(DriverErrorKind::LibUnexpectedResponse)
        } else if code == LIB_WRITE_ERROR {
            Some(DriverErrorKind::LibWriteError)
        } else if code == SERVER_ALREADY_EXISTS {
            Some(DriverErrorKind::ServerAlreadyExists)
        } else if code == SERVER_BAD_CREDENTIALS {
            Some(DriverErrorKind::ServerBadCredentials)
        } else if code == SERVER_CONFIG_ERROR {
            Some(DriverErrorKind::ServerConfigError)
        } else if code == SERVER_FUNCTION_FAILURE {
            Some(DriverErrorKind::ServerFunctionFailure)
        } else if code == SERVER_INVALID_QUERY {
            Some(DriverErrorKind::ServerInvalidQuery)
        } else if code == SERVER_IS_BOOTSTRAPPING {
            Some(DriverErrorKind::ServerIsBootstrapping)
        } else if code == SERVER_OVERLOADED {
            Some(DriverErrorKind::ServerOverloaded)
        } else if code == SERVER_PROTOCOL_ERROR {
            Some(DriverErrorKind::ServerProtocolError)
        } else if code == SERVER_READ_FAILURE {
            Some(DriverErrorKind::ServerReadFailure)
        } else if code == SERVER_READ_TIMEOUT {
            Some(DriverErrorKind::ServerReadTimeout)
        } else if code == SERVER_SERVER_ERROR {
            Some(DriverErrorKind::ServerServerError)
        } else if code == SERVER_SYNTAX_ERROR {
            Some(DriverErrorKind::ServerSyntaxError)
        } else if code == SERVER_TRUNCATE_ERROR {
            Some(DriverErrorKind::ServerTruncateError)
        } else if code == SERVER_UNAUTHORIZED {
            Some(DriverErrorKind::ServerUnauthorized)
        } else if code == SERVER_UNAVAILABLE {
            Some(DriverErrorKind::ServerUnavailable)
        } else if code == SERVER_UNPREPARED {
            Some(DriverErrorKind::ServerUnprepared)
        } else if code == SERVER_WRITE_FAILURE {
            Some(DriverErrorKind::ServerWriteFailure)
        } else if code == SERVER_WRITE_TIMEOUT {
            Some(DriverErrorKind::ServerWriteTimeout)
        } else if code == SSL_CLOSED {
            Some(DriverErrorKind::SslClosed)
        } else if code == SSL_IDENTITY_MISMATCH {
            Some(DriverErrorKind::SslIdentityMismatch)
        } else if code == SSL_INVALID_CERT {
            Some(DriverErrorKind::SslInvalidCert)
        } else if code == SSL_INVALID_PEER_CERT {
            Some(DriverErrorKind::SslInvalidPeerCert)
        } else if code == SSL_INVALID_PRIVATE_KEY {
            Some(DriverErrorKind::SslInvalidPrivateKey)
        } else if code == SSL_NO_PEER_CERT {
            Some(DriverErrorKind::SslNoPeerCert)
        } else if code == SSL_PROTOCOL_ERROR {
            Some(DriverErrorKind::SslProtocolError)
        } else {
            Some(DriverErrorKind::Other(code))
        }
    }

    /// The native code of this kind.
    pub fn code(&self) -> (r: u32)
        ensures
            r == code_of(*self),
    {
        match self {
            DriverErrorKind::LibBadParams => LIB_BAD_PARAMS,
            DriverErrorKind::LibCallbackAlreadySet => LIB_CALLBACK_ALREADY_SET,
            DriverErrorKind::LibExecutionProfileInvalid => LIB_EXECUTION_PROFILE_INVALID,
            DriverErrorKind::LibHostResolution => LIB_HOST_RESOLUTION,
            DriverErrorKind::LibIndexOutOfBounds => LIB_INDEX_OUT_OF_BOUNDS,
            DriverErrorKind::LibInternalError => LIB_INTERNAL_ERROR,
            DriverErrorKind::LibInvalidCustomType => LIB_INVALID_CUSTOM_TYPE,
            DriverErrorKind::LibInvalidData => LIB_INVALID_DATA,
            DriverErrorKind::LibInvalidErrorResultType => LIB_INVALID_ERROR_RESULT_TYPE,
            DriverErrorKind::LibInvalidFutureType => LIB_INVALID_FUTURE_TYPE,
            DriverErrorKind::LibInvalidItemCount => LIB_INVALID_ITEM_COUNT,
            DriverErrorKind::LibInvalidState => LIB_INVALID_STATE,
            DriverErrorKind::LibInvalidStatementType => LIB_INVALID_STATEMENT_TYPE,
            DriverErrorKind::LibInvalidValueType => LIB_INVALID_VALUE_TYPE,
            DriverErrorKind::LibMessageEncode => LIB_MESSAGE_ENCODE,
            DriverErrorKind::LibNameDoesNotExist => LIB_NAME_DOES_NOT_EXIST,
            DriverErrorKind::LibNotEnoughData => LIB_NOT_ENOUGH_DATA,
            DriverErrorKind::LibNotImplemented => LIB_NOT_IMPLEMENTED,
            DriverErrorKind::LibNoAvailableIoThread => LIB_NO_AVAILABLE_IO_THREAD,
            DriverErrorKind::LibNoCustomPayload => LIB_NO_CUSTOM_PAYLOAD,
            DriverErrorKind::LibNoHostsAvailable => LIB_NO_HOSTS_AVAILABLE,
            DriverErrorKind::LibNoPagingState => LIB_NO_PAGING_STATE,
            DriverErrorKind::LibNoStreams => LIB_NO_STREAMS,
            DriverErrorKind::LibNoTracingId => LIB_NO_TRACING_ID,
            DriverErrorKind::LibNullValue => LIB_NULL_VALUE,
            DriverErrorKind::LibParameterUnset => LIB_PARAMETER_UNSET,
            DriverErrorKind::LibRequestQueueFull => LIB_REQUEST_QUEUE_FULL,
            DriverErrorKind::LibRequestTimedOut => LIB_REQUEST_TIMED_OUT,
            DriverErrorKind::LibUnableToClose => LIB_UNABLE_TO_CLOSE,
            DriverErrorKind::LibUnableToConnect => LIB_UNABLE_TO_CONNECT,
            DriverErrorKind::LibUnableToDetermineProtocol => LIB_UNABLE_TO_DETERMINE_PROTOCOL,
            DriverErrorKind::LibUnableToInit => LIB_UNABLE_TO_INIT,
            DriverErrorKind::LibUnableToSetKeyspace => LIB_UNABLE_TO_SET_KEYSPACE,
            DriverErrorKind::LibUnexpectedResponse => LIB_UNEXPECTED_RESPONSE,
            DriverErrorKind::LibWriteError => LIB_WRITE_ERROR,
            DriverErrorKind::ServerAlreadyExists => SERVER_ALREADY_EXISTS,
            DriverErrorKind::ServerBadCredentials => SERVER_BAD_CREDENTIALS,
            DriverErrorKind::ServerConfigError => SERVER_CONFIG_ERROR,
            DriverErrorKind::ServerFunctionFailure => SERVER_FUNCTION_FAILURE,
            DriverErrorKind::ServerInvalidQuery => SERVER_INVALID_QUERY,
            DriverErrorKind::ServerIsBootstrapping => SERVER_IS_BOOTSTRAPPING,
            DriverErrorKind::ServerOverloaded => SERVER_OVERLOADED,
            DriverErrorKind::ServerProtocolError => SERVER_PROTOCOL_ERROR,
            DriverErrorKind::ServerReadFailure => SERVER_READ_FAILURE,
            DriverErrorKind::ServerReadTimeout => SERVER_READ_TIMEOUT,
            DriverErrorKind::ServerServerError => SERVER_SERVER_ERROR,
            DriverErrorKind::ServerSyntaxError => SERVER_SYNTAX_ERROR,
            DriverErrorKind::ServerTruncateError => SERVER_TRUNCATE_ERROR,
            DriverErrorKind::ServerUnauthorized => SERVER_UNAUTHORIZED,
            DriverErrorKind::ServerUnavailable => SERVER_UNAVAILABLE,
            DriverErrorKind::ServerUnprepared => SERVER_UNPREPARED,
            DriverErrorKind::ServerWriteFailure => SERVER_WRITE_FAILURE,
            DriverErrorKind::ServerWriteTimeout => SERVER_WRITE_TIMEOUT,
            DriverErrorKind::SslClosed => SSL_CLOSED,
            DriverErrorKind::SslIdentityMismatch => SSL_IDENTITY_MISMATCH,
            DriverErrorKind::SslInvalidCert => SSL_INVALID_CERT,
            DriverErrorKind::SslInvalidPeerCert => SSL_INVALID_PEER_CERT,
            DriverErrorKind::SslInvalidPrivateKey => SSL_INVALID_PRIVATE_KEY,
            DriverErrorKind::SslNoPeerCert => SSL_NO_PEER_CERT,
            DriverErrorKind::SslProtocolError => SSL_PROTOCOL_ERROR,
            DriverErrorKind::Other(code) => *code,
        }
    }

    /// The family this kind belongs to.
    pub fn family(&self) -> (r: ErrorFamily)
        ensures
            r == family_of(*self),
    {
        match self {
            DriverErrorKind::Other(_) => ErrorFamily::Unknown,
            _ => {
                let code = self.code();
                proof {
                    lemma_known_code_source(*self);
                }
                if code >> 24u32 == 1 {
                    ErrorFamily::Library
                } else if code >> 24u32 == 2 {
                    ErrorFamily::Server
                } else {
                    ErrorFamily::Transport
                }
            }
        }
    }

    /// Whether the error was reported by the cluster.
    pub fn is_server_error(&self) -> (r: bool)
        ensures
            r == (family_of(*self) == ErrorFamily::Server),
    {
        let family = self.family();
        family == ErrorFamily::Server
    }

    /// The human readable message of this kind.
    pub fn message(&self) -> (r: String)
        ensures
            r@ == kind_message(*self),
    {
        match self {
            DriverErrorKind::LibBadParams => "bad parameters".to_owned(),
            DriverErrorKind::LibCallbackAlreadySet => "callback already set".to_owned(),
            DriverErrorKind::LibExecutionProfileInvalid => "invalid execution profile specified".to_owned(),
            DriverErrorKind::LibHostResolution => "unable to resolve host".to_owned(),
            DriverErrorKind::LibIndexOutOfBounds => "index out of bounds".to_owned(),
            DriverErrorKind::LibInternalError => "internal error".to_owned(),
            DriverErrorKind::LibInvalidCustomType => "invalid custom type".to_owned(),
            DriverErrorKind::LibInvalidData => "invalid data".to_owned(),
            DriverErrorKind::LibInvalidErrorResultType => "invalid error result type".to_owned(),
            DriverErrorKind::LibInvalidFutureType => "invalid future type".to_owned(),
            DriverErrorKind::LibInvalidItemCount => "invalid item count".to_owned(),
            DriverErrorKind::LibInvalidState => "invalid state".to_owned(),
            DriverErrorKind::LibInvalidStatementType => "invalid statement type".to_owned(),
            DriverErrorKind::LibInvalidValueType => "invalid value type".to_owned(),
            DriverErrorKind::LibMessageEncode => "unable to encode message".to_owned(),
            DriverErrorKind::LibNameDoesNotExist => "no value or column for name".to_owned(),
            DriverErrorKind::LibNotEnoughData => "not enough data".to_owned(),
            DriverErrorKind::LibNotImplemented => "not implemented".to_owned(),
            DriverErrorKind::LibNoAvailableIoThread => "no available IO threads".to_owned(),
            DriverErrorKind::LibNoCustomPayload => "no custom payload".to_owned(),
            DriverErrorKind::LibNoHostsAvailable => "no hosts available".to_owned(),
            DriverErrorKind::LibNoPagingState => "no paging state".to_owned(),
            DriverErrorKind::LibNoStreams => "no streams available".to_owned(),
            DriverErrorKind::LibNoTracingId => "no tracing ID".to_owned(),
            DriverErrorKind::LibNullValue => "NULL value specified".to_owned(),
            DriverErrorKind::LibParameterUnset => "parameter unse".to_owned(),
            DriverErrorKind::LibRequestQueueFull => "the request queue is full".to_owned(),
            DriverErrorKind::LibRequestTimedOut => "request timed out".to_owned(),
            DriverErrorKind::LibUnableToClose => "unable to close".to_owned(),
            DriverErrorKind::LibUnableToConnect => "unable to connect".to_owned(),
            DriverErrorKind::LibUnableToDetermineProtocol => "unable to find supported protocol version".to_owned(),
            DriverErrorKind::LibUnableToInit => "unable to initialize".to_owned(),
            DriverErrorKind::LibUnableToSetKeyspace => "unable to set keyspace".to_owned(),
            DriverErrorKind::LibUnexpectedResponse => "unexpected response from server".to_owned(),
            DriverErrorKind::LibWriteError => "write error".to_owned(),
            DriverErrorKind::ServerAlreadyExists => "already exists".to_owned(),
            DriverErrorKind::ServerBadCredentials => "bad credentials".to_owned(),
            DriverErrorKind::ServerConfigError => "configuration error".to_owned(),
            DriverErrorKind::ServerFunctionFailure => "function failure".to_owned(),
            DriverErrorKind::ServerInvalidQuery => "invalid query".to_owned(),
            DriverErrorKind::ServerIsBootstrapping => "is bootstrapping".to_owned(),
            DriverErrorKind::ServerOverloaded => "overloaded".to_owned(),
            DriverErrorKind::ServerProtocolError => "protocol error".to_owned(),
            DriverErrorKind::ServerReadFailure => "read failure".to_owned(),
            DriverErrorKind::ServerReadTimeout => "read timeout".to_owned(),
            DriverErrorKind::ServerServerError => "server error".to_owned(),
            DriverErrorKind::ServerSyntaxError => "syntax error".to_owned(),
            DriverErrorKind::ServerTruncateError => "truncate error".to_owned(),
            DriverErrorKind::ServerUnauthorized => "unauthorized".to_owned(),
            DriverErrorKind::ServerUnavailable => "unavailable".to_owned(),
            DriverErrorKind::ServerUnprepared => "unprepared".to_owned(),
            DriverErrorKind::ServerWriteFailure => "write failure".to_owned(),
            DriverErrorKind::ServerWriteTimeout => "write timeout".to_owned(),
            DriverErrorKind::SslClosed => "connection closed".to_owned(),
            DriverErrorKind::SslIdentityMismatch => "certificate does not match host or IP address".to_owned(),
            DriverErrorKind::SslInvalidCert => "unable to load certificate".to_owned(),
            DriverErrorKind::SslInvalidPeerCert => "invalid peer certificate".to_owned(),
            DriverErrorKind::SslInvalidPrivateKey => "unable to load private key".to_owned(),
            DriverErrorKind::SslNoPeerCert => "no peer certificate".to_owned(),
            DriverErrorKind::SslProtocolError => "protocol error".to_owned(),
            DriverErrorKind::Other(code) => {
                let mut s = "unknown CassError ".to_owned();
                let digits = to_decimal(*code as u64);
                s.append(digits.as_str());
                s
            },
        }
    }
}

/// The code of a named kind is in a table, and its top byte names one of
/// the three sources.
proof fn lemma_known_code_source(kind: DriverErrorKind)
    requires
        !(kind is Other),
    ensures
        is_known_code(code_of(kind)),
        1 <= code_of(kind) >> 24u32 <= 3,
{
    assert(is_known_code(code_of(kind)));
    let c = code_of(kind);
    assert(1 <= c >> 24u32 <= 3) by (bit_vector)
        requires
            0x0100_0000u32 <= c < 0x0400_0000u32;
}

/// Every named kind decodes back from its own code: any result that
/// `from_driver` may give for that code is the kind itself.
pub proof fn lemma_code_round_trip(kind: DriverErrorKind, r: Option<DriverErrorKind>)
    requires
        !(kind is Other),
        r is None <==> code_of(kind) == CASS_OK,
        r matches Some(k) ==> code_of(k) == code_of(kind),
        r matches Some(DriverErrorKind::Other(_)) <==> (code_of(kind) != CASS_OK && !is_known_code(
            code_of(kind),
        )),
    ensures
        r == Some(kind),
{
    lemma_known_code_source(kind);
    let k = r.unwrap();
    assert(!(k is Other));
    lemma_code_injective(k, kind);
}

/// Two named kinds with the same code are the same kind.
pub proof fn lemma_code_injective(a: DriverErrorKind, b: DriverErrorKind)
    requires
        !(a is Other),
        !(b is Other),
        code_of(a) == code_of(b),
    ensures
        a == b,
{
}

/// A code outside every table is kept as it is, and its message is not empty.
pub proof fn lemma_unknown_code_kept(code: u32)
    requires
        code != CASS_OK,
        !is_known_code(code),
    ensures
        family_of(DriverErrorKind::Other(code)) == ErrorFamily::Unknown,
        code_of(DriverErrorKind::Other(code)) == code,
        kind_message(DriverErrorKind::Other(code)).len() > 0,
{
    lemma_decimal_not_empty(code as nat);
}

} // verus!
