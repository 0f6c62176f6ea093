use cassander::details::ErrorResultRecord;
use cassander::error::{to_result, to_result_with_message};
use cassander::kind::{ErrorFamily, LIB_BAD_PARAMS, SERVER_READ_TIMEOUT, SSL_CLOSED};
use cassander::{Consistency, DriverError, DriverErrorDetails, DriverErrorKind, FunctionErrorDetails, WriteType};

fn record(code: u32) -> ErrorResultRecord {
    ErrorResultRecord {
        code,
        consistency: 0xFFFF,
        responses_received: -1,
        responses_required: -1,
        num_failures: -1,
        data_present: false,
        write_type: 0,
        keyspace: None,
        table: None,
        function: None,
        arg_types: Vec::new(),
    }
}

#[test]
fn success_code_is_no_error() {
    assert_eq!(DriverErrorKind::from_driver(0), None);
    assert!(to_result(0).is_ok());
}

#[test]
fn known_codes_map_to_kinds() {
    assert_eq!(DriverErrorKind::from_driver(0x0100_0001), Some(DriverErrorKind::LibBadParams));
    assert_eq!(DriverErrorKind::from_driver(0x0100_0023), Some(DriverErrorKind::LibNoTracingId));
    assert_eq!(DriverErrorKind::from_driver(0x0200_1200), Some(DriverErrorKind::ServerReadTimeout));
    assert_eq!(DriverErrorKind::from_driver(0x0200_2500), Some(DriverErrorKind::ServerUnprepared));
    assert_eq!(DriverErrorKind::from_driver(0x0300_0007), Some(DriverErrorKind::SslClosed));
    assert_eq!(LIB_BAD_PARAMS, 0x0100_0001);
    assert_eq!(SERVER_READ_TIMEOUT, 0x0200_1200);
    assert_eq!(SSL_CLOSED, 0x0300_0007);
}

#[test]
fn kinds_map_back_to_codes() {
    for code in [0x0100_0001u32, 0x0100_0010, 0x0200_0000, 0x0200_000A, 0x0200_0100, 0x0300_0001] {
        let kind = DriverErrorKind::from_driver(code).unwrap();
        assert_eq!(kind.code(), code);
    }
}

#[test]
fn families_partition_the_codes() {
    assert_eq!(DriverErrorKind::LibWriteError.family(), ErrorFamily::Library);
    assert_eq!(DriverErrorKind::ServerSyntaxError.family(), ErrorFamily::Server);
    assert_eq!(DriverErrorKind::SslInvalidCert.family(), ErrorFamily::Transport);
    assert_eq!(DriverErrorKind::Other(7).family(), ErrorFamily::Unknown);
    assert!(DriverErrorKind::ServerReadTimeout.is_server_error());
    assert!(!DriverErrorKind::LibBadParams.is_server_error());
}

#[test]
fn unknown_code_is_kept_with_a_message() {
    let kind = DriverErrorKind::from_driver(0x0500_0042).unwrap();
    assert_eq!(kind, DriverErrorKind::Other(0x0500_0042));
    assert_eq!(kind.code(), 0x0500_0042);
    assert_eq!(kind.message(), "unknown CassError 83886146");
    let err = to_result(0x0100_00FF).unwrap_err();
    assert_eq!(err.kind, DriverErrorKind::Other(0x0100_00FF));
    assert!(!err.message.is_empty());
}

#[test]
fn kind_messages() {
    assert_eq!(DriverErrorKind::LibBadParams.message(), "bad parameters");
    assert_eq!(DriverErrorKind::ServerReadTimeout.message(), "read timeout");
    assert_eq!(DriverErrorKind::SslIdentityMismatch.message(), "certificate does not match host or IP address");
}

#[test]
fn results_carry_the_given_message() {
    let err = to_result_with_message(0x0100_0010, "failed to set future callback".to_string()).unwrap_err();
    assert_eq!(err.kind, DriverErrorKind::LibCallbackAlreadySet);
    assert_eq!(err.text(), "failed to set future callback");
    assert!(err.details.is_none());
    let err = DriverError::with_kind(DriverErrorKind::LibNoStreams);
    assert_eq!(err.message, "no streams available");
}

#[test]
fn details_of_a_read_timeout() {
    let mut r = record(SERVER_READ_TIMEOUT);
    r.consistency = 0x0004;
    r.responses_received = 1;
    r.responses_required = 2;
    let details = DriverErrorDetails::from_driver(r).unwrap();
    assert_eq!(details.code(), DriverErrorKind::ServerReadTimeout);
    assert_eq!(details.consistency(), Some(Consistency::Quorum));
    assert_eq!(details.responses_received(), Some(1));
    assert_eq!(details.responses_required(), Some(2));
    assert_eq!(details.failures_count(), None);
    assert_eq!(details.is_data_present(), Some(false));
    assert_eq!(details.write_type(), None);
    assert_eq!(details.message(), "read timeout");
}

#[test]
fn details_of_a_write_timeout() {
    let mut r = record(0x0200_1100);
    r.write_type = 2;
    r.data_present = true;
    r.keyspace = Some("ks".to_string());
    r.table = Some("t".to_string());
    let details = DriverErrorDetails::from_driver(r).unwrap();
    assert_eq!(details.write_type(), Some(WriteType::Batch));
    assert_eq!(details.is_data_present(), None);
    assert_eq!(details.keyspace().as_deref(), Some("ks"));
    assert_eq!(details.table().as_deref(), Some("t"));
    assert!(DriverErrorDetails::from_driver(record(0)).is_none());
}

#[test]
fn details_of_a_function_failure() {
    let mut r = record(0x0200_1400);
    r.function = Some("f".to_string());
    r.arg_types = vec![Some("int".to_string()), None, Some("text".to_string())];
    let details = DriverErrorDetails::from_driver(r).unwrap();
    let f = details.function().unwrap();
    assert_eq!(f.name, "f");
    assert_eq!(f.arg_types, vec!["int", "<unknown>", "text"]);
    assert_eq!(f.text(), "f(int, <unknown>, text)");
    assert_eq!(FunctionErrorDetails::new("g".to_string(), vec![]).text(), "g()");
}

#[test]
fn write_types_map() {
    assert_eq!(WriteType::from_driver(0), None);
    assert_eq!(WriteType::from_driver(1), Some(WriteType::Simple));
    assert_eq!(WriteType::from_driver(8), Some(WriteType::Cdc));
    assert_eq!(WriteType::from_driver(9), Some(WriteType::Other(9)));
}

#[test]
fn consistency_levels_map_both_ways() {
    assert_eq!(Consistency::from_driver(0), Some(Consistency::Any));
    assert_eq!(Consistency::from_driver(10), Some(Consistency::LocalOne));
    assert_eq!(Consistency::from_driver(0xFFFF), None);
    for code in 0..=10u32 {
        assert_eq!(Consistency::from_driver(code).unwrap().to_driver(), code);
    }
}
