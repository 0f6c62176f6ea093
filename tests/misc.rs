use cassander::logging::{log_level_code, log_level_to_trace_level, trace_level_to_log_level};
use cassander::settings::{count_to_driver, count_to_driver_signed, duration_to_driver, interval_to_driver, protocol_to_driver};
use cassander::DriverErrorKind;
use cassander::{ClusterVersion, CqlUuid, CqlUuidVersion, DriverVersion, LogLevel, LogMessage, MaybeInto, ProtocolVersion, SslVerifyFlags, Consistency};

#[test]
fn uuid_versions_and_timestamps() {
    let v1 = CqlUuid::from_components(0x11E7_0000_0000_0000 | 0x0000_1234_5678_9ABC, 7);
    assert_eq!(v1.version(), CqlUuidVersion::V1);
    assert_eq!(v1.clock_seq_and_node(), 7);
    let v4 = CqlUuid::from_components(0x4000_0000_0000_0000, 0);
    assert_eq!(v4.version(), CqlUuidVersion::V4);
    assert_eq!(v4.timestamp(), None);
    let other = CqlUuid::from_components(0x3000_0000_0000_0000, 0);
    assert_eq!(other.version(), CqlUuidVersion::Other(3));
    // 2017-01-01T00:00:00Z as a version 1 time: ticks = ms * 10000 + offset.
    let ms: u64 = 1_483_228_800_000;
    let ticks = ms * 10000 + 0x01B2_1DD2_1381_4000;
    let uuid = CqlUuid::from_components(ticks | 0x1000_0000_0000_0000, 0);
    assert_eq!(uuid.timestamp(), Some(ms));
    assert_eq!(uuid.time_and_version(), ticks | 0x1000_0000_0000_0000);
    assert!(CqlUuid::from_components(1, 0) < CqlUuid::from_components(1, 1));
    assert!(CqlUuid::from_components(1, 9) < CqlUuid::from_components(2, 0));
}

#[test]
fn versions_as_text() {
    let v = ClusterVersion::from_driver(4, 1, -1);
    assert_eq!(v.major(), 4);
    assert_eq!(v.minor(), 1);
    assert_eq!(v.patch(), 0);
    assert_eq!(v.text(), "4.1.0");
    let d = DriverVersion::new(2, 17, 1, Some("dev".to_string()));
    assert_eq!(d.text(), "2.17.1-dev");
    assert_eq!(DriverVersion::current().text(), "2.17.1");
}

#[test]
fn protocol_versions_map() {
    assert_eq!(ProtocolVersion::from_driver(4), ProtocolVersion::V4);
    assert_eq!(ProtocolVersion::from_driver(0x42), ProtocolVersion::Dsev2);
    assert_eq!(ProtocolVersion::from_driver(9), ProtocolVersion::Unknown(9));
    assert_eq!(ProtocolVersion::Dsev1.to_driver(), 0x41);
}

#[test]
fn log_levels_map() {
    assert_eq!(log_level_to_trace_level(0), None);
    assert_eq!(log_level_to_trace_level(1), Some(LogLevel::Error));
    assert_eq!(log_level_to_trace_level(6), Some(LogLevel::Trace));
    assert_eq!(log_level_to_trace_level(99), Some(LogLevel::Error));
    assert_eq!(trace_level_to_log_level(LogLevel::Warn), 3);
    assert_eq!(log_level_code(None), 0);
    assert_eq!(log_level_code(Some(LogLevel::Debug)), 5);
    let m = LogMessage {
        severity: 4,
        message: "hello".to_string(),
        file: "f.cpp".to_string(),
        line: -1,
        function: "f".to_string(),
        time_ms: 12,
    };
    assert_eq!(m.level(), Some(LogLevel::Info));
    assert_eq!(m.message(), "hello");
    assert_eq!(m.file(), "f.cpp");
    assert_eq!(m.function(), "f");
    assert_eq!(m.line(), None);
    assert_eq!(m.timestamp(), 12);
}

#[test]
fn ssl_flags_combine() {
    let f = SslVerifyFlags::peer_cert().union(SslVerifyFlags::peer_identity_dns());
    assert_eq!(f.to_driver(), 0x5);
    assert_eq!(f.intersection(SslVerifyFlags::peer_identity_dns()).to_driver(), 0x4);
    assert_eq!(SslVerifyFlags::default().to_driver(), 0x1);
    assert_eq!(SslVerifyFlags::none().to_driver(), 0);
}

#[test]
fn maybe_conversions() {
    let c: Option<Consistency> = 4u32.maybe_into();
    assert_eq!(c, Some(Consistency::Quorum));
    let none: Option<Consistency> = 0xFFFFu32.maybe_into();
    assert_eq!(none, None);
}

#[test]
fn uuid_text_round_trip() {
    let uuid = CqlUuid::from_str("550e8400-e29b-41d4-a716-446655440000").unwrap();
    assert_eq!(uuid.time_and_version(), 0x41d4_e29b_550e_8400);
    assert_eq!(uuid.clock_seq_and_node(), 0xa716_4466_5544_0000);
    assert_eq!(uuid.version(), CqlUuidVersion::V4);
    assert_eq!(uuid.text(), "550e8400-e29b-41d4-a716-446655440000");
    let upper = CqlUuid::from_str("550E8400-E29B-41D4-A716-446655440000").unwrap();
    assert_eq!(upper, uuid);
    assert_eq!(CqlUuid::from_components(0, 1).text(), "00000000-0000-0000-0000-000000000001");
}

#[test]
fn malformed_uuid_texts_are_refused() {
    assert_eq!(CqlUuid::from_str("550e8400e29b41d4a716446655440000").unwrap_err().kind, DriverErrorKind::LibBadParams);
    assert!(CqlUuid::from_str("550e8400-e29b-41d4-a716-44665544000g").is_err());
    assert!(CqlUuid::from_str("").is_err());
    assert!(CqlUuid::from_str("550e8400-e29b-41d4-a716_446655440000").is_err());
}

#[test]
fn settings_must_fit_the_driver() {
    assert_eq!(count_to_driver(4).ok(), Some(4));
    assert_eq!(count_to_driver(u32::MAX as usize).ok(), Some(u32::MAX));
    assert_eq!(count_to_driver(u32::MAX as usize + 1).unwrap_err().kind, DriverErrorKind::LibBadParams);
    assert_eq!(duration_to_driver(100).ok(), Some(100));
    assert!(duration_to_driver(-5).is_err());
    assert_eq!(protocol_to_driver(ProtocolVersion::V4).ok(), Some(4));
    assert!(protocol_to_driver(ProtocolVersion::Unknown(0x8000_0000)).is_err());
}

#[test]
fn ssl_flags_as_the_driver_signed_number() {
    let f = SslVerifyFlags::peer_cert().union(SslVerifyFlags::peer_identity());
    assert_eq!(f.inner(), 3);
    assert_eq!(f.to_driver_signed().ok(), Some(3));
}

#[test]
fn intervals_must_fit_the_driver() {
    assert_eq!(interval_to_driver(0).ok(), Some(0));
    assert_eq!(interval_to_driver(u32::MAX as i64).ok(), Some(u32::MAX));
    assert!(interval_to_driver(u32::MAX as i64 + 1).is_err());
    assert!(interval_to_driver(-1).is_err());
    assert_eq!(count_to_driver_signed(2).ok(), Some(2));
    assert_eq!(count_to_driver_signed(i32::MAX as usize + 1).unwrap_err().kind, DriverErrorKind::LibBadParams);
}
