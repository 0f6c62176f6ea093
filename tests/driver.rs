use cassander::driver::{CassBool, CassError, CassErrorResult, CassFuture, CassVersion};
use cassander::DriverErrorKind;

#[test]
fn booleans_cross_the_interface() {
    assert_eq!(CassBool::from_bool(true).as_raw(), 1);
    assert_eq!(CassBool::from_bool(false).as_raw(), 0);
    assert!(CassBool::new(1).to_bool());
    assert!(!CassBool::new(0).to_bool());
}

#[test]
fn codes_as_results() {
    assert!(CassError::from_driver(0).is_ok());
    assert!(CassError::from_driver(0).as_result().is_ok());
    let e = CassError::from_driver(0x0200_2000);
    assert!(e.is_error());
    assert_eq!(e, CassError::Failed(DriverErrorKind::ServerSyntaxError));
    assert_eq!(e.as_result(), Err(e));
    assert_eq!(e.to_driver(), 0x0200_2000);
    assert_eq!(CassError::from_driver(0x0900_0000).to_driver(), 0x0900_0000);
}

#[test]
fn versions_and_handles() {
    let v = CassVersion::new((3, 11, -2));
    assert_eq!((v.major(), v.minor(), v.patch()), (3, 11, 0));
    assert_eq!(v.as_raw(), (3, 11, -2));
    assert_eq!(CassFuture::new(0xABC).as_raw(), 0xABC);
    assert!(CassErrorResult::new(0).is_none());
    assert_eq!(CassErrorResult::new(0x10).unwrap().as_raw(), 0x10);
}

#[test]
fn code_messages() {
    assert_eq!(CassError::from_driver(0).message(), "success");
    assert_eq!(CassError::from_driver(0x0300_0003).message(), "no peer certificate");
    assert_eq!(CassError::from_driver(0x0400_0001).message(), "unknown CassError 67108865");
}
