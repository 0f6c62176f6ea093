use std::str::FromStr;

use cassander::inet::InetParseError;
use cassander::CqlInet;

#[test]
fn test_from_ipv4() {
    let cql_inet = CqlInet::from_v4([127, 0, 0, 1]);
    assert_eq!(cql_inet.address_length, 4);
    assert_eq!(&cql_inet.address[..4], &[127, 0, 0, 1]);
}

#[test]
fn test_equality() {
    let cql_inet1 = CqlInet::from_v4([127, 0, 0, 1]);
    let cql_inet2 = CqlInet::from_v4([127, 0, 0, 1]);
    assert!(cql_inet1.equals(&cql_inet2));
}

#[test]
fn test_inequality() {
    let cql_inet1 = CqlInet::from_v4([127, 0, 0, 1]);
    let cql_inet2 = CqlInet::from_v4([192, 168, 0, 1]);
    assert!(!cql_inet1.equals(&cql_inet2));
}

#[test]
fn test_from_str_v4() {
    let cql_inet = CqlInet::from_str("127.0.0.1").unwrap();
    assert!(cql_inet.equals(&CqlInet::from_v4([127, 0, 0, 1])));
}

#[test]
fn test_from_str_invalid() {
    assert!(CqlInet::from_str("invalid").is_err());
}

#[test]
fn ipv4_text_edge_cases() {
    assert!(CqlInet::from_str("0.0.0.0").is_ok());
    assert!(CqlInet::from_str("255.255.255.255").is_ok());
    assert_eq!(CqlInet::from_str("256.0.0.1").unwrap_err(), InetParseError);
    assert!(CqlInet::from_str("1.2.3").is_err());
    assert!(CqlInet::from_str("1.2.3.4.5").is_err());
    assert!(CqlInet::from_str("01.2.3.4").is_err());
    assert!(CqlInet::from_str("1..3.4").is_err());
    assert!(CqlInet::from_str("").is_err());
    let inet = CqlInet::from_str("10.20.30.40").unwrap();
    assert_eq!(&inet.address[..4], &[10, 20, 30, 40]);
    assert_eq!(&inet.address[4..], &[0u8; 12]);
}

#[test]
fn ipv6_bytes_are_kept() {
    let mut bytes = [0u8; 16];
    bytes[15] = 1;
    let inet = CqlInet::from_v6(bytes);
    assert_eq!(inet.len(), 16);
    assert!(!inet.is_v4());
    assert!(!inet.equals(&CqlInet::from_v4([0, 0, 0, 1])));
}

fn v6(groups: [u16; 8]) -> CqlInet {
    let mut bytes = [0u8; 16];
    for (k, g) in groups.iter().enumerate() {
        bytes[2 * k] = (g >> 8) as u8;
        bytes[2 * k + 1] = (g & 0xFF) as u8;
    }
    CqlInet::from_v6(bytes)
}

#[test]
fn test_from_ipv6() {
    let cql_inet = v6([0, 0, 0, 0, 0, 0, 0, 1]);
    assert_eq!(cql_inet.address_length, 16);
    assert_eq!(cql_inet.address[15], 1);
    assert_eq!(&cql_inet.address[..15], &[0u8; 15]);
}

#[test]
fn test_from_ipaddr_v4() {
    let cql_inet = CqlInet::from_str("127.0.0.1").unwrap();
    assert!(cql_inet.is_v4());
    assert_eq!(&cql_inet.address[..4], &[127, 0, 0, 1]);
}

#[test]
fn test_from_ipaddr_v6() {
    let cql_inet = CqlInet::from_str("0:0:0:0:0:0:0:1").unwrap();
    assert!(cql_inet.equals(&v6([0, 0, 0, 0, 0, 0, 0, 1])));
}

#[test]
fn test_from_str_v6() {
    let cql_inet = CqlInet::from_str("::1").unwrap();
    assert!(cql_inet.equals(&v6([0, 0, 0, 0, 0, 0, 0, 1])));
}

#[test]
fn ipv6_text_forms() {
    assert!(CqlInet::from_str("::").unwrap().equals(&v6([0; 8])));
    assert!(CqlInet::from_str("fe80::1:2").unwrap().equals(&v6([0xfe80, 0, 0, 0, 0, 0, 1, 2])));
    assert!(CqlInet::from_str("2001:DB8:0:0:8:800:200C:417A")
        .unwrap()
        .equals(&v6([0x2001, 0xdb8, 0, 0, 8, 0x800, 0x200c, 0x417a])));
    assert!(CqlInet::from_str("1:2:3:4:5:6:7::").unwrap().equals(&v6([1, 2, 3, 4, 5, 6, 7, 0])));
    assert!(CqlInet::from_str("1:2:3:4:5:6:7:8:9").is_err());
    assert!(CqlInet::from_str("1:2:3:4:5:6:7::8").is_err());
    assert!(CqlInet::from_str("1::2::3").is_err());
    assert!(CqlInet::from_str(":::1").is_err());
    assert!(CqlInet::from_str("12345::").is_err());
    assert!(CqlInet::from_str("g::").is_err());
    assert!(CqlInet::from_str("1:2:3:4:5:6:7").is_err());
}

#[test]
fn addresses_as_text() {
    assert_eq!(CqlInet::from_v4([127, 0, 0, 1]).text(), "127.0.0.1");
    assert_eq!(CqlInet::from_v4([10, 200, 0, 255]).text(), "10.200.0.255");
    assert_eq!(v6([0, 0, 0, 0, 0, 0, 0, 1]).text(), "::1");
    assert_eq!(v6([0; 8]).text(), "::");
    assert_eq!(v6([0xfe80, 0, 0, 0, 0, 0, 1, 2]).text(), "fe80::1:2");
    assert_eq!(v6([0x2001, 0xdb8, 0, 0, 8, 0x800, 0x200c, 0x417a]).text(), "2001:db8::8:800:200c:417a");
    assert_eq!(v6([1, 0, 0, 2, 0, 0, 0, 3]).text(), "1:0:0:2::3");
    assert_eq!(v6([1, 0, 0, 2, 0, 0, 3, 4]).text(), "1::2:0:0:3:4");
    assert_eq!(v6([1, 0, 2, 3, 4, 5, 6, 7]).text(), "1:0:2:3:4:5:6:7");
    assert_eq!(v6([0, 0, 0, 0, 0, 0xffff, 0x0102, 0x0304]).text(), "::ffff:1.2.3.4");
    assert_eq!(v6([1, 2, 3, 4, 5, 6, 7, 0]).text(), "1:2:3:4:5:6:7:0");
}

#[test]
fn text_parses_back() {
    for text in ["0.0.0.0", "192.168.1.20", "::", "::1", "fe80::1:2", "1:0:0:2::3", "abcd:ef01:2345:6789:abcd:ef01:2345:6789"] {
        assert_eq!(CqlInet::from_str(text).unwrap().text(), text);
    }
}
