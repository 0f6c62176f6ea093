use cassander::host::{has_invalid_domain_chars, is_invalid_domain_char, parse_domain};
use cassander::{ContactPoint, Host};

#[test]
fn domains_refuse_bad_characters() {
    assert!(parse_domain("example.com".to_string()).is_ok());
    assert_eq!(parse_domain("example.com".to_string()).unwrap().as_str(), "example.com");
    assert!(parse_domain(String::new()).is_err());
    let err = parse_domain("exa mple".to_string()).unwrap_err();
    assert_eq!(err.text(), "failed to parse host 'exa mple'");
    assert!(is_invalid_domain_char('\u{0}'));
    assert!(is_invalid_domain_char('|'));
    assert!(!is_invalid_domain_char('-'));
    assert!(has_invalid_domain_chars("a/b"));
    assert!(!has_invalid_domain_chars("cassandra-1.local"));
}

#[test]
fn hosts_are_addresses_or_domains() {
    assert!(matches!(Host::parse("127.0.0.1"), Ok(Host::IpAddr(_))));
    assert!(matches!(Host::parse("localhost"), Ok(Host::Domain(_))));
    assert!(Host::parse("a:b").is_err());
    assert!(matches!(Host::localhost(), Host::IpAddr(a) if a.address[..4] == [127, 0, 0, 1]));
}

#[test]
fn contact_points_split_at_the_last_colon() {
    let c = ContactPoint::parse("db.local:9042").unwrap();
    assert_eq!(c.port, Some(9042));
    assert!(matches!(c.host, Host::Domain(ref d) if d.as_str() == "db.local"));
    let c = ContactPoint::parse("10.0.0.1").unwrap();
    assert_eq!(c.port, None);
    assert_eq!(ContactPoint::parse("h:+80").unwrap().port, Some(80));
    assert!(ContactPoint::parse("h:65536").is_err());
    assert!(ContactPoint::parse("h:").is_err());
    let err = ContactPoint::parse("bad host:1").unwrap_err();
    assert_eq!(err.text(), "failed to parse contact point 'bad host:1'");
}

#[test]
fn hosts_and_contact_points_as_text() {
    assert_eq!(Host::parse("db.local").unwrap().text(), "db.local");
    assert_eq!(Host::parse("10.0.0.1").unwrap().text(), "10.0.0.1");
    assert_eq!(Host::localhost().text(), "127.0.0.1");
    assert_eq!(ContactPoint::parse("db.local:9042").unwrap().text(), "db.local:9042");
    assert_eq!(ContactPoint::parse("10.0.0.1").unwrap().text(), "10.0.0.1");
    assert_eq!(ContactPoint::parse("h:+80").unwrap().text(), "h:80");
}
