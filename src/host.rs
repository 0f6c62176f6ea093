//! Hosts and contact points of a cluster.
use vstd::prelude::*;

use crate::inet::{inet_text, ip_bytes, is_ip, is_ipv4, CqlInet};
use crate::text::{chars_of, decimal, digits_value, is_digits, parse_decimal, push_decimal};

verus! {

/// A text that is neither an IP address nor a domain name.
#[derive(Debug, Clone, PartialEq, Eq)]
pub struct HostParseError(pub String);

/// A text that is not a contact point.
#[derive(Debug, Clone, PartialEq, Eq)]
pub struct ContactPointParseError(pub String);

/// A domain name.
///
/// Only common mistakes are refused: an empty name, and the characters that
/// never stand in a host name. It is no full validation of domain names.
#[derive(Debug, Clone, PartialEq, Eq)]
pub struct Domain(String);

/// A host of a cluster: a domain name or an IP address.
#[derive(Debug, Clone)]
pub enum Host {
    /// The host is a domain name.
    Domain(Domain),
    /// The host is an IP address.
    IpAddr(CqlInet),
}

/// A host of a cluster, with the port to reach it on if it is not the
/// default one.
#[derive(Debug, Clone)]
pub struct ContactPoint {
    /// The host.
    pub host: Host,
    /// The port, if it is not the default one.
    pub port: Option<u16>,
}

/// Whether `h` is the host that the text `s` reads as.
pub open spec fn host_reads_as(h: Host, s: Seq<char>) -> bool {
    match h {
        Host::Domain(d) => d@ == s && !is_ip(s),
        Host::IpAddr(a) => {
            &&& is_ip(s)
            &&& a.wf()
            &&& a.bytes() == ip_bytes(s)
            &&& (a.address_length == 4 <==> is_ipv4(s))
        },
    }
}

/// Whether a host holds a well-formed address, if it holds one.
pub open spec fn host_wf(h: Host) -> bool {
    match h {
        Host::Domain(_) => true,
        Host::IpAddr(a) => a.wf(),
    }
}

/// The text of a host: the domain name, or the address's text.
pub open spec fn host_text(h: Host) -> Seq<char> {
    match h {
        Host::Domain(d) => d@,
        Host::IpAddr(a) => inet_text(a),
    }
}

/// The text of a contact point: its host, then `:` and the port if it has
/// one.
pub open spec fn contact_point_text(c: ContactPoint) -> Seq<char> {
    host_text(c.host) + match c.port {
        Some(p) => ":"@ + decimal(p as nat),
        None => Seq::empty(),
    }
}

/// Whether `c` may not stand in a domain name: the control characters, the
/// space, and `# % / : < > ? @ [ \ ] ^ |`.
pub open spec fn invalid_domain_char(c: char) -> bool {
    ||| c <= '\u{1F}'
    ||| c == ' '
    ||| c == '#'
    ||| c == '%'
    ||| c == '/'
    ||| c == ':'
    ||| c == '<'
    ||| c == '>'
    ||| c == '?'
    ||| c == '@'
    ||| c == '['
    ||| c == '\\'
    ||| c == ']'
    ||| c == '^'
    ||| c == '\u{7F}'
    ||| c == '|'
}

/// Whether `s` is accepted as a domain name.
pub open spec fn is_domain(s: Seq<char>) -> bool {
    s.len() > 0 && forall|i: int| 0 <= i < s.len() ==> !invalid_domain_char(#[trigger] s[i])
}

/// Whether `s` is accepted as a host: an IP address or a domain name.
pub open spec fn is_host(s: Seq<char>) -> bool {
    is_ip(s) || is_domain(s)
}

/// Whether `p` is the text of a port, as an unsigned 16-bit number reads:
/// an optional `+`, then decimal digits whose value fits.
pub open spec fn is_port_text(p: Seq<char>) -> bool {
    let digits = if p.len() > 0 && p[0] == '+' { p.drop_first() } else { p };
    is_digits(digits) && digits_value(digits) <= 0xFFFF
}

/// The value of a port text.
pub open spec fn port_value(p: Seq<char>) -> nat {
    if p.len() > 0 && p[0] == '+' { digits_value(p.drop_first()) } else { digits_value(p) }
}

/// The position of the last `:` of `s`, if it has one.
pub open spec fn last_colon(s: Seq<char>) -> Option<int>
    decreases s.len(),
{
    if s.len() == 0 {
        None
    } else if s.last() == ':' {
        Some(s.len() - 1)
    } else {
        last_colon(s.drop_last())
    }
}

/// Whether `s` is accepted as a contact point: split at its last colon, a
/// host and a port; without a colon, a host.
pub open spec fn is_contact_point(s: Seq<char>) -> bool {
    match last_colon(s) {
        Some(i) => is_host(s.subrange(0, i)) && is_port_text(s.subrange(i + 1, s.len() as int)),
        None => is_host(s),
    }
}

/// Whether `c` may not stand in a domain name.
pub fn is_invalid_domain_char(c: char) -> (r: bool)
    ensures
        r == invalid_domain_char(c),
{
    c <= '\u{1F}' || c == ' ' || c == '#' || c == '%' || c == '/' || c == ':' || c == '<' || c
        == '>' || c == '?' || c == '@' || c == '[' || c == '\\' || c == ']' || c == '^' || c
        == '\u{7F}' || c == '|'
}

/// Whether `s` holds a character that may not stand in a domain name.
pub fn has_invalid_domain_chars(s: &str) -> (r: bool)
    ensures
        r == exists|i: int| 0 <= i < s@.len() && invalid_domain_char(#[trigger] s@[i]),
{
    let chars = chars_of(s);
    let mut i: usize = 0;
    while i < chars.len()
        invariant
            chars@ == s@,
            i <= chars@.len(),
            forall|j: int| 0 <= j < i ==> !invalid_domain_char(#[trigger] s@[j]),
        decreases chars@.len() - i,
    {
        if is_invalid_domain_char(chars[i]) {
            return true;
        }
        i = i + 1;
    }
    false
}

/// Parses a domain name.
pub fn parse_domain(s: String) -> (r: Result<Domain, HostParseError>)
    ensures
        r is Ok <==> is_domain(s@),
        r matches Ok(d) ==> d@ == s@,
        r matches Err(e) ==> e.0@ == s@,
{
    if s.as_str().is_empty() {
        return Err(HostParseError(s));
    }
    if has_invalid_domain_chars(s.as_str()) {
        return Err(HostParseError(s));
    }
    Ok(Domain(s))
}

impl View for Domain {
    type V = Seq<char>;

    closed spec fn view(&self) -> Seq<char> {
        self.0@
    }
}

impl Domain {
    /// The name.
    pub fn as_str(&self) -> (r: &str)
        ensures
            r@ == self@,
    {
        self.0.as_str()
    }
}

impl HostParseError {
    /// The error as text.
    pub fn text(&self) -> (r: String)
        ensures
            r@ == "failed to parse host '"@ + self.0@ + "'"@,
    {
        let mut s = "failed to parse host '".to_owned();
        s.append(self.0.as_str());
        s.append("'");
        s
    }
}

impl ContactPointParseError {
    /// The error as text.
    pub fn text(&self) -> (r: String)
        ensures
            r@ == "failed to parse contact point '"@ + self.0@ + "'"@,
    {
        let mut s = "failed to parse contact point '".to_owned();
        s.append(self.0.as_str());
        s.append("'");
        s
    }
}

impl Host {
    /// Parses a host: an IP address if the text is one, else a domain name.
    pub fn parse(s: &str) -> (r: Result<Host, HostParseError>)
        ensures
            r is Ok <==> is_host(s@),
            r matches Ok(h) ==> host_reads_as(h, s@),
            r matches Err(e) ==> e.0@ == s@,
    {
        match CqlInet::from_str(s) {
            Ok(inet) => Ok(Host::IpAddr(inet)),
            Err(_) => match parse_domain(s.to_owned()) {
                Ok(d) => Ok(Host::Domain(d)),
                Err(e) => Err(e),
            },
        }
    }

    /// The host as text.
    pub fn text(&self) -> (r: String)
        requires
            host_wf(*self),
        ensures
            r@ == host_text(*self),
    {
        match self {
            Host::Domain(d) => d.as_str().to_owned(),
            Host::IpAddr(a) => a.text(),
        }
    }

    /// The default host: the IPv4 loopback address.
    pub fn localhost() -> (r: Host)
        ensures
            r matches Host::IpAddr(a) && a.bytes() == seq![127u8, 0, 0, 1],
    {
        Host::IpAddr(CqlInet::from_v4([127u8, 0, 0, 1]))
    }
}

/// Parses a port the way an unsigned 16-bit number reads.
fn parse_port(chars: &Vec<char>, from: usize) -> (r: Option<u16>)
    requires
        from <= chars@.len(),
    ensures
        r is Some <==> is_port_text(chars@.subrange(from as int, chars@.len() as int)),
        r matches Some(p) ==> p == port_value(chars@.subrange(from as int, chars@.len() as int)),
{
    let ghost p = chars@.subrange(from as int, chars@.len() as int);
    let start = if from < chars.len() && chars[from] == '+' { from + 1 } else { from };
    proof {
        if from < chars.len() && chars@[from as int] == '+' {
            assert(p.drop_first() =~= chars@.subrange(start as int, chars@.len() as int));
        }
    }
    match parse_decimal(chars, start, chars.len(), 0xFFFF) {
        Some(v) => Some(v as u16),
        None => None,
    }
}

impl ContactPoint {
    /// A contact point on the given port.
    pub fn new(host: Host, port: u16) -> (r: ContactPoint)
        ensures
            r.host == host,
            r.port == Some(port),
    {
        ContactPoint { host, port: Some(port) }
    }

    /// A contact point on the default port.
    pub fn with_host(host: Host) -> (r: ContactPoint)
        ensures
            r.host == host,
            r.port is None,
    {
        ContactPoint { host, port: None }
    }

    /// The contact point as text: the host, then `:` and the port if there
    /// is one.
    pub fn text(&self) -> (r: String)
        requires
            host_wf(self.host),
        ensures
            r@ == contact_point_text(*self),
    {
        let mut s = self.host.text();
        match self.port {
            Some(p) => {
                proof {
                    reveal_strlit(":");
                }
                s.append(":");
                push_decimal(&mut s, p as u64);
                proof {
                    assert(s@ =~= contact_point_text(*self));
                }
            },
            None => {
                proof {
                    assert(s@ =~= contact_point_text(*self));
                }
            },
        }
        s
    }

    /// Parses a contact point: the text up to its last colon is the host and
    /// the rest the port; a text without a colon is a host alone.
    pub fn parse(s: &str) -> (r: Result<ContactPoint, ContactPointParseError>)
        ensures
            r is Ok <==> is_contact_point(s@),
            r matches Ok(c) ==> (c.port is Some <==> last_colon(s@) is Some),
            r matches Ok(c) ==> match last_colon(s@) {
                Some(i) => host_reads_as(c.host, s@.subrange(0, i)),
                None => host_reads_as(c.host, s@),
            },
            r matches Ok(c) ==> (c.port matches Some(p) ==> last_colon(s@) matches Some(i) && p
                == port_value(s@.subrange(i + 1, s@.len() as int))),
            r matches Err(e) ==> e.0@ == s@,
    {
        let chars = chars_of(s);
        let mut i: usize = chars.len();
        proof {
            assert(s@.subrange(0, s@.len() as int) =~= s@);
        }
        while i > 0
            invariant
                chars@ == s@,
                i <= chars@.len(),
                last_colon(s@) == last_colon(s@.subrange(0, i as int)),
            ensures
                i <= chars@.len(),
                last_colon(s@) == last_colon(s@.subrange(0, i as int)),
                i == 0 || s@[i - 1] == ':',
            decreases i,
        {
            proof {
                assert(s@.subrange(0, i as int).drop_last() =~= s@.subrange(0, i - 1));
            }
            if chars[i - 1] == ':' {
                break;
            }
            i = i - 1;
        }
        proof {
            if i == 0 {
                assert(last_colon(s@.subrange(0, 0)) is None);
            }
        }
        if i == 0 {
            return match Host::parse(s) {
                Ok(host) => Ok(ContactPoint::with_host(host)),
                Err(_) => Err(ContactPointParseError(s.to_owned())),
            };
        }
        let colon = i - 1;
        proof {
            assert(s@.subrange(0, i as int).last() == ':');
            assert(last_colon(s@) == Some(colon as int));
        }
        let host_text = s.substring_char(0, colon);
        match Host::parse(host_text) {
            Err(_) => Err(ContactPointParseError(s.to_owned())),
            Ok(host) => match parse_port(&chars, colon + 1) {
                None => Err(ContactPointParseError(s.to_owned())),
                Some(port) => Ok(ContactPoint::new(host, port)),
            },
        }
    }
}

} // verus!
