//! Internet addresses as the driver stores them.
use vstd::prelude::*;

use crate::details::join;
use crate::text::{
    chars_of, decimal, hex_min, push_decimal, push_hex_min, digits_value, hex_value, is_digits, is_hex_group, lemma_decimal_digits,
    lemma_split_append, lemma_split_without_separator, parse_decimal, parse_hex_group, piece_end,
    piece_start, separator_positions, split_on,
};

verus! {

/// An IPv4 or IPv6 address: the driver's 16 address bytes, of which the
/// first `address_length` (4 or 16) are the address.
#[derive(Debug, Clone, Copy)]
pub struct CqlInet {
    /// The address bytes; past the address they are zero.
    pub address: [u8; 16],
    /// The number of address bytes: 4 for IPv4, 16 for IPv6.
    pub address_length: u8,
}

/// A text that is not an IP address.
#[derive(Debug, Clone, Copy, PartialEq, Eq, Structural)]
pub struct InetParseError;

/// Whether `p` is the decimal text of one IPv4 byte: one to three digits,
/// without a leading zero, at most 255.
pub open spec fn is_octet_text(p: Seq<char>) -> bool {
    &&& 1 <= p.len() <= 3
    &&& is_digits(p)
    &&& (p.len() == 1 || p[0] != '0')
    &&& digits_value(p) <= 255
}

/// Whether `s` is the dotted-decimal text of an IPv4 address: four byte
/// texts separated by dots.
pub open spec fn is_ipv4(s: Seq<char>) -> bool {
    let parts = split_on(s, '.');
    parts.len() == 4 && forall|k: int| 0 <= k < 4 ==> is_octet_text(#[trigger] parts[k])
}

/// The bytes of an IPv4 text.
pub open spec fn ipv4_bytes(s: Seq<char>) -> Seq<u8> {
    let parts = split_on(s, '.');
    Seq::new(4, |k: int| digits_value(parts[k]) as u8)
}

/// The dotted-decimal text of four bytes.
pub open spec fn ipv4_text(octets: Seq<u8>) -> Seq<char> {
    decimal(octets[0] as nat) + "."@ + decimal(octets[1] as nat) + "."@ + decimal(
        octets[2] as nat,
    ) + "."@ + decimal(octets[3] as nat)
}

/// The dotted-decimal text of any four bytes is an IPv4 text, and it reads
/// back as those bytes.
pub proof fn lemma_ipv4_text_round_trip(octets: Seq<u8>)
    requires
        octets.len() == 4,
    ensures
        is_ipv4(ipv4_text(octets)),
        ipv4_bytes(ipv4_text(octets)) == octets,
{
    reveal_strlit(".");
    let d0 = decimal(octets[0] as nat);
    let d1 = decimal(octets[1] as nat);
    let d2 = decimal(octets[2] as nat);
    let d3 = decimal(octets[3] as nat);
    lemma_decimal_digits(octets[0] as nat);
    lemma_decimal_digits(octets[1] as nat);
    lemma_decimal_digits(octets[2] as nat);
    lemma_decimal_digits(octets[3] as nat);
    lemma_digits_free_of_dots(d0);
    lemma_digits_free_of_dots(d1);
    lemma_digits_free_of_dots(d2);
    lemma_digits_free_of_dots(d3);
    lemma_split_without_separator(d0, '.');
    lemma_split_append(d0, d1, '.');
    lemma_split_append(d0 + seq!['.'] + d1, d2, '.');
    lemma_split_append(d0 + seq!['.'] + d1 + seq!['.'] + d2, d3, '.');
    assert(ipv4_text(octets) =~= d0 + seq!['.'] + d1 + seq!['.'] + d2 + seq!['.'] + d3);
    let parts = split_on(ipv4_text(octets), '.');
    assert(parts =~= seq![d0, d1, d2, d3]);
    assert(ipv4_bytes(ipv4_text(octets)) =~= octets);
}

proof fn lemma_digits_free_of_dots(s: Seq<char>)
    requires
        is_digits(s),
    ensures
        forall|i: int| 0 <= i < s.len() ==> s[i] != '.',
{
    assert forall|i: int| 0 <= i < s.len() implies s[i] != '.' by {
        assert(crate::text::is_digit(s[i]));
    }
}

/// The eight 16-bit groups of 16 address bytes.
pub open spec fn groups_of(bytes: Seq<u8>) -> Seq<nat> {
    Seq::new(8, |k: int| (bytes[2 * k] as nat) * 256 + bytes[2 * k + 1] as nat)
}

/// The longest run of zero groups seen so far, the first of equally long
/// ones, and the run in progress, each as a start and a length.
pub open spec fn zero_runs(g: Seq<nat>) -> ((int, int), (int, int))
    decreases g.len(),
{
    if g.len() == 0 {
        ((0, 0), (0, 0))
    } else {
        let (longest, current) = zero_runs(g.drop_last());
        if g.last() == 0 {
            let run = if current.1 == 0 { (g.len() - 1, 1int) } else { (current.0, current.1 + 1) };
            (if run.1 > longest.1 { run } else { longest }, run)
        } else {
            (longest, (0, 0))
        }
    }
}

/// The groups in hexadecimal without leading zeros, separated by colons.
pub open spec fn groups_text(g: Seq<nat>) -> Seq<char> {
    join(g.map_values(|v: nat| hex_min(v)), ":"@)
}

/// Whether the groups are an IPv4 address mapped into IPv6
/// (`::ffff:a.b.c.d`).
pub open spec fn is_ipv4_mapped(g: Seq<nat>) -> bool {
    &&& forall|k: int| 0 <= k < 5 ==> g[k] == 0
    &&& g[5] == 0xFFFF
}

/// The text of an IPv6 address: a mapped IPv4 address as `::ffff:` and its
/// dotted-decimal text; else the groups, with the longest run of two or more
/// zero groups (the first of equally long ones) written `::`.
pub open spec fn ipv6_text(bytes: Seq<u8>) -> Seq<char> {
    let g = groups_of(bytes);
    if is_ipv4_mapped(g) {
        "::ffff:"@ + ipv4_text(bytes.subrange(12, 16))
    } else {
        let (start, len) = zero_runs(g).0;
        if len > 1 {
            groups_text(g.subrange(0, start)) + "::"@ + groups_text(g.subrange(start + len, 8))
        } else {
            groups_text(g)
        }
    }
}

/// The text of an address.
pub open spec fn inet_text(a: CqlInet) -> Seq<char> {
    if a.address_length == 4 {
        ipv4_text(a.bytes())
    } else {
        ipv6_text(a.bytes())
    }
}

/// Appends the groups `g[from..to]` in hexadecimal, separated by colons.
fn push_groups(s: &mut String, g: &Vec<u64>, from: usize, to: usize)
    requires
        from <= to <= g@.len(),
    ensures
        final(s)@ == old(s)@ + groups_text(g@.map_values(|v: u64| v as nat).subrange(from as int, to as int)),
{
    let ghost views = g@.map_values(|v: u64| v as nat).subrange(from as int, to as int).map_values(
        |v: nat| hex_min(v),
    );
    let ghost start = s@;
    let mut i: usize = from;
    while i < to
        invariant
            from <= i <= to <= g@.len(),
            views == g@.map_values(|v: u64| v as nat).subrange(from as int, to as int).map_values(
                |v: nat| hex_min(v),
            ),
            s@ == start + join(views.subrange(0, i - from), ":"@),
        decreases to - i,
    {
        proof {
            assert(views.subrange(0, i - from + 1).drop_last() =~= views.subrange(0, i - from));
            assert(views[i - from] == hex_min(g@[i as int] as nat));
        }
        if i > from {
            s.append(":");
        } else {
            proof {
                assert(views.subrange(0, 1) =~= seq![views[0]]);
            }
        }
        push_hex_min(s, g[i]);
        proof {
            assert(s@ =~= start + join(views.subrange(0, i - from + 1), ":"@));
        }
        i = i + 1;
    }
    proof {
        assert(views.subrange(0, to - from) =~= views);
    }
}

/// The position of the first `::` of `s`, if it has one.
pub open spec fn first_double_colon(s: Seq<char>) -> Option<int>
    decreases s.len(),
{
    if s.len() < 2 {
        None
    } else if s[0] == ':' && s[1] == ':' {
        Some(0)
    } else {
        match first_double_colon(s.drop_first()) {
            Some(i) => Some(i + 1),
            None => None,
        }
    }
}

/// The colon-separated groups of `s`; an empty text has none.
pub open spec fn colon_groups(s: Seq<char>) -> Seq<Seq<char>> {
    if s.len() == 0 { Seq::empty() } else { split_on(s, ':') }
}

/// Whether every piece is a group of hexadecimal digits.
pub open spec fn all_hex_groups(parts: Seq<Seq<char>>) -> bool {
    forall|k: int| 0 <= k < parts.len() ==> is_hex_group(#[trigger] parts[k])
}

/// The groups before a `::` at `i`.
pub open spec fn head_groups(s: Seq<char>, i: int) -> Seq<Seq<char>> {
    colon_groups(s.subrange(0, i))
}

/// The groups after a `::` at `i`.
pub open spec fn tail_groups(s: Seq<char>, i: int) -> Seq<Seq<char>> {
    colon_groups(s.subrange(i + 2, s.len() as int))
}

/// Whether `s` is the text of an IPv6 address: eight groups of one to four
/// hexadecimal digits separated by colons, or fewer groups with one `::`
/// standing for at least one group of zeros.
pub open spec fn is_ipv6(s: Seq<char>) -> bool {
    match first_double_colon(s) {
        None => split_on(s, ':').len() == 8 && all_hex_groups(split_on(s, ':')),
        Some(i) => {
            &&& all_hex_groups(head_groups(s, i))
            &&& all_hex_groups(tail_groups(s, i))
            &&& head_groups(s, i).len() + tail_groups(s, i).len() <= 7
        },
    }
}

/// The eight group values of an IPv6 text.
pub open spec fn ipv6_groups(s: Seq<char>) -> Seq<nat> {
    match first_double_colon(s) {
        None => split_on(s, ':').map_values(|p: Seq<char>| hex_value(p)),
        Some(i) => {
            let head = head_groups(s, i);
            let tail = tail_groups(s, i);
            head.map_values(|p: Seq<char>| hex_value(p)) + Seq::new(
                (8 - head.len() - tail.len()) as nat,
                |k: int| 0nat,
            ) + tail.map_values(|p: Seq<char>| hex_value(p))
        },
    }
}

/// The 16 bytes of eight group values, each group most significant byte
/// first.
pub open spec fn group_bytes(groups: Seq<nat>) -> Seq<u8> {
    Seq::new(
        16,
        |b: int|
            if b % 2 == 0 {
                (groups[b / 2] / 256) as u8
            } else {
                (groups[b / 2] % 256) as u8
            },
    )
}

/// Whether `s` is the text of an IP address.
pub open spec fn is_ip(s: Seq<char>) -> bool {
    is_ipv4(s) || is_ipv6(s)
}

/// The bytes of the address an IP text reads as.
pub open spec fn ip_bytes(s: Seq<char>) -> Seq<u8> {
    if is_ipv4(s) {
        ipv4_bytes(s)
    } else {
        group_bytes(ipv6_groups(s))
    }
}

/// With no `::` before `i`, the first one is at `i` if there is one there,
/// and there is none if the text ends before.
proof fn lemma_first_double_colon(s: Seq<char>, i: int)
    requires
        0 <= i,
        forall|j: int| 0 <= j < i && j + 1 < s.len() ==> !(#[trigger] s[j] == ':' && s[j + 1] == ':'),
    ensures
        (i + 1 < s.len() && s[i] == ':' && s[i + 1] == ':') ==> first_double_colon(s) == Some(i),
        i + 1 >= s.len() ==> first_double_colon(s) is None,
    decreases i,
{
    if s.len() >= 2 && i > 0 {
        assert(!(s[0] == ':' && s[1] == ':'));
        let t = s.drop_first();
        assert forall|j: int| 0 <= j < i - 1 && j + 1 < t.len() implies !(#[trigger] t[j] == ':' && t[j
            + 1] == ':') by {
            assert(t[j] == s[j + 1] && t[j + 1] == s[j + 2]);
        }
        lemma_first_double_colon(t, i - 1);
    }
}

/// The groups of the colon-separated text `s[from..to]`, or `None` if a
/// piece is not a group; an empty text has none.
fn parse_groups(s: &Vec<char>, from: usize, to: usize) -> (r: Option<Vec<u16>>)
    requires
        from <= to <= s@.len(),
    ensures
        r is Some <==> all_hex_groups(colon_groups(s@.subrange(from as int, to as int))),
        r matches Some(g) ==> g@.len() == colon_groups(s@.subrange(from as int, to as int)).len()
            && forall|k: int|
            0 <= k < g@.len() ==> #[trigger] g@[k] == hex_value(
                colon_groups(s@.subrange(from as int, to as int))[k],
            ),
{
    let ghost parts = colon_groups(s@.subrange(from as int, to as int));
    if from == to {
        return Some(Vec::new());
    }
    let seps = separator_positions(s, from, to, ':');
    let mut groups: Vec<u16> = Vec::new();
    let mut k: usize = 0;
    loop
        invariant_except_break
            groups@.len() == k,
            forall|j: int| 0 <= j < k ==> is_hex_group(#[trigger] parts[j]) && groups@[j] == hex_value(parts[j]),
        invariant
            from < to <= s@.len(),
            parts == split_on(s@.subrange(from as int, to as int), ':'),
            parts.len() == seps@.len() + 1,
            forall|j: int| 0 <= j < seps@.len() ==> from <= #[trigger] seps@[j] < to,
            forall|j: int, l: int| 0 <= j < l < seps@.len() ==> seps@[j] < seps@[l],
            forall|j: int| 0 <= j <= seps@.len() ==> #[trigger] parts[j] == s@.subrange(
                piece_start(seps@, from as int, j),
                piece_end(seps@, to as int, j),
            ),
            k <= seps@.len(),
        ensures
            parts.len() == groups@.len(),
            forall|j: int| 0 <= j < groups@.len() ==> is_hex_group(#[trigger] parts[j]) && groups@[j] == hex_value(parts[j]),
        decreases seps@.len() - k,
    {
        let start: usize = if k == 0 { from } else { seps[k - 1] + 1 };
        let end: usize = if k == seps.len() { to } else { seps[k] };
        proof {
            assert(parts[k as int] == s@.subrange(start as int, end as int));
            if k > 0 && k < seps@.len() {
                assert(seps@[k - 1] < seps@[k as int]);
            }
        }
        match parse_hex_group(s, start, end) {
            None => {
                return None;
            },
            Some(v) => {
                groups.push(v);
            },
        }
        if k == seps.len() {
            break;
        }
        k = k + 1;
    }
    Some(groups)
}

impl CqlInet {
    /// The bytes of the address.
    pub open spec fn bytes(&self) -> Seq<u8> {
        self.address@.subrange(0, self.address_length as int)
    }

    /// Whether the address has one of the two lengths the driver uses and
    /// zeros past it.
    pub open spec fn wf(&self) -> bool {
        &&& (self.address_length == 4 || self.address_length == 16)
        &&& forall|i: int| self.address_length <= i < 16 ==> self.address@[i] == 0
    }

    /// The IPv4 address with the given bytes.
    pub fn from_v4(octets: [u8; 4]) -> (r: CqlInet)
        ensures
            r.wf(),
            r.address_length == 4,
            r.bytes() == octets@,
    {
        let mut address = [0u8; 16];
        let mut i: usize = 0;
        while i < 4
            invariant
                i <= 4,
                forall|j: int| 0 <= j < i ==> address@[j] == octets@[j],
                forall|j: int| 4 <= j < 16 ==> address@[j] == 0,
            decreases 4 - i,
        {
            address.set(i, octets[i]);
            i = i + 1;
        }
        let r = CqlInet { address, address_length: 4 };
        assert(r.bytes() =~= octets@);
        r
    }

    /// The IPv6 address with the given bytes.
    pub fn from_v6(octets: [u8; 16]) -> (r: CqlInet)
        ensures
            r.wf(),
            r.address_length == 16,
            r.bytes() == octets@,
    {
        let r = CqlInet { address: octets, address_length: 16 };
        assert(r.bytes() =~= octets@);
        r
    }

    /// The number of address bytes.
    pub fn len(&self) -> (r: usize)
        ensures
            r == self.address_length,
    {
        self.address_length as usize
    }

    /// Whether this is an IPv4 address.
    pub fn is_v4(&self) -> (r: bool)
        ensures
            r == (self.address_length == 4),
    {
        self.address_length == 4
    }

    /// Two addresses are equal when their lengths and all 16 bytes are.
    pub fn equals(&self, other: &CqlInet) -> (r: bool)
        ensures
            r == (self.address_length == other.address_length && self.address@ == other.address@),
    {
        if self.address_length != other.address_length {
            return false;
        }
        let mut i: usize = 0;
        while i < 16
            invariant
                i <= 16,
                forall|j: int| 0 <= j < i ==> self.address@[j] == other.address@[j],
            decreases 16 - i,
        {
            if self.address[i] != other.address[i] {
                return false;
            }
            i = i + 1;
        }
        assert(self.address@ =~= other.address@);
        true
    }

    /// The address as text: dotted decimal for IPv4; for IPv6, groups in
    /// hexadecimal with the longest run of zero groups written `::`.
    pub fn text(&self) -> (r: String)
        requires
            self.wf(),
        ensures
            r@ == inet_text(*self),
    {
        let mut s = String::new();
        if self.address_length == 4 {
            self.push_v4(&mut s, 0);
            proof {
                assert(self.address@.subrange(0, 4) =~= self.bytes());
                assert(s@ =~= ipv4_text(self.bytes()));
            }
            return s;
        }
        let ghost bytes = self.bytes();
        proof {
            assert(bytes =~= self.address@);
        }
        let mut g: Vec<u64> = Vec::new();
        let mut k: usize = 0;
        while k < 8
            invariant
                k <= 8,
                bytes == self.address@,
                g@.len() == k,
                forall|j: int| 0 <= j < k ==> #[trigger] g@[j] as nat == groups_of(bytes)[j],
            decreases 8 - k,
        {
            g.push((self.address[2 * k] as u64) * 256 + self.address[2 * k + 1] as u64);
            k = k + 1;
        }
        let ghost groups = g@.map_values(|v: u64| v as nat);
        proof {
            assert(groups =~= groups_of(bytes));
        }
        if g[0] == 0 && g[1] == 0 && g[2] == 0 && g[3] == 0 && g[4] == 0 && g[5] == 0xFFFF {
            s.append("::ffff:");
            self.push_v4(&mut s, 12);
            proof {
                assert(self.address@.subrange(12, 16) =~= bytes.subrange(12, 16));
                assert(s@ =~= ipv6_text(bytes));
            }
            return s;
        }
        let mut longest: (usize, usize) = (0, 0);
        let mut current: (usize, usize) = (0, 0);
        let mut i: usize = 0;
        while i < 8
            invariant
                i <= 8,
                g@.len() == 8,
                groups == g@.map_values(|v: u64| v as nat),
                zero_runs(groups.subrange(0, i as int)) == (
                    (longest.0 as int, longest.1 as int),
                    (current.0 as int, current.1 as int),
                ),
                longest.0 + longest.1 <= i,
                current.0 + current.1 <= i,
            decreases 8 - i,
        {
            proof {
                assert(groups.subrange(0, i + 1).drop_last() =~= groups.subrange(0, i as int));
            }
            if g[i] == 0 {
                if current.1 == 0 {
                    current = (i, 1);
                } else {
                    current = (current.0, current.1 + 1);
                }
                if current.1 > longest.1 {
                    longest = current;
                }
            } else {
                current = (0, 0);
            }
            i = i + 1;
        }
        if longest.1 > 1 {
            push_groups(&mut s, &g, 0, longest.0);
            s.append("::");
            push_groups(&mut s, &g, longest.0 + longest.1, 8);
        } else {
            push_groups(&mut s, &g, 0, 8);
        }
        proof {
            assert(groups.subrange(0, 8) =~= groups);
            assert(s@ =~= ipv6_text(bytes));
        }
        s
    }

    fn push_v4(&self, s: &mut String, at: usize)
        requires
            at + 4 <= 16,
        ensures
            final(s)@ == old(s)@ + ipv4_text(self.address@.subrange(at as int, at + 4)),
    {
        proof {
            reveal_strlit(".");
        }
        push_decimal(s, self.address[at] as u64);
        s.append(".");
        push_decimal(s, self.address[at + 1] as u64);
        s.append(".");
        push_decimal(s, self.address[at + 2] as u64);
        s.append(".");
        push_decimal(s, self.address[at + 3] as u64);
        proof {
            assert(final(s)@ =~= old(s)@ + ipv4_text(self.address@.subrange(at as int, at + 4)));
        }
    }

    /// Parses the text of an IP address: dotted decimal for IPv4, groups of
    /// hexadecimal digits for IPv6.
    pub fn from_str(s: &str) -> (r: Result<CqlInet, InetParseError>)
        ensures
            r is Ok <==> is_ip(s@),
            r matches Ok(inet) ==> inet.wf() && inet.bytes() == ip_bytes(s@) && (inet.address_length
                == 4 <==> is_ipv4(s@)),
    {
        match CqlInet::parse_v4(s) {
            Ok(inet) => Ok(inet),
            Err(_) => CqlInet::parse_v6(s),
        }
    }

    /// Parses the dotted-decimal text of an IPv4 address.
    pub fn parse_v4(s: &str) -> (r: Result<CqlInet, InetParseError>)
        ensures
            r is Ok <==> is_ipv4(s@),
            r matches Ok(inet) ==> inet.wf() && inet.address_length == 4 && inet.bytes() == ipv4_bytes(s@),
    {
        let chars = chars_of(s);
        let n = chars.len();
        let dots = separator_positions(&chars, 0, n, '.');
        proof {
            assert(chars@.subrange(0, n as int) =~= s@);
        }
        if dots.len() != 3 {
            return Err(InetParseError);
        }
        let ghost parts = split_on(s@, '.');
        let mut octets = [0u8; 4];
        let mut k: usize = 0;
        while k < 4
            invariant
                k <= 4,
                n == chars@.len(),
                chars@ == s@,
                dots@.len() == 3,
                parts == split_on(s@, '.'),
                parts.len() == 4,
                forall|j: int| 0 <= j < 3 ==> #[trigger] dots@[j] < n,
                forall|j: int, l: int| 0 <= j < l < 3 ==> dots@[j] < dots@[l],
                forall|j: int| 0 <= j <= 3 ==> #[trigger] parts[j]
                    == chars@.subrange(piece_start(dots@, 0, j), piece_end(dots@, n as int, j)),
                forall|j: int| 0 <= j < k ==> is_octet_text(#[trigger] parts[j]) && octets@[j] == digits_value(parts[j]) as u8,
            decreases 4 - k,
        {
            let from: usize = if k == 0 { 0 } else { dots[k - 1] + 1 };
            let to: usize = if k == 3 { n } else { dots[k] };
            proof {
                assert(parts[k as int] == chars@.subrange(from as int, to as int));
                if k > 0 && k < 3 {
                    assert(dots@[k - 1] < dots@[k as int]);
                }
            }
            if to - from > 3 || (to - from > 1 && chars[from] == '0') {
                proof {
                    if to - from > 1 {
                        assert(parts[k as int][0] == chars@[from as int]);
                    }
                }
                return Err(InetParseError);
            }
            match parse_decimal(&chars, from, to, 255) {
                None => {
                    return Err(InetParseError);
                },
                Some(v) => {
                    octets.set(k, v as u8);
                },
            }
            k = k + 1;
        }
        let inet = CqlInet::from_v4(octets);
        proof {
            assert(inet.bytes() =~= ipv4_bytes(s@));
        }
        Ok(inet)
    }

    /// Parses the text of an IPv6 address.
    pub fn parse_v6(s: &str) -> (r: Result<CqlInet, InetParseError>)
        ensures
            r is Ok <==> is_ipv6(s@),
            r matches Ok(inet) ==> inet.wf() && inet.address_length == 16 && inet.bytes() == group_bytes(
                ipv6_groups(s@),
            ),
    {
        let chars = chars_of(s);
        let n = chars.len();
        // The first `::`, if any.
        let mut i: usize = 0;
        while n > 0 && i < n - 1
            invariant
                n == chars@.len(),
                chars@ == s@,
                i <= n,
                forall|j: int| 0 <= j < i && j + 1 < s@.len() ==> !(#[trigger] s@[j] == ':' && s@[j + 1] == ':'),
            ensures
                i <= n,
                forall|j: int| 0 <= j < i && j + 1 < s@.len() ==> !(#[trigger] s@[j] == ':' && s@[j + 1] == ':'),
                i + 1 >= n || (s@[i as int] == ':' && s@[i + 1] == ':'),
            decreases n - i,
        {
            if chars[i] == ':' && chars[i + 1] == ':' {
                break;
            }
            i = i + 1;
        }
        proof {
            lemma_first_double_colon(s@, i as int);
            assert(chars@.subrange(0, n as int) =~= s@);
        }
        let mut groups: Vec<u16> = Vec::new();
        if n == 0 || i >= n - 1 {
            // No `::`: eight groups.
            let whole = match parse_groups(&chars, 0, n) {
                Some(g) => g,
                None => {
                    proof {
                        if n > 0 {
                            assert(colon_groups(s@) == split_on(s@, ':'));
                        } else {
                            assert(split_on(s@, ':').len() == 1);
                        }
                    }
                    return Err(InetParseError);
                },
            };
            proof {
                if n == 0 {
                    assert(split_on(s@, ':').len() == 1);
                } else {
                    assert(colon_groups(s@) == split_on(s@, ':'));
                }
            }
            if whole.len() != 8 {
                return Err(InetParseError);
            }
            groups = whole;
            proof {
                assert(groups@.map_values(|g: u16| g as nat) =~= ipv6_groups(s@));
            }
        } else {
            let head = match parse_groups(&chars, 0, i) {
                Some(g) => g,
                None => {
                    return Err(InetParseError);
                },
            };
            let tail = match parse_groups(&chars, i + 2, n) {
                Some(g) => g,
                None => {
                    return Err(InetParseError);
                },
            };
            if head.len() > 7 || tail.len() > 7 - head.len() {
                return Err(InetParseError);
            }
            let ghost hg = head_groups(s@, i as int);
            let ghost tg = tail_groups(s@, i as int);
            let zeros = 8 - head.len() - tail.len();
            let mut k: usize = 0;
            while k < head.len()
                invariant
                    k <= head@.len(),
                    groups@ == head@.subrange(0, k as int),
                decreases head@.len() - k,
            {
                groups.push(head[k]);
                k = k + 1;
            }
            let mut z: usize = 0;
            while z < zeros
                invariant
                    z <= zeros,
                    groups@ == head@ + Seq::new(z as nat, |j: int| 0u16),
                decreases zeros - z,
            {
                groups.push(0u16);
                proof {
                    assert(Seq::new((z + 1) as nat, |j: int| 0u16) =~= Seq::new(z as nat, |j: int| 0u16).push(0u16));
                }
                z = z + 1;
            }
            let mut t: usize = 0;
            while t < tail.len()
                invariant
                    t <= tail@.len(),
                    groups@ == head@ + Seq::new(zeros as nat, |j: int| 0u16) + tail@.subrange(0, t as int),
                decreases tail@.len() - t,
            {
                groups.push(tail[t]);
                proof {
                    assert(tail@.subrange(0, t + 1) =~= tail@.subrange(0, t as int).push(tail@[t as int]));
                }
                t = t + 1;
            }
            proof {
                assert(tail@.subrange(0, t as int) =~= tail@);
                assert(hg == colon_groups(chars@.subrange(0, i as int)));
                assert(tg == colon_groups(chars@.subrange(i + 2, n as int)));
                assert(groups@.map_values(|g: u16| g as nat) =~= ipv6_groups(s@));
            }
        }
        let ghost values = groups@.map_values(|g: u16| g as nat);
        let mut address = [0u8; 16];
        let mut b: usize = 0;
        while b < 16
            invariant
                b <= 16,
                groups@.len() == 8,
                values == groups@.map_values(|g: u16| g as nat),
                forall|j: int| 0 <= j < b ==> address@[j] == group_bytes(values)[j],
            decreases 16 - b,
        {
            let g = groups[b / 2];
            let byte: u8 = if b % 2 == 0 { (g / 256) as u8 } else { (g % 256) as u8 };
            address.set(b, byte);
            b = b + 1;
        }
        let inet = CqlInet::from_v6(address);
        proof {
            assert(address@ =~= group_bytes(values));
        }
        Ok(inet)
    }
}

} // verus!
