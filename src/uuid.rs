//! UUIDs as the driver stores them.
use vstd::prelude::*;

use crate::error::DriverError;
use crate::kind::DriverErrorKind;
use crate::text::{
    chars_of, hex_text, hex_value, is_hex_digit, lemma_hex_text, parse_hex_run, pow16n, push_hex,
};

verus! {

/// The offset between the UUID epoch (15 October 1582) and the Unix epoch,
/// in the 100 ns ticks of a time-based UUID.
pub const UUID_EPOCH_OFFSET: u64 = 0x01B2_1DD2_1381_4000;

/// The version of a UUID.
#[derive(Debug, Copy, Clone, PartialEq, Eq, Hash, Structural)]
pub enum CqlUuidVersion {
    /// A time-based UUID.
    V1,
    /// A random UUID.
    V4,
    /// Any other version.
    Other(u8),
}

/// A UUID in the driver's layout: the time and version in one word (time
/// low in the low 32 bits, time mid above it, the version and time high in
/// the top 16 bits), the clock sequence and node in another.
#[derive(Debug, Copy, Clone, PartialEq, Eq, Hash, PartialOrd, Ord, Structural)]
pub struct CqlUuid {
    time_and_version: u64,
    clock_seq_and_node: u64,
}

/// The version number of a UUID: the top four bits of its time word.
pub open spec fn version_number(time_and_version: u64) -> u8 {
    ((time_and_version >> 60u64) & 0x0Fu64) as u8
}

/// The version of a UUID, from its version number.
pub open spec fn version_of(time_and_version: u64) -> CqlUuidVersion {
    let v = version_number(time_and_version);
    if v == 1 {
        CqlUuidVersion::V1
    } else if v == 4 {
        CqlUuidVersion::V4
    } else {
        CqlUuidVersion::Other(v)
    }
}

/// The timestamp of a time-based UUID in milliseconds since the Unix epoch:
/// its 60 time bits, taken back from the UUID epoch in 64-bit wrapping
/// arithmetic, in milliseconds.
pub open spec fn timestamp_of(time_and_version: u64) -> u64 {
    let ticks = (time_and_version & 0x0FFF_FFFF_FFFF_FFFFu64) as int;
    let since_unix = if ticks >= UUID_EPOCH_OFFSET {
        ticks - UUID_EPOCH_OFFSET
    } else {
        ticks - UUID_EPOCH_OFFSET + 0x1_0000_0000_0000_0000
    };
    (since_unix / 10000) as u64
}

/// The text of a UUID: its five fields in lowercase hexadecimal, separated
/// by dashes, as in `550e8400-e29b-41d4-a716-446655440000`.
pub open spec fn uuid_text(time_and_version: u64, clock_seq_and_node: u64) -> Seq<char> {
    hex_text((time_and_version & 0xFFFF_FFFFu64) as nat, 8) + "-"@ + hex_text(
        ((time_and_version >> 32u64) & 0xFFFFu64) as nat,
        4,
    ) + "-"@ + hex_text((time_and_version >> 48u64) as nat, 4) + "-"@ + hex_text(
        (clock_seq_and_node >> 48u64) as nat,
        4,
    ) + "-"@ + hex_text((clock_seq_and_node & 0xFFFF_FFFF_FFFFu64) as nat, 12)
}

/// Whether `s` has the shape of a UUID text: 36 characters, dashes at
/// positions 8, 13, 18 and 23, hexadecimal digits (of either case)
/// elsewhere.
pub open spec fn is_uuid_text(s: Seq<char>) -> bool {
    &&& s.len() == 36
    &&& forall|i: int|
        0 <= i < 36 ==> if i == 8 || i == 13 || i == 18 || i == 23 {
            s[i] == '-'
        } else {
            is_hex_digit(#[trigger] s[i])
        }
}

/// The time and version word a UUID text reads as.
pub open spec fn parsed_time_word(s: Seq<char>) -> nat {
    hex_value(s.subrange(0, 8)) + hex_value(s.subrange(9, 13)) * 0x1_0000_0000 + hex_value(
        s.subrange(14, 18),
    ) * 0x1_0000_0000_0000
}

/// The clock sequence and node word a UUID text reads as.
pub open spec fn parsed_node_word(s: Seq<char>) -> nat {
    hex_value(s.subrange(19, 23)) * 0x1_0000_0000_0000 + hex_value(s.subrange(24, 36))
}

/// The text of a UUID reads back as that UUID.
pub proof fn lemma_uuid_text_round_trip(time_and_version: u64, clock_seq_and_node: u64)
    ensures
        is_uuid_text(uuid_text(time_and_version, clock_seq_and_node)),
        parsed_time_word(uuid_text(time_and_version, clock_seq_and_node)) == time_and_version,
        parsed_node_word(uuid_text(time_and_version, clock_seq_and_node)) == clock_seq_and_node,
{
    let tv = time_and_version;
    let csn = clock_seq_and_node;
    let low = tv & 0xFFFF_FFFFu64;
    let mid = (tv >> 32u64) & 0xFFFFu64;
    let high = tv >> 48u64;
    let clock = csn >> 48u64;
    let node = csn & 0xFFFF_FFFF_FFFFu64;
    lemma_hex_text(low as nat, 8);
    lemma_hex_text(mid as nat, 4);
    lemma_hex_text(high as nat, 4);
    lemma_hex_text(clock as nat, 4);
    lemma_hex_text(node as nat, 12);
    reveal_strlit("-");
    reveal_with_fuel(pow16n, 13);
    assert(low < 0x1_0000_0000u64) by (bit_vector)
        requires
            low == tv & 0xFFFF_FFFFu64;
    assert(mid < 0x1_0000u64) by (bit_vector)
        requires
            mid == (tv >> 32u64) & 0xFFFFu64;
    assert(high < 0x1_0000u64) by (bit_vector)
        requires
            high == tv >> 48u64;
    assert(clock < 0x1_0000u64) by (bit_vector)
        requires
            clock == csn >> 48u64;
    assert(node < 0x1_0000_0000_0000u64) by (bit_vector)
        requires
            node == csn & 0xFFFF_FFFF_FFFFu64;
    assert(pow16n(8) == 0x1_0000_0000);
    assert(pow16n(4) == 0x1_0000);
    assert(pow16n(12) == 0x1_0000_0000_0000);
    let a = hex_text(low as nat, 8);
    let b = hex_text(mid as nat, 4);
    let c = hex_text(high as nat, 4);
    let d = hex_text(clock as nat, 4);
    let e = hex_text(node as nat, 12);
    let t = uuid_text(tv, csn);
    assert(t =~= a + "-"@ + b + "-"@ + c + "-"@ + d + "-"@ + e);
    assert(t.subrange(0, 8) =~= a);
    assert(t.subrange(9, 13) =~= b);
    assert(t.subrange(14, 18) =~= c);
    assert(t.subrange(19, 23) =~= d);
    assert(t.subrange(24, 36) =~= e);
    assert forall|i: int|
        0 <= i < 36 implies if i == 8 || i == 13 || i == 18 || i == 23 {
        t[i] == '-'
    } else {
        is_hex_digit(#[trigger] t[i])
    } by {
        if i < 8 {
            assert(t[i] == a[i]);
        } else if 8 < i < 13 {
            assert(t[i] == b[i - 9]);
        } else if 13 < i < 18 {
            assert(t[i] == c[i - 14]);
        } else if 18 < i < 23 {
            assert(t[i] == d[i - 19]);
        } else if i > 23 {
            assert(t[i] == e[i - 24]);
        }
    }
    assert(tv == low + mid * 0x1_0000_0000u64 + high * 0x1_0000_0000_0000u64) by (bit_vector)
        requires
            low == tv & 0xFFFF_FFFFu64,
            mid == (tv >> 32u64) & 0xFFFFu64,
            high == tv >> 48u64;
    assert(csn == clock * 0x1_0000_0000_0000u64 + node) by (bit_vector)
        requires
            clock == csn >> 48u64,
            node == csn & 0xFFFF_FFFF_FFFFu64;
}

impl CqlUuid {
    /// The time and version word.
    pub closed spec fn time_word(&self) -> u64 {
        self.time_and_version
    }

    /// The clock sequence and node word.
    pub closed spec fn node_word(&self) -> u64 {
        self.clock_seq_and_node
    }

    /// A UUID from its two words.
    pub fn from_components(time_and_version: u64, clock_seq_and_node: u64) -> (r: CqlUuid)
        ensures
            r.time_word() == time_and_version,
            r.node_word() == clock_seq_and_node,
    {
        CqlUuid { time_and_version, clock_seq_and_node }
    }

    /// The time and version word.
    pub fn time_and_version(&self) -> (r: u64)
        ensures
            r == self.time_word(),
    {
        self.time_and_version
    }

    /// The clock sequence and node word.
    pub fn clock_seq_and_node(&self) -> (r: u64)
        ensures
            r == self.node_word(),
    {
        self.clock_seq_and_node
    }

    /// The version of the UUID.
    pub fn version(&self) -> (r: CqlUuidVersion)
        ensures
            r == version_of(self.time_word()),
    {
        let v = ((self.time_and_version >> 60u64) & 0x0Fu64) as u8;
        if v == 1 {
            CqlUuidVersion::V1
        } else if v == 4 {
            CqlUuidVersion::V4
        } else {
            CqlUuidVersion::Other(v)
        }
    }

    /// The UUID as text, in lowercase hexadecimal.
    pub fn text(&self) -> (r: String)
        ensures
            r@ == uuid_text(self.time_word(), self.node_word()),
    {
        let tv = self.time_and_version;
        let csn = self.clock_seq_and_node;
        let mut s = String::new();
        push_hex(&mut s, tv & 0xFFFF_FFFFu64, 8);
        s.append("-");
        push_hex(&mut s, (tv >> 32u64) & 0xFFFFu64, 4);
        s.append("-");
        push_hex(&mut s, tv >> 48u64, 4);
        s.append("-");
        push_hex(&mut s, csn >> 48u64, 4);
        s.append("-");
        push_hex(&mut s, csn & 0xFFFF_FFFF_FFFFu64, 12);
        proof {
            assert(s@ =~= uuid_text(tv, csn));
        }
        s
    }

    /// Parses the text of a UUID; fails with `LibBadParams` on any other
    /// text.
    pub fn from_str(s: &str) -> (r: Result<CqlUuid, DriverError>)
        ensures
            r is Ok <==> is_uuid_text(s@),
            r matches Ok(u) ==> u.time_word() == parsed_time_word(s@) && u.node_word()
                == parsed_node_word(s@),
            r matches Err(e) ==> e.kind == DriverErrorKind::LibBadParams,
    {
        let chars = chars_of(s);
        if chars.len() != 36 || chars[8] != '-' || chars[13] != '-' || chars[18] != '-' || chars[23]
            != '-' {
            return Err(DriverError::with_kind(DriverErrorKind::LibBadParams));
        }
        let a = parse_hex_run(&chars, 0, 8);
        let b = parse_hex_run(&chars, 9, 13);
        let c = parse_hex_run(&chars, 14, 18);
        let d = parse_hex_run(&chars, 19, 23);
        let e = parse_hex_run(&chars, 24, 36);
        match (a, b, c, d, e) {
            (Some(a), Some(b), Some(c), Some(d), Some(e)) => {
                proof {
                    reveal_with_fuel(pow16n, 13);
                    assert(is_uuid_text(s@)) by {
                        assert forall|i: int| 0 <= i < 36 implies if i == 8 || i == 13 || i == 18
                            || i == 23 {
                            s@[i] == '-'
                        } else {
                            is_hex_digit(#[trigger] s@[i])
                        } by {
                            if i < 8 {
                            } else if i == 8 {
                            } else if i < 13 {
                            } else if i == 13 {
                            } else if i < 18 {
                            } else if i == 18 {
                            } else if i < 23 {
                            } else if i == 23 {
                            } else {
                            }
                        }
                    }
                }
                let tv = a + b * 0x1_0000_0000u64 + c * 0x1_0000_0000_0000u64;
                let csn = d * 0x1_0000_0000_0000u64 + e;
                Ok(CqlUuid { time_and_version: tv, clock_seq_and_node: csn })
            },
            _ => {
                proof {
                    if !(a is Some) {
                        let i = choose|i: int| 0 <= i < 8 && !is_hex_digit(s@[i]);
                        assert(!is_hex_digit(s@[i]));
                    } else if !(b is Some) {
                        let i = choose|i: int| 9 <= i < 13 && !is_hex_digit(s@[i]);
                        assert(!is_hex_digit(s@[i]));
                    } else if !(c is Some) {
                        let i = choose|i: int| 14 <= i < 18 && !is_hex_digit(s@[i]);
                        assert(!is_hex_digit(s@[i]));
                    } else if !(d is Some) {
                        let i = choose|i: int| 19 <= i < 23 && !is_hex_digit(s@[i]);
                        assert(!is_hex_digit(s@[i]));
                    } else {
                        let i = choose|i: int| 24 <= i < 36 && !is_hex_digit(s@[i]);
                        assert(!is_hex_digit(s@[i]));
                    }
                }
                Err(DriverError::with_kind(DriverErrorKind::LibBadParams))
            },
        }
    }

    /// The time of a time-based UUID, in milliseconds since the Unix epoch;
    /// `None` for any other version.
    pub fn timestamp(&self) -> (r: Option<u64>)
        ensures
            r is Some <==> version_of(self.time_word()) == CqlUuidVersion::V1,
            r matches Some(t) ==> t == timestamp_of(self.time_word()),
    {
        match self.version() {
            CqlUuidVersion::V1 => {
                let ticks = self.time_and_version & 0x0FFF_FFFF_FFFF_FFFFu64;
                let since_unix = if ticks >= UUID_EPOCH_OFFSET {
                    ticks - UUID_EPOCH_OFFSET
                } else {
                    ticks + (u64::MAX - UUID_EPOCH_OFFSET) + 1
                };
                Some(since_unix / 10000)
            },
            _ => None,
        }
    }
}

} // verus!
