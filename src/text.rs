//! Rendering of numbers as text.
use vstd::prelude::*;

verus! {

/// The character of a decimal digit.
pub open spec fn digit_char(d: nat) -> char {
    if d == 0 { '0' }
    else if d == 1 { '1' }
    else if d == 2 { '2' }
    else if d == 3 { '3' }
    else if d == 4 { '4' }
    else if d == 5 { '5' }
    else if d == 6 { '6' }
    else if d == 7 { '7' }
    else if d == 8 { '8' }
    else { '9' }
}

/// The decimal notation of `n`, most significant digit first, without
/// leading zeros.
pub open spec fn decimal(n: nat) -> Seq<char>
    decreases n,
{
    if n < 10 {
        seq![digit_char(n)]
    } else {
        decimal(n / 10).push(digit_char(n % 10))
    }
}

/// Decimal notation is never empty.
pub proof fn lemma_decimal_not_empty(n: nat)
    ensures
        decimal(n).len() > 0,
    decreases n,
{
    if n >= 10 {
        lemma_decimal_not_empty(n / 10);
    }
}

fn digit_str(d: u64) -> (r: &'static str)
    requires
        d < 10,
    ensures
        r@ == seq![digit_char(d as nat)],
{
    proof {
        reveal_strlit("0");
        reveal_strlit("1");
        reveal_strlit("2");
        reveal_strlit("3");
        reveal_strlit("4");
        reveal_strlit("5");
        reveal_strlit("6");
        reveal_strlit("7");
        reveal_strlit("8");
        reveal_strlit("9");
    }
    if d == 0 { "0" }
    else if d == 1 { "1" }
    else if d == 2 { "2" }
    else if d == 3 { "3" }
    else if d == 4 { "4" }
    else if d == 5 { "5" }
    else if d == 6 { "6" }
    else if d == 7 { "7" }
    else if d == 8 { "8" }
    else { "9" }
}

/// Writes `n` in decimal notation.
pub fn to_decimal(n: u64) -> (r: String)
    ensures
        r@ == decimal(n as nat),
    decreases n,
{
    if n < 10 {
        digit_str(n).to_owned()
    } else {
        let mut s = to_decimal(n / 10);
        s.append(digit_str(n % 10));
        s
    }
}

} // verus!

verus! {

/// Whether `c` is a decimal digit.
pub open spec fn is_digit(c: char) -> bool {
    '0' <= c <= '9'
}

/// The value of a decimal digit.
pub open spec fn digit_value(c: char) -> nat {
    (c as u32 - '0' as u32) as nat
}

/// The value of a run of decimal digits, most significant first.
pub open spec fn digits_value(s: Seq<char>) -> nat
    decreases s.len(),
{
    if s.len() == 0 {
        0
    } else {
        digits_value(s.drop_last()) * 10 + digit_value(s.last())
    }
}

/// Whether `s` is a non-empty run of decimal digits.
pub open spec fn is_digits(s: Seq<char>) -> bool {
    s.len() > 0 && forall|i: int| 0 <= i < s.len() ==> is_digit(#[trigger] s[i])
}

/// The characters of `s`, one by one.
pub fn chars_of(s: &str) -> (r: Vec<char>)
    ensures
        r@ == s@,
{
    let n = s.unicode_len();
    let mut out: Vec<char> = Vec::new();
    let mut i: usize = 0;
    while i < n
        invariant
            n == s@.len(),
            i <= n,
            out@ == s@.subrange(0, i as int),
        decreases n - i,
    {
        out.push(s.get_char(i));
        i = i + 1;
    }
    assert(out@ =~= s@);
    out
}

/// The value of the decimal digits `s[from..to]`, or `None` if they are
/// not all digits, are none, or their value exceeds `max`.
pub fn parse_decimal(s: &Vec<char>, from: usize, to: usize, max: u32) -> (r: Option<u32>)
    requires
        from <= to <= s@.len(),
    ensures
        r is Some <==> is_digits(s@.subrange(from as int, to as int)) && digits_value(
            s@.subrange(from as int, to as int),
        ) <= max,
        r matches Some(v) ==> v == digits_value(s@.subrange(from as int, to as int)),
{
    if from == to {
        return None;
    }
    let mut value: u32 = 0;
    let mut i: usize = from;
    while i < to
        invariant
            from <= i <= to <= s@.len(),
            is_digits(s@.subrange(from as int, i as int)) || i == from,
            value == digits_value(s@.subrange(from as int, i as int)),
            value <= max,
        decreases to - i,
    {
        let c = s[i];
        proof {
            assert(s@.subrange(from as int, i + 1).drop_last() =~= s@.subrange(from as int, i as int));
        }
        if c < '0' || c > '9' {
            proof {
                assert(s@.subrange(from as int, to as int)[i - from] == c);
            }
            return None;
        }
        let d = (c as u32) - ('0' as u32);
        if d > max || value > (max - d) / 10 {
            proof {
                lemma_digits_prefix_bound(s@.subrange(from as int, to as int), (i + 1 - from) as nat);
                assert(s@.subrange(from as int, to as int).subrange(0, (i + 1 - from) as int)
                    =~= s@.subrange(from as int, i + 1));
                assert(digits_value(s@.subrange(from as int, i + 1)) == value * 10 + d);
                if d <= max {
                    assert(value * 10 + d > max) by (nonlinear_arith)
                        requires value > (max - d) / 10, d <= 9, d <= max;
                }
            }
            return None;
        }
        proof {
            assert(value * 10 + d <= max) by (nonlinear_arith)
                requires value <= (max - d) / 10, d <= max;
        }
        value = value * 10 + d;
        i = i + 1;
    }
    Some(value)
}

/// The value of a prefix of a run of digits never exceeds the value of the
/// whole run.
pub proof fn lemma_digits_prefix_bound(s: Seq<char>, n: nat)
    requires
        n <= s.len(),
    ensures
        digits_value(s.subrange(0, n as int)) <= digits_value(s),
    decreases s.len(),
{
    if n < s.len() {
        assert(s.drop_last().subrange(0, n as int) =~= s.subrange(0, n as int));
        lemma_digits_prefix_bound(s.drop_last(), n);
    } else {
        assert(s.subrange(0, n as int) =~= s);
    }
}

} // verus!

verus! {

/// Whether `c` is a hexadecimal digit, in either case.
pub open spec fn is_hex_digit(c: char) -> bool {
    ('0' <= c <= '9') || ('a' <= c <= 'f') || ('A' <= c <= 'F')
}

/// The value of a hexadecimal digit.
pub open spec fn hex_digit_value(c: char) -> nat {
    if '0' <= c <= '9' {
        (c as u32 - '0' as u32) as nat
    } else if 'a' <= c <= 'f' {
        (c as u32 - 'a' as u32 + 10) as nat
    } else {
        (c as u32 - 'A' as u32 + 10) as nat
    }
}

/// The value of a run of hexadecimal digits, most significant first.
pub open spec fn hex_value(s: Seq<char>) -> nat
    decreases s.len(),
{
    if s.len() == 0 {
        0
    } else {
        hex_value(s.drop_last()) * 16 + hex_digit_value(s.last())
    }
}

/// Whether `s` is a group of an IPv6 address: one to four hexadecimal
/// digits.
pub open spec fn is_hex_group(s: Seq<char>) -> bool {
    1 <= s.len() <= 4 && forall|i: int| 0 <= i < s.len() ==> is_hex_digit(#[trigger] s[i])
}

/// The pieces of `s` between the separators `sep`, in order; a text without
/// a separator is a single piece.
pub open spec fn split_on(s: Seq<char>, sep: char) -> Seq<Seq<char>>
    decreases s.len(),
{
    if s.len() == 0 {
        seq![Seq::empty()]
    } else {
        let p = split_on(s.drop_last(), sep);
        if s.last() == sep {
            p.push(Seq::empty())
        } else {
            p.update(p.len() - 1, p.last().push(s.last()))
        }
    }
}

/// Where piece `k` starts, given the separators' positions.
pub open spec fn piece_start(seps: Seq<usize>, from: int, k: int) -> int {
    if k == 0 { from } else { seps[k - 1] + 1 }
}

/// Where piece `k` ends, given the separators' positions.
pub open spec fn piece_end(seps: Seq<usize>, to: int, k: int) -> int {
    if k == seps.len() { to } else { seps[k] as int }
}

/// The positions of the separators `sep` in `s[from..to]`: one fewer than
/// the pieces, each piece spanning from just past one separator to the
/// next.
pub fn separator_positions(s: &Vec<char>, from: usize, to: usize, sep: char) -> (seps: Vec<usize>)
    requires
        from <= to <= s@.len(),
    ensures
        split_on(s@.subrange(from as int, to as int), sep).len() == seps@.len() + 1,
        seps@.len() <= to - from,
        forall|k: int| 0 <= k < seps@.len() ==> from <= #[trigger] seps@[k] < to,
        forall|k: int, l: int| 0 <= k < l < seps@.len() ==> seps@[k] < seps@[l],
        forall|k: int| 0 <= k <= seps@.len() ==> #[trigger] split_on(s@.subrange(from as int, to as int), sep)[k]
            == s@.subrange(piece_start(seps@, from as int, k), piece_end(seps@, to as int, k)),
{
    let mut seps: Vec<usize> = Vec::new();
    let mut i: usize = from;
    while i < to
        invariant
            from <= i <= to <= s@.len(),
            split_on(s@.subrange(from as int, i as int), sep).len() == seps@.len() + 1,
            seps@.len() <= i - from,
            forall|k: int| 0 <= k < seps@.len() ==> from <= #[trigger] seps@[k] < i,
            forall|k: int, l: int| 0 <= k < l < seps@.len() ==> seps@[k] < seps@[l],
            forall|k: int| 0 <= k <= seps@.len() ==> #[trigger] split_on(s@.subrange(from as int, i as int), sep)[k]
                == s@.subrange(piece_start(seps@, from as int, k), piece_end(seps@, i as int, k)),
        decreases to - i,
    {
        let ghost before = split_on(s@.subrange(from as int, i as int), sep);
        let ghost old_seps = seps@;
        proof {
            assert(s@.subrange(from as int, i + 1).drop_last() =~= s@.subrange(from as int, i as int));
            assert(s@.subrange(from as int, i + 1).last() == s@[i as int]);
        }
        if s[i] == sep {
            seps.push(i);
            proof {
                let after = split_on(s@.subrange(from as int, i + 1), sep);
                assert(after == before.push(Seq::empty()));
                assert forall|k: int| 0 <= k <= seps@.len() implies #[trigger] after[k]
                    == s@.subrange(piece_start(seps@, from as int, k), piece_end(seps@, i + 1, k)) by {
                    if k < old_seps.len() {
                        assert(after[k] == before[k]);
                        assert(piece_start(seps@, from as int, k) == piece_start(old_seps, from as int, k));
                        assert(piece_end(seps@, i + 1, k) == piece_end(old_seps, i as int, k));
                    } else if k == old_seps.len() {
                        assert(after[k] == before[k]);
                        assert(piece_start(seps@, from as int, k) == piece_start(old_seps, from as int, k));
                    } else {
                        assert(after[k] =~= s@.subrange(i + 1, i + 1));
                    }
                }
            }
        } else {
            proof {
                let after = split_on(s@.subrange(from as int, i + 1), sep);
                let last = seps@.len() as int;
                assert(after == before.update(last, before[last].push(s@[i as int])));
                assert forall|k: int| 0 <= k <= seps@.len() implies #[trigger] after[k]
                    == s@.subrange(piece_start(seps@, from as int, k), piece_end(seps@, i + 1, k)) by {
                    if k < last {
                        assert(after[k] == before[k]);
                    } else {
                        assert(after[k] =~= s@.subrange(piece_start(seps@, from as int, k), i + 1));
                    }
                }
            }
        }
        i = i + 1;
    }
    seps
}

/// The value of the hexadecimal group `s[from..to]`, or `None` if it is
/// not one.
pub fn parse_hex_group(s: &Vec<char>, from: usize, to: usize) -> (r: Option<u16>)
    requires
        from <= to <= s@.len(),
    ensures
        r is Some <==> is_hex_group(s@.subrange(from as int, to as int)),
        r matches Some(v) ==> v == hex_value(s@.subrange(from as int, to as int)),
{
    if from == to || to - from > 4 {
        return None;
    }
    let mut value: u32 = 0;
    let mut i: usize = from;
    while i < to
        invariant
            from <= i <= to <= s@.len(),
            to - from <= 4,
            forall|j: int| from <= j < i ==> is_hex_digit(#[trigger] s@[j]),
            value == hex_value(s@.subrange(from as int, i as int)),
            value < pow16(i - from),
        decreases to - i,
    {
        let c = s[i];
        proof {
            assert(s@.subrange(from as int, i + 1).drop_last() =~= s@.subrange(from as int, i as int));
        }
        let d: u32 = if '0' <= c && c <= '9' {
            (c as u32) - ('0' as u32)
        } else if 'a' <= c && c <= 'f' {
            (c as u32) - ('a' as u32) + 10
        } else if 'A' <= c && c <= 'F' {
            (c as u32) - ('A' as u32) + 10
        } else {
            proof {
                assert(s@.subrange(from as int, to as int)[i - from] == c);
            }
            return None;
        };
        proof {
            assert(value * 16 + d < pow16(i + 1 - from)) by (nonlinear_arith)
                requires value < pow16(i - from), d < 16, pow16(i + 1 - from) == pow16(i - from) * 16;
        }
        value = value * 16 + d;
        i = i + 1;
    }
    proof {
        assert forall|j: int| 0 <= j < (to - from) implies is_hex_digit(
            #[trigger] s@.subrange(from as int, to as int)[j],
        ) by {
            assert(s@.subrange(from as int, to as int)[j] == s@[from + j]);
        }
    }
    Some(value as u16)
}

/// 16 to the power `n`, for `n` up to 4.
pub open spec fn pow16(n: int) -> nat {
    if n <= 0 { 1 } else if n == 1 { 16 } else if n == 2 { 256 } else if n == 3 { 4096 } else { 65536 }
}

} // verus!

verus! {

/// The lowercase character of a hexadecimal digit.
pub open spec fn hex_char(d: nat) -> char {
    if d < 10 {
        digit_char(d)
    } else if d == 10 {
        'a'
    } else if d == 11 {
        'b'
    } else if d == 12 {
        'c'
    } else if d == 13 {
        'd'
    } else if d == 14 {
        'e'
    } else {
        'f'
    }
}

/// The `n` lowest hexadecimal digits of `v`, lowercase, most significant
/// first.
pub open spec fn hex_text(v: nat, n: nat) -> Seq<char>
    decreases n,
{
    if n == 0 {
        Seq::empty()
    } else {
        hex_text(v / 16, (n - 1) as nat).push(hex_char(v % 16))
    }
}

/// 16 to the power `n`.
pub open spec fn pow16n(n: nat) -> nat
    decreases n,
{
    if n == 0 { 1 } else { 16 * pow16n((n - 1) as nat) }
}

fn hex_digit_str(d: u64) -> (r: &'static str)
    requires
        d < 16,
    ensures
        r@ == seq![hex_char(d as nat)],
{
    proof {
        reveal_strlit("a");
        reveal_strlit("b");
        reveal_strlit("c");
        reveal_strlit("d");
        reveal_strlit("e");
        reveal_strlit("f");
    }
    if d < 10 {
        digit_str(d)
    } else if d == 10 {
        "a"
    } else if d == 11 {
        "b"
    } else if d == 12 {
        "c"
    } else if d == 13 {
        "d"
    } else if d == 14 {
        "e"
    } else {
        "f"
    }
}

/// Appends the `n` lowest hexadecimal digits of `v`.
pub fn push_hex(s: &mut String, v: u64, n: usize)
    ensures
        final(s)@ == old(s)@ + hex_text(v as nat, n as nat),
    decreases n,
{
    if n == 0 {
        proof {
            assert(old(s)@ + Seq::<char>::empty() =~= old(s)@);
        }
    } else {
        push_hex(s, v / 16, n - 1);
        s.append(hex_digit_str(v % 16));
        proof {
            assert(final(s)@ =~= old(s)@ + hex_text(v as nat, n as nat));
        }
    }
}

/// The value of the hexadecimal digits `s[from..to]`, at most 16 of them,
/// or `None` if one is not a hexadecimal digit.
pub fn parse_hex_run(s: &Vec<char>, from: usize, to: usize) -> (r: Option<u64>)
    requires
        from <= to <= s@.len(),
        to - from <= 16,
    ensures
        r is Some <==> forall|i: int| from <= i < to ==> is_hex_digit(#[trigger] s@[i]),
        r matches Some(v) ==> v == hex_value(s@.subrange(from as int, to as int)) && v < pow16n(
            (to - from) as nat,
        ),
{
    let mut value: u64 = 0;
    let mut i: usize = from;
    proof {
        lemma_pow16n_bound((to - from) as nat);
    }
    while i < to
        invariant
            from <= i <= to <= s@.len(),
            to - from <= 16,
            pow16n((to - from) as nat) <= 0x1_0000_0000_0000_0000,
            forall|j: int| from <= j < i ==> is_hex_digit(#[trigger] s@[j]),
            value == hex_value(s@.subrange(from as int, i as int)),
            value < pow16n((i - from) as nat),
        decreases to - i,
    {
        let c = s[i];
        proof {
            assert(s@.subrange(from as int, i + 1).drop_last() =~= s@.subrange(from as int, i as int));
            lemma_pow16n_monotonic((i + 1 - from) as nat, (to - from) as nat);
        }
        let d: u64 = if '0' <= c && c <= '9' {
            (c as u64) - ('0' as u64)
        } else if 'a' <= c && c <= 'f' {
            (c as u64) - ('a' as u64) + 10
        } else if 'A' <= c && c <= 'F' {
            (c as u64) - ('A' as u64) + 10
        } else {
            return None;
        };
        proof {
            assert(pow16n((i + 1 - from) as nat) == 16 * pow16n((i - from) as nat));
            assert(value * 16 + d < pow16n((i + 1 - from) as nat)) by (nonlinear_arith)
                requires value < pow16n((i - from) as nat), d < 16, pow16n((i + 1 - from) as nat) == 16
                    * pow16n((i - from) as nat);
        }
        value = value * 16 + d;
        i = i + 1;
    }
    Some(value)
}

/// Sixteen hexadecimal digits fit in 64 bits.
pub proof fn lemma_pow16n_bound(n: nat)
    requires
        n <= 16,
    ensures
        pow16n(n) <= 0x1_0000_0000_0000_0000,
{
    lemma_pow16n_monotonic(n, 16);
    reveal_with_fuel(pow16n, 17);
    assert(pow16n(16) == 0x1_0000_0000_0000_0000);
}

/// More digits hold larger values.
pub proof fn lemma_pow16n_monotonic(a: nat, b: nat)
    requires
        a <= b,
    ensures
        pow16n(a) <= pow16n(b),
        pow16n(a) >= 1,
    decreases b,
{
    if a < b {
        lemma_pow16n_monotonic(a, (b - 1) as nat);
    } else if a > 0 {
        lemma_pow16n_monotonic((a - 1) as nat, (a - 1) as nat);
    }
}

} // verus!

verus! {

/// A digit's character reads back as the digit.
pub proof fn lemma_hex_char(d: nat)
    requires
        d < 16,
    ensures
        is_hex_digit(hex_char(d)),
        hex_digit_value(hex_char(d)) == d,
{
}

/// The `n`-digit hexadecimal text of `v` has `n` digits and reads back as
/// `v` modulo `16^n`.
pub proof fn lemma_hex_text(v: nat, n: nat)
    ensures
        hex_text(v, n).len() == n,
        forall|i: int| 0 <= i < n ==> is_hex_digit(#[trigger] hex_text(v, n)[i]),
        hex_value(hex_text(v, n)) == v % pow16n(n),
    decreases n,
{
    if n > 0 {
        lemma_hex_text(v / 16, (n - 1) as nat);
        lemma_hex_char(v % 16);
        let t = hex_text(v, n);
        assert(t.drop_last() =~= hex_text(v / 16, (n - 1) as nat));
        lemma_pow16n_monotonic(0, (n - 1) as nat);
        vstd::arithmetic::div_mod::lemma_mod_breakdown(v as int, 16, pow16n((n - 1) as nat) as int);
        assert forall|i: int| 0 <= i < n implies is_hex_digit(#[trigger] t[i]) by {
            if i < n - 1 {
                assert(t[i] == hex_text(v / 16, (n - 1) as nat)[i]);
            }
        }
    }
}

} // verus!

verus! {

/// A decimal text is made of digits and reads back as its number.
pub proof fn lemma_decimal_digits(n: nat)
    ensures
        is_digits(decimal(n)),
        digits_value(decimal(n)) == n,
        n >= 1 ==> decimal(n)[0] != '0',
        n < 10 ==> decimal(n).len() == 1,
        10 <= n < 100 ==> decimal(n).len() == 2,
        100 <= n < 1000 ==> decimal(n).len() == 3,
    decreases n,
{
    lemma_digit_char(n % 10);
    if n >= 10 {
        lemma_decimal_digits(n / 10);
        let d = decimal(n);
        assert(d.drop_last() =~= decimal(n / 10));
        assert(digits_value(d) == digits_value(decimal(n / 10)) * 10 + n % 10);
        assert((n / 10) * 10 + n % 10 == n) by (nonlinear_arith);
        assert(d[0] == decimal(n / 10)[0]);
        assert forall|i: int| 0 <= i < d.len() implies is_digit(#[trigger] d[i]) by {
            if i < d.len() - 1 {
                assert(d[i] == decimal(n / 10)[i]);
            }
        }
    } else {
        lemma_digit_char(n);
        let d = decimal(n);
        assert(d == seq![digit_char(n)]);
        assert(d.drop_last() =~= Seq::<char>::empty());
        assert(digits_value(d) == digits_value(d.drop_last()) * 10 + digit_value(d.last()));
        assert(d[0] == digit_char(n));
    }
}

/// A digit's character reads back as the digit.
pub proof fn lemma_digit_char(d: nat)
    requires
        d < 10,
    ensures
        is_digit(digit_char(d)),
        digit_value(digit_char(d)) == d,
{
}

/// Splitting a text with no separator gives the text itself.
pub proof fn lemma_split_without_separator(y: Seq<char>, sep: char)
    requires
        forall|i: int| 0 <= i < y.len() ==> y[i] != sep,
    ensures
        split_on(y, sep) == seq![y],
    decreases y.len(),
{
    if y.len() > 0 {
        assert forall|i: int| 0 <= i < y.drop_last().len() implies y.drop_last()[i] != sep by {
            assert(y.drop_last()[i] == y[i]);
        }
        lemma_split_without_separator(y.drop_last(), sep);
        assert(y[y.len() - 1] != sep);
        assert(y.drop_last().push(y.last()) =~= y);
        assert(seq![y.drop_last()].update(0, y.drop_last().push(y.last())) =~= seq![y]);
    } else {
        assert(y =~= Seq::<char>::empty());
    }
}

/// A separator followed by a text without one adds that text as a piece.
pub proof fn lemma_split_append(x: Seq<char>, y: Seq<char>, sep: char)
    requires
        forall|i: int| 0 <= i < y.len() ==> y[i] != sep,
    ensures
        split_on(x + seq![sep] + y, sep) == split_on(x, sep).push(y),
    decreases y.len(),
{
    if y.len() == 0 {
        assert((x + seq![sep] + y).drop_last() =~= x);
        assert(y =~= Seq::<char>::empty());
    } else {
        assert forall|i: int| 0 <= i < y.drop_last().len() implies y.drop_last()[i] != sep by {
            assert(y.drop_last()[i] == y[i]);
        }
        lemma_split_append(x, y.drop_last(), sep);
        let t = x + seq![sep] + y;
        assert(t.drop_last() =~= x + seq![sep] + y.drop_last());
        assert(t.last() == y.last());
        assert(y[y.len() - 1] != sep);
        assert(y.drop_last().push(y.last()) =~= y);
        let p = split_on(x, sep).push(y.drop_last());
        assert(p.update(p.len() - 1, p.last().push(y.last())) =~= split_on(x, sep).push(y));
    }
}

} // verus!

verus! {

/// The hexadecimal notation of `v`, lowercase, without leading zeros.
pub open spec fn hex_min(v: nat) -> Seq<char>
    decreases v,
{
    if v < 16 {
        seq![hex_char(v)]
    } else {
        hex_min(v / 16).push(hex_char(v % 16))
    }
}

/// Appends the hexadecimal notation of `v`, without leading zeros.
pub fn push_hex_min(s: &mut String, v: u64)
    ensures
        final(s)@ == old(s)@ + hex_min(v as nat),
    decreases v,
{
    if v < 16 {
        s.append(hex_digit_str(v));
    } else {
        push_hex_min(s, v / 16);
        s.append(hex_digit_str(v % 16));
        proof {
            assert(final(s)@ =~= old(s)@ + hex_min(v as nat));
        }
    }
}

/// Appends the decimal notation of `v`.
pub fn push_decimal(s: &mut String, v: u64)
    ensures
        final(s)@ == old(s)@ + decimal(v as nat),
{
    let d = to_decimal(v);
    s.append(d.as_str());
}

} // verus!
