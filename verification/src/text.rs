//! ASCII text building blocks: case mapping, decimal and hex rendering.
//!
//! All construction happens on byte vectors; the single trusted item
//! `ascii_string_from_bytes` turns fully ASCII bytes back into a `String`.

use vstd::prelude::*;

verus! {

/// Lower-case image of one ASCII byte.
pub open spec fn lower_byte(b: u8) -> u8 {
    if 65 <= b && b <= 90 {
        (b + 32) as u8
    } else {
        b
    }
}

/// Upper-case image of one ASCII byte.
pub open spec fn upper_byte(b: u8) -> u8 {
    if 97 <= b && b <= 122 {
        (b - 32) as u8
    } else {
        b
    }
}

/// Lower-case image of one character; meaningful on ASCII characters.
pub open spec fn lower_char(c: char) -> char {
    if 'A' <= c && c <= 'Z' {
        ((c as u8 + 32) as u8) as char
    } else {
        c
    }
}

/// Upper-case image of one character; meaningful on ASCII characters.
pub open spec fn upper_char(c: char) -> char {
    if 'a' <= c && c <= 'z' {
        ((c as u8 - 32) as u8) as char
    } else {
        c
    }
}

pub open spec fn lower_chars(s: Seq<char>) -> Seq<char> {
    s.map_values(|c: char| lower_char(c))
}

pub open spec fn upper_chars(s: Seq<char>) -> Seq<char> {
    s.map_values(|c: char| upper_char(c))
}

/// Relies on `String::from_utf8`: ASCII bytes decode to exactly the same
/// characters, one character per byte.
#[verifier::external_body]
pub fn ascii_string_from_bytes(bytes: Vec<u8>) -> (r: String)
    requires
        forall|i: int| 0 <= i < bytes@.len() ==> bytes@[i] < 128,
    ensures
        r@ == bytes@.map_values(|b: u8| b as char),
{
    String::from_utf8(bytes).unwrap_or_default()
}

/// Lower-case an ASCII string; a string that is not ASCII is returned
/// unchanged.
pub fn to_ascii_lowercase(s: &str) -> (r: String)
    ensures
        r@ == if s.is_ascii() {
            lower_chars(s@)
        } else {
            s@
        },
{
    broadcast use vstd::string::is_ascii_spec_bytes;

    if !s.is_ascii() {
        return String::from_str(s);
    }
    let bytes = s.as_bytes_vec();
    let n = bytes.len();
    let mut out: Vec<u8> = Vec::new();
    let mut i: usize = 0;
    while i < n
        invariant
            n == bytes@.len(),
            i <= n,
            bytes@ == Seq::new(s@.len(), |k: int| s@[k] as u8),
            vstd::string::is_ascii(s),
            out@.len() == i,
            forall|k: int| 0 <= k < i ==> out@[k] == lower_byte(bytes@[k]),
        decreases n - i,
    {
        let b = bytes[i];
        if 65 <= b && b <= 90 {
            out.push(b + 32);
        } else {
            out.push(b);
        }
        i += 1;
    }
    assert forall|k: int| 0 <= k < out@.len() implies out@[k] < 128 by {
        assert((s@[k] as u8) < 128);
    }
    let r = ascii_string_from_bytes(out);
    assert(r@ =~= lower_chars(s@)) by {
        assert(forall|k: int|
            0 <= k < s@.len() ==> #[trigger] r@[k] == lower_char(s@[k]));
    }
    r
}

/// Upper-case an ASCII string; a string that is not ASCII is returned
/// unchanged.
pub fn to_ascii_uppercase(s: &str) -> (r: String)
    ensures
        r@ == if s.is_ascii() {
            upper_chars(s@)
        } else {
            s@
        },
{
    broadcast use vstd::string::is_ascii_spec_bytes;

    if !s.is_ascii() {
        return String::from_str(s);
    }
    let bytes = s.as_bytes_vec();
    let n = bytes.len();
    let mut out: Vec<u8> = Vec::new();
    let mut i: usize = 0;
    while i < n
        invariant
            n == bytes@.len(),
            i <= n,
            bytes@ == Seq::new(s@.len(), |k: int| s@[k] as u8),
            vstd::string::is_ascii(s),
            out@.len() == i,
            forall|k: int| 0 <= k < i ==> out@[k] == upper_byte(bytes@[k]),
        decreases n - i,
    {
        let b = bytes[i];
        if 97 <= b && b <= 122 {
            out.push(b - 32);
        } else {
            out.push(b);
        }
        i += 1;
    }
    assert forall|k: int| 0 <= k < out@.len() implies out@[k] < 128 by {
        assert((s@[k] as u8) < 128);
    }
    let r = ascii_string_from_bytes(out);
    assert(r@ =~= upper_chars(s@)) by {
        assert(forall|k: int|
            0 <= k < s@.len() ==> #[trigger] r@[k] == upper_char(s@[k]));
    }
    r
}

/// The bytes of an ASCII character sequence, one byte per character.
pub open spec fn chars_to_bytes(s: Seq<char>) -> Seq<u8> {
    s.map_values(|c: char| c as u8)
}

/// The characters of an ASCII byte sequence, one character per byte.
pub open spec fn bytes_to_chars(s: Seq<u8>) -> Seq<char> {
    s.map_values(|b: u8| b as char)
}

/// Decimal digits of `n`, most significant first, as ASCII bytes.
pub open spec fn spec_digits(n: nat) -> Seq<u8>
    decreases n,
{
    if n < 10 {
        seq![(48 + n) as u8]
    } else {
        spec_digits((n / 10) as nat).push((48 + n % 10) as u8)
    }
}

/// Decimal digits of `n`, as characters.
pub open spec fn spec_decimal_chars(n: nat) -> Seq<char> {
    bytes_to_chars(spec_digits(n))
}

pub proof fn lemma_digits_ascii(n: nat)
    ensures
        spec_digits(n).len() >= 1,
        forall|i: int|
            0 <= i < spec_digits(n).len() ==> 48 <= #[trigger] spec_digits(n)[i] <= 57,
    decreases n,
{
    if n >= 10 {
        lemma_digits_ascii((n / 10) as nat);
    }
}

fn push_digits(n: u64, out: &mut Vec<u8>)
    ensures
        final(out)@ == old(out)@ + spec_digits(n as nat),
    decreases n,
{
    if n < 10 {
        out.push(48 + (n as u8));
    } else {
        assert(n / 10 < n);
        push_digits(n / 10, out);
        out.push(48 + ((n % 10) as u8));
        assert(out@ =~= old(out)@ + spec_digits(n as nat));
    }
}

/// The decimal digits of `n` as ASCII bytes, most significant first.
pub fn u64_digits(n: u64) -> (r: Vec<u8>)
    ensures
        r@ == spec_digits(n as nat),
{
    let mut out: Vec<u8> = Vec::new();
    push_digits(n, &mut out);
    assert(out@ =~= spec_digits(n as nat));
    out
}

fn push_digits_u128(n: u128, out: &mut Vec<u8>)
    ensures
        final(out)@ == old(out)@ + spec_digits(n as nat),
    decreases n,
{
    if n < 10 {
        out.push(48 + (n as u8));
    } else {
        assert(n / 10 < n);
        push_digits_u128(n / 10, out);
        out.push(48 + ((n % 10) as u8));
        assert(out@ =~= old(out)@ + spec_digits(n as nat));
    }
}

/// Render a 128-bit value in decimal.
pub fn u128_string(n: u128) -> (r: String)
    ensures
        r@ == spec_decimal_chars(n as nat),
{
    let mut out: Vec<u8> = Vec::new();
    push_digits_u128(n, &mut out);
    proof {
        assert(out@ =~= spec_digits(n as nat));
        lemma_digits_ascii(n as nat);
    }
    ascii_string_from_bytes(out)
}

/// Render `n` in decimal.
pub fn u64_string(n: u64) -> (r: String)
    ensures
        r@ == spec_decimal_chars(n as nat),
{
    let digits = u64_digits(n);
    proof {
        lemma_digits_ascii(n as nat);
    }
    ascii_string_from_bytes(digits)
}

/// A value advanced by `k`, saturating at the maximum.
pub open spec fn sat_add64(c: u64, k: int) -> u64 {
    if c + k <= u64::MAX {
        (c + k) as u64
    } else {
        u64::MAX
    }
}

/// Ten to the power `k`.
pub open spec fn pow10(k: nat) -> nat
    decreases k,
{
    if k == 0 {
        1
    } else {
        10 * pow10((k - 1) as nat)
    }
}

/// Ten to the power `k`, for exponents that fit in a `u64`.
pub fn pow10_u64(k: u32) -> (r: u64)
    requires
        pow10(k as nat) <= u64::MAX,
    ensures
        r == pow10(k as nat),
{
    let mut r: u64 = 1;
    let mut i: u32 = 0;
    while i < k
        invariant
            i <= k,
            r == pow10(i as nat),
            pow10(k as nat) <= u64::MAX,
        decreases k - i,
    {
        proof {
            lemma_pow10_increases(i as nat + 1, k as nat);
        }
        r = r * 10;
        i += 1;
    }
    r
}

pub proof fn lemma_pow10_increases(a: nat, b: nat)
    requires
        a <= b,
    ensures
        pow10(a) <= pow10(b),
    decreases b,
{
    if a < b {
        lemma_pow10_increases(a, (b - 1) as nat);
    }
}

/// Exactly `d` decimal digits of `n`, most significant first, left-padded
/// with zeros; the digits of `n % pow10(d)`.
pub open spec fn spec_padded_digits(n: nat, d: nat) -> Seq<u8>
    decreases d,
{
    if d == 0 {
        seq![]
    } else {
        spec_padded_digits((n / 10) as nat, (d - 1) as nat).push((48 + n % 10) as u8)
    }
}

pub proof fn lemma_padded_digits_ascii(n: nat, d: nat)
    ensures
        spec_padded_digits(n, d).len() == d,
        forall|i: int|
            0 <= i < d ==> 48 <= #[trigger] spec_padded_digits(n, d)[i] <= 57,
    decreases d,
{
    if d > 0 {
        lemma_padded_digits_ascii((n / 10) as nat, (d - 1) as nat);
    }
}

/// A positive value below `pow10(d)` has at least one nonzero digit.
pub proof fn lemma_padded_digits_nonzero(n: nat, d: nat)
    requires
        0 < n < pow10(d),
    ensures
        exists|i: int| 0 <= i < d && #[trigger] spec_padded_digits(n, d)[i] != 48,
    decreases d,
{
    lemma_padded_digits_ascii(n, d);
    if n % 10 != 0 {
        assert(spec_padded_digits(n, d)[d - 1] == (48 + n % 10) as u8);
    } else {
        assert(n / 10 > 0) by {
            assert(n == 10 * (n / 10) + n % 10);
        }
        assert(n / 10 < pow10((d - 1) as nat)) by {
            assert(pow10(d) == 10 * pow10((d - 1) as nat));
            assert(n == 10 * (n / 10) + n % 10);
        }
        lemma_padded_digits_nonzero((n / 10) as nat, (d - 1) as nat);
        let i = choose|i: int|
            0 <= i < d - 1 && #[trigger] spec_padded_digits((n / 10) as nat, (d - 1) as nat)[i]
                != 48;
        assert(spec_padded_digits(n, d)[i] != 48);
    }
}

/// Append exactly `d` zero-padded decimal digits of `n`.
pub fn push_padded_digits(n: u64, d: u32, out: &mut Vec<u8>)
    ensures
        final(out)@ == old(out)@ + spec_padded_digits(n as nat, d as nat),
    decreases d,
{
    if d > 0 {
        push_padded_digits(n / 10, d - 1, out);
        out.push(48 + ((n % 10) as u8));
        assert(out@ =~= old(out)@ + spec_padded_digits(n as nat, d as nat));
    } else {
        assert(out@ =~= old(out)@ + spec_padded_digits(n as nat, 0));
    }
}

/// A digit sequence with its trailing zero digits removed.
pub open spec fn trim_zeros(s: Seq<u8>) -> Seq<u8>
    decreases s.len(),
{
    if s.len() == 0 || s.last() != 48 {
        s
    } else {
        trim_zeros(s.drop_last())
    }
}

/// Decimal rendering of a fixed-point value: `units` scaled by
/// `pow10(decimals)`; the fractional part is printed without trailing
/// zeros and omitted when it is zero.
pub open spec fn spec_fixed_chars(units: nat, decimals: nat) -> Seq<char> {
    let whole = units / pow10(decimals);
    let frac = units % pow10(decimals);
    if frac == 0 {
        spec_decimal_chars(whole)
    } else {
        bytes_to_chars(
            spec_digits(whole) + seq![46u8] + trim_zeros(spec_padded_digits(frac, decimals)),
        )
    }
}

/// Render a fixed-point value, e.g. 100000 units at 8 decimals as "0.001".
pub fn format_fixed(units: u64, decimals: u32) -> (r: String)
    requires
        pow10(decimals as nat) <= u64::MAX,
    ensures
        r@ == spec_fixed_chars(units as nat, decimals as nat),
{
    let scale = pow10_u64(decimals);
    assert(scale > 0) by {
        lemma_pow10_increases(0, decimals as nat);
    }
    let whole = units / scale;
    let frac = units % scale;
    if frac == 0 {
        u64_string(whole)
    } else {
        let mut out = u64_digits(whole);
        out.push(46);
        let mark = out.len();
        push_padded_digits(frac, decimals, &mut out);
        proof {
            lemma_padded_digits_ascii(frac as nat, decimals as nat);
        }
        let ghost padded = spec_padded_digits(frac as nat, decimals as nat);
        proof {
            assert(out@.subrange(0, mark as int) =~= spec_digits(units as nat / pow10(
                decimals as nat,
            )) + seq![46u8]);
            assert(out@.subrange(mark as int, out@.len() as int) =~= padded);
        }
        while out.len() > mark && out[out.len() - 1] == 48
            invariant
                mark <= out@.len(),
                out@.subrange(0, mark as int) == spec_digits(units as nat / pow10(
                    decimals as nat,
                )) + seq![46u8],
                trim_zeros(out@.subrange(mark as int, out@.len() as int)) == trim_zeros(padded),
            decreases out@.len(),
        {
            let ghost before = out@;
            out.pop();
            proof {
                assert(before.subrange(mark as int, before.len() as int).last() == 48);
                assert(before.subrange(mark as int, before.len() as int).drop_last()
                    =~= out@.subrange(mark as int, out@.len() as int));
            }
        }
        proof {
            let tail = out@.subrange(mark as int, out@.len() as int);
            assert(trim_zeros(tail) == trim_zeros(padded));
            if out@.len() > mark {
                assert(tail.last() != 48);
                assert(trim_zeros(tail) == tail);
            } else {
                assert(tail =~= Seq::<u8>::empty());
                assert(trim_zeros(tail) == tail);
            }
            assert(trim_zeros(padded).len() > 0) by {
                lemma_padded_digits_nonzero(units as nat % pow10(decimals as nat), decimals as nat);
                lemma_trim_zeros_keeps_nonzero(padded);
            }
            assert(out@ =~= spec_digits(units as nat / pow10(decimals as nat)) + seq![46u8]
                + trim_zeros(padded));
            lemma_digits_ascii(units as nat / pow10(decimals as nat));
            lemma_trim_zeros_prefix(padded);
            lemma_padded_digits_ascii(units as nat % pow10(decimals as nat), decimals as nat);
        }
        ascii_string_from_bytes(out)
    }
}

/// Trimming keeps some nonzero digit when one exists.
pub proof fn lemma_trim_zeros_keeps_nonzero(s: Seq<u8>)
    requires
        exists|i: int| 0 <= i < s.len() && #[trigger] s[i] != 48,
    ensures
        trim_zeros(s).len() > 0,
    decreases s.len(),
{
    if s.len() > 0 && s.last() == 48 {
        let i = choose|i: int| 0 <= i < s.len() && #[trigger] s[i] != 48;
        assert(s.drop_last()[i] != 48);
        lemma_trim_zeros_keeps_nonzero(s.drop_last());
    }
}

/// The trimmed sequence is a prefix of the original.
pub proof fn lemma_trim_zeros_prefix(s: Seq<u8>)
    ensures
        trim_zeros(s).len() <= s.len(),
        forall|i: int| 0 <= i < trim_zeros(s).len() ==> #[trigger] trim_zeros(s)[i] == s[i],
    decreases s.len(),
{
    if s.len() > 0 && s.last() == 48 {
        lemma_trim_zeros_prefix(s.drop_last());
    }
}

/// Lower-case hex digit for a value below sixteen.
pub open spec fn hex_digit(n: u8) -> u8 {
    if n < 10 {
        (48 + n) as u8
    } else {
        (87 + n) as u8
    }
}

/// Lower-case hex encoding, two digits per byte.
pub open spec fn spec_hex_bytes(s: Seq<u8>) -> Seq<u8>
    decreases s.len(),
{
    if s.len() == 0 {
        seq![]
    } else {
        seq![hex_digit(s.first() / 16), hex_digit((s.first() % 16) as u8)] + spec_hex_bytes(
            s.drop_first(),
        )
    }
}

/// Lower-case hex encoding as characters.
pub open spec fn spec_hex_chars(s: Seq<u8>) -> Seq<char> {
    bytes_to_chars(spec_hex_bytes(s))
}

pub proof fn lemma_hex_bytes_ascii(s: Seq<u8>)
    ensures
        spec_hex_bytes(s).len() == 2 * s.len(),
        forall|i: int|
            0 <= i < spec_hex_bytes(s).len() ==> #[trigger] spec_hex_bytes(s)[i] < 128,
    decreases s.len(),
{
    if s.len() > 0 {
        lemma_hex_bytes_ascii(s.drop_first());
    }
}

/// Hex-encode bytes, lower case.
pub fn hex_string(data: &[u8]) -> (r: String)
    ensures
        r@ == spec_hex_chars(data@),
{
    let n = data.len();
    let mut out: Vec<u8> = Vec::new();
    let mut i: usize = 0;
    assert(data@.skip(0) == data@);
    while i < n
        invariant
            n == data@.len(),
            i <= n,
            spec_hex_bytes(data@) =~= out@ + spec_hex_bytes(data@.skip(i as int)),
        decreases n - i,
    {
        let b = data[i];
        out.push(hex_digit_exec(b / 16));
        out.push(hex_digit_exec(b % 16));
        proof {
            assert(data@.skip(i as int).first() == data@[i as int]);
            assert(data@.skip(i as int).drop_first() =~= data@.skip(i + 1));
        }
        i += 1;
    }
    proof {
        assert(data@.skip(n as int) =~= Seq::<u8>::empty());
        assert(out@ =~= spec_hex_bytes(data@));
        lemma_hex_bytes_ascii(data@);
    }
    ascii_string_from_bytes(out)
}

fn hex_digit_exec(n: u8) -> (r: u8)
    requires
        n < 16,
    ensures
        r == hex_digit(n),
{
    if n < 10 {
        48 + n
    } else {
        87 + n
    }
}

/// `p` occurs in `s` starting at index `i`.
pub open spec fn contains_at(s: Seq<char>, p: Seq<char>, i: int) -> bool {
    0 <= i && i + p.len() <= s.len() && s.subrange(i, i + p.len() as int) == p
}

/// `p` occurs somewhere in `s`.
pub open spec fn spec_contains(s: Seq<char>, p: Seq<char>) -> bool {
    exists|i: int| contains_at(s, p, i)
}

/// Substring search.
pub fn str_contains(s: &str, p: &str) -> (r: bool)
    ensures
        r == spec_contains(s@, p@),
{
    let n = s.unicode_len();
    let m = p.unicode_len();
    if m > n {
        assert(!spec_contains(s@, p@));
        return false;
    }
    if m == 0 {
        assert(s@.subrange(0, 0) =~= p@);
        assert(contains_at(s@, p@, 0));
        return true;
    }
    let mut i: usize = 0;
    while i <= n - m
        invariant
            n == s@.len(),
            m == p@.len(),
            0 < m <= n,
            i <= n - m + 1,
            forall|k: int| 0 <= k < i ==> !contains_at(s@, p@, k),
        decreases n - m + 1 - i,
    {
        let mut j: usize = 0;
        let mut matched = true;
        while j < m
            invariant
                n == s@.len(),
                m == p@.len(),
                m <= n,
                i <= n - m,
                j <= m,
                matched ==> forall|k: int| 0 <= k < j ==> s@[i + k] == p@[k],
                !matched ==> !contains_at(s@, p@, i as int),
            decreases m - j,
        {
            if matched {
                let sc = s.get_char(i + j);
                let pc = p.get_char(j);
                if sc != pc {
                    proof {
                        if contains_at(s@, p@, i as int) {
                            assert(s@.subrange(i as int, i + m as int)[j as int] == p@[j as int]);
                        }
                    }
                    matched = false;
                }
            }
            j += 1;
        }
        if matched {
            assert(s@.subrange(i as int, i + m as int) =~= p@);
            assert(contains_at(s@, p@, i as int));
            return true;
        }
        i += 1;
    }
    proof {
        assert forall|k: int| contains_at(s@, p@, k) implies false by {
            assert(k + m <= n);
            assert(k <= n - m);
            assert(k < i);
        }
    }
    false
}

} // verus!
