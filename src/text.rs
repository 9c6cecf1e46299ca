use vstd::prelude::*;
use vstd::utf8::is_ascii_chars;

verus! {

/// The character of a decimal digit.
pub open spec fn digit_char(d: nat) -> char {
    if d == 0 {
        '0'
    } else if d == 1 {
        '1'
    } else if d == 2 {
        '2'
    } else if d == 3 {
        '3'
    } else if d == 4 {
        '4'
    } else if d == 5 {
        '5'
    } else if d == 6 {
        '6'
    } else if d == 7 {
        '7'
    } else if d == 8 {
        '8'
    } else {
        '9'
    }
}

/// The decimal notation of `n`: no sign, no leading zeros, "0" for zero.
pub open spec fn decimal_digits(n: nat) -> Seq<char>
    decreases n,
{
    if n < 10 {
        seq![digit_char(n)]
    } else {
        decimal_digits(n / 10).push(digit_char(n % 10))
    }
}

/// Relies on the standard `Display` of `u64` (through `to_string`): it writes
/// the decimal notation of the number, without sign or leading zeros.
#[verifier::external_body]
pub(crate) fn decimal_string(n: u64) -> (r: String)
    ensures
        r@ == decimal_digits(n as nat),
{
    n.to_string()
}

/// `prefix` followed by the decimal notation of `n`.
pub fn prefixed_decimal(prefix: &str, n: u64) -> (r: String)
    ensures
        r@ == prefix@ + decimal_digits(n as nat),
{
    let mut s = prefix.to_owned();
    let digits = decimal_string(n);
    s.append(digits.as_str());
    s
}

/// `needle` occurs in `haystack` starting at position `i`.
pub open spec fn occurs_at(haystack: Seq<char>, needle: Seq<char>, i: int) -> bool {
    0 <= i && i + needle.len() <= haystack.len() && haystack.subrange(i, i + needle.len())
        == needle
}

/// `needle` occurs in `haystack` as a contiguous run of characters.
pub open spec fn contains_chars(haystack: Seq<char>, needle: Seq<char>) -> bool {
    exists|i: int| #[trigger] occurs_at(haystack, needle, i)
}

/// Relies on `str::contains` with a `&str` pattern: true exactly when
/// `needle` is a contiguous substring of `haystack`.
#[verifier::external_body]
pub(crate) fn text_contains(haystack: &str, needle: &str) -> (r: bool)
    ensures
        r == contains_chars(haystack@, needle@),
{
    haystack.contains(needle)
}

/// ASCII code of '0'.
pub const ZERO_BYTE: u8 = 48;

/// ASCII code of '9'.
pub const NINE_BYTE: u8 = 57;

pub open spec fn is_digit_byte(b: u8) -> bool {
    ZERO_BYTE <= b <= NINE_BYTE
}

pub open spec fn all_digit_bytes(b: Seq<u8>) -> bool {
    forall|i: int| 0 <= i < b.len() ==> is_digit_byte(#[trigger] b[i])
}

/// The number that a sequence of decimal digit bytes denotes.
pub open spec fn digits_value(b: Seq<u8>) -> nat
    decreases b.len(),
{
    if b.len() == 0 {
        0
    } else {
        digits_value(b.drop_last()) * 10 + (b.last() - ZERO_BYTE) as nat
    }
}

/// A decimal `u32` written with at least one digit and nothing else.
pub open spec fn parse_u32_spec(b: Seq<u8>) -> Option<u32> {
    if b.len() > 0 && all_digit_bytes(b) && digits_value(b) <= u32::MAX {
        Some(digits_value(b) as u32)
    } else {
        None
    }
}

proof fn lemma_digits_value_monotone(b: Seq<u8>, i: int)
    requires
        0 <= i <= b.len(),
        all_digit_bytes(b),
    ensures
        digits_value(b.subrange(0, i)) <= digits_value(b),
    decreases b.len() - i,
{
    if i < b.len() {
        lemma_digits_value_monotone(b, i + 1);
        let s = b.subrange(0, i + 1);
        assert(s.drop_last() =~= b.subrange(0, i));
        assert(is_digit_byte(b[i]));
    } else {
        assert(b.subrange(0, i) =~= b);
    }
}

/// Reads `b[start..]` as a decimal `u32`.
pub fn parse_u32_from(b: &[u8], start: usize) -> (r: Option<u32>)
    requires
        start <= b@.len(),
    ensures
        r == parse_u32_spec(b@.subrange(start as int, b@.len() as int)),
{
    let ghost t = b@.subrange(start as int, b@.len() as int);
    if start == b.len() {
        return None;
    }
    let mut acc: u64 = 0;
    let mut i: usize = start;
    while i < b.len()
        invariant
            start <= i <= b@.len(),
            t == b@.subrange(start as int, b@.len() as int),
            all_digit_bytes(b@.subrange(start as int, i as int)),
            acc as nat == digits_value(b@.subrange(start as int, i as int)),
            acc <= u32::MAX,
        decreases b@.len() - i,
    {
        let c = b[i];
        let ghost pre = b@.subrange(start as int, i as int);
        let ghost cur = b@.subrange(start as int, i as int + 1);
        assert(cur.drop_last() =~= pre);
        assert(cur.last() == c);
        if c < ZERO_BYTE || c > NINE_BYTE {
            proof {
                assert(t[i - start] == c);
                assert(!all_digit_bytes(t));
            }
            return None;
        }
        let next: u64 = acc * 10 + (c - ZERO_BYTE) as u64;
        assert(all_digit_bytes(cur));
        if next > u32::MAX as u64 {
            proof {
                assert(t.subrange(0, (i - start) + 1) =~= cur);
                if all_digit_bytes(t) {
                    lemma_digits_value_monotone(t, (i - start) + 1);
                }
            }
            return None;
        }
        acc = next;
        i += 1;
    }
    assert(b@.subrange(start as int, i as int) =~= t);
    Some(acc as u32)
}

/// The bytes of characters below 128, one byte each.
pub open spec fn ascii_bytes(c: Seq<char>) -> Seq<u8> {
    Seq::new(c.len(), |i: int| c[i] as u8)
}

/// The decimal notation of `n` is ASCII, and its bytes read back as `n`.
pub proof fn lemma_decimal_digits_read_back(n: nat)
    ensures
        decimal_digits(n).len() > 0,
        is_ascii_chars(decimal_digits(n)),
        all_digit_bytes(ascii_bytes(decimal_digits(n))),
        digits_value(ascii_bytes(decimal_digits(n))) == n,
    decreases n,
{
    let d = n % 10;
    assert(digit_char(d) as u8 == ZERO_BYTE + d && '\0' <= digit_char(d) <= '\u{7f}');
    if n < 10 {
        let b = ascii_bytes(decimal_digits(n));
        assert(b.drop_last() =~= Seq::<u8>::empty());
        assert(b.last() == digit_char(d) as u8);
        assert(digits_value(b) == digits_value(b.drop_last()) * 10 + (b.last() - ZERO_BYTE) as nat);
    } else {
        lemma_decimal_digits_read_back(n / 10);
        let prev = decimal_digits(n / 10);
        let cur = decimal_digits(n);
        assert(cur == prev.push(digit_char(d)));
        assert(ascii_bytes(cur).drop_last() =~= ascii_bytes(prev));
        assert(ascii_bytes(cur).last() == digit_char(d) as u8);
        assert((n / 10) * 10 + d == n) by (nonlinear_arith)
            requires
                d == n % 10,
        ;
        assert forall|i: int| 0 <= i < cur.len() implies '\0' <= #[trigger] cur[i] <= '\u{7f}' by {
            if i < prev.len() {
                assert(cur[i] == prev[i]);
            }
        }
        assert forall|i: int| 0 <= i < cur.len() implies is_digit_byte(
            #[trigger] ascii_bytes(cur)[i],
        ) by {
            if i < prev.len() {
                assert(ascii_bytes(cur)[i] == ascii_bytes(prev)[i]);
            }
        }
    }
}

} // verus!
