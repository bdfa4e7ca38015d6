//! Hex colour strings: digits, the optional `#` prefix and the six-digit form.
use vstd::prelude::*;

verus! {

/// A character in `0-9`, `a-f` or `A-F`.
pub open spec fn is_hex_digit(c: char) -> bool {
    ('0' <= c && c <= '9') || ('a' <= c && c <= 'f') || ('A' <= c && c <= 'F')
}

/// The value of a hex digit, 0 to 15.
pub open spec fn digit_value(c: char) -> int {
    if '0' <= c && c <= '9' {
        c as int - '0' as int
    } else if 'a' <= c && c <= 'f' {
        c as int - 'a' as int + 10
    } else {
        c as int - 'A' as int + 10
    }
}

/// The lower-case hex digit for a value below 16.
pub open spec fn digit_char(v: int) -> char {
    if v < 10 {
        (v + '0' as int) as char
    } else {
        (v - 10 + 'a' as int) as char
    }
}

/// Every character of `s` is a hex digit.
pub open spec fn all_hex(s: Seq<char>) -> bool {
    forall|i: int| 0 <= i < s.len() ==> is_hex_digit(#[trigger] s[i])
}

/// `s` with one leading `#` removed, if it has one.
pub open spec fn strip_prefix(s: Seq<char>) -> Seq<char> {
    if s.len() > 0 && s[0] == '#' {
        s.drop_first()
    } else {
        s
    }
}

/// At least one character, after the optional `#`, and all of them hex digits.
pub open spec fn valid_hex(s: Seq<char>) -> bool {
    strip_prefix(s).len() >= 1 && all_hex(strip_prefix(s))
}

/// The six-digit form of a three-digit string: each digit written twice.
pub open spec fn expand(t: Seq<char>) -> Seq<char> {
    seq![t[0], t[0], t[1], t[1], t[2], t[2]]
}

/// The byte written by the two hex digits `t[i]` and `t[i + 1]`.
pub open spec fn pair_value(t: Seq<char>, i: int) -> int {
    16 * digit_value(t[i]) + digit_value(t[i + 1])
}

/// Two lower-case hex digits for a byte.
pub open spec fn byte_hex(v: u8) -> Seq<char> {
    seq![digit_char(v as int / 16), digit_char(v as int % 16)]
}

/// The digit written for a value below 16 is a hex digit that reads back
/// as that value.
pub proof fn lemma_digit_round_trip(v: int)
    requires
        0 <= v < 16,
    ensures
        is_hex_digit(digit_char(v)),
        digit_value(digit_char(v)) == v,
{
}

/// Whether `c` is a hex digit.
pub fn is_hex_char(c: char) -> (r: bool)
    ensures
        r == is_hex_digit(c),
{
    ('0' <= c && c <= '9') || ('a' <= c && c <= 'f') || ('A' <= c && c <= 'F')
}

/// The value of a hex digit.
pub fn hex_digit_value(c: char) -> (r: u8)
    requires
        is_hex_digit(c),
    ensures
        r as int == digit_value(c),
        r < 16,
{
    if '0' <= c && c <= '9' {
        (c as u32 - '0' as u32) as u8
    } else if 'a' <= c && c <= 'f' {
        (c as u32 - 'a' as u32 + 10) as u8
    } else {
        (c as u32 - 'A' as u32 + 10) as u8
    }
}

/// The byte written by the hex digits `a` and `b`, or `None` when one of
/// them is not a hex digit.
pub fn hex_pair_to_int(a: char, b: char) -> (r: Option<u8>)
    ensures
        r is Some <==> is_hex_digit(a) && is_hex_digit(b),
        r is Some ==> r->Some_0 as int == 16 * digit_value(a) + digit_value(b),
{
    if is_hex_char(a) && is_hex_char(b) {
        let hi = hex_digit_value(a);
        let lo = hex_digit_value(b);
        Some(hi * 16 + lo)
    } else {
        None
    }
}

/// Whether `hex` is made of hex digits alone, after one optional leading
/// `#`, and has at least one of them. The length is not checked otherwise.
pub fn is_valid_hex(hex: &str) -> (r: bool)
    ensures
        r == valid_hex(hex@),
{
    let n = hex.unicode_len();
    let mut start: usize = 0;
    if n > 0 && hex.get_char(0) == '#' {
        start = 1;
    }
    if start >= n {
        return false;
    }
    let mut i: usize = start;
    while i < n
        invariant
            start <= i <= n,
            n == hex@.len(),
            strip_prefix(hex@) == hex@.subrange(start as int, n as int),
            forall|j: int| start <= j < i ==> is_hex_digit(#[trigger] hex@[j]),
        decreases n - i,
    {
        if !is_hex_char(hex.get_char(i)) {
            assert(!is_hex_digit(strip_prefix(hex@)[i - start]));
            return false;
        }
        i = i + 1;
    }
    assert(all_hex(strip_prefix(hex@))) by {
        assert forall|j: int| 0 <= j < strip_prefix(hex@).len() implies is_hex_digit(
            #[trigger] strip_prefix(hex@)[j],
        ) by {
            assert(strip_prefix(hex@)[j] == hex@[j + start]);
        }
    }
    true
}

} // verus!
