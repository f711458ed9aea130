//! Whole numbers as the dump writes them: decimal digits, or hexadecimal
//! ones after `0x`, with an optional sign.

use vstd::prelude::*;

verus! {

/// The base of the digits: sixteen for hexadecimal ones, ten otherwise.
pub open spec fn radix_of(hex: bool) -> nat {
    if hex {
        16
    } else {
        10
    }
}

/// The value of `c` as a digit, if it is one in the base at hand.
pub open spec fn digit_of(c: char, hex: bool) -> Option<nat> {
    if '0' as u32 <= c as u32 <= '9' as u32 {
        Some((c as u32 - '0' as u32) as nat)
    } else if hex && 'a' as u32 <= c as u32 <= 'f' as u32 {
        Some((c as u32 - 'a' as u32 + 10) as nat)
    } else if hex && 'A' as u32 <= c as u32 <= 'F' as u32 {
        Some((c as u32 - 'A' as u32 + 10) as nat)
    } else {
        None
    }
}

/// The number that the digits `s` write, the first digit weighing most; none
/// if any character of `s` is no digit. No digits at all write zero.
pub open spec fn digits_value(s: Seq<char>, hex: bool) -> Option<nat>
    decreases s.len(),
{
    if s.len() == 0 {
        Some(0)
    } else {
        match (digits_value(s.drop_last(), hex), digit_of(s.last(), hex)) {
            (Some(v), Some(d)) => Some(v * radix_of(hex) + d),
            _ => None,
        }
    }
}

/// Whether `s` begins with a sign that may stand there: `+` always, `-` only
/// where negative numbers can be written.
pub open spec fn has_sign(s: Seq<char>, signed: bool) -> bool {
    s.len() > 0 && (s[0] == '+' || (signed && s[0] == '-'))
}

/// The number that `s` writes in one base: an optional sign, then one digit
/// or more.
pub open spec fn signed_digits(s: Seq<char>, hex: bool, signed: bool) -> Option<int> {
    let body = if has_sign(s, signed) {
        s.skip(1)
    } else {
        s
    };
    if body.len() == 0 {
        None
    } else {
        match digits_value(body, hex) {
            Some(v) => Some(
                if has_sign(s, signed) && s[0] == '-' {
                    -(v as int)
                } else {
                    v as int
                },
            ),
            None => None,
        }
    }
}

/// Whether `s` begins with `0x`.
pub open spec fn has_hex_prefix(s: Seq<char>) -> bool {
    s.len() >= 2 && s[0] == '0' && s[1] == 'x'
}

/// The number that `s` writes: hexadecimal after `0x`, decimal otherwise.
pub open spec fn whole_of(s: Seq<char>, signed: bool) -> Option<int> {
    if has_hex_prefix(s) {
        signed_digits(s.skip(2), true, signed)
    } else {
        signed_digits(s, false, signed)
    }
}

/// The `u64` that `s` writes, if it writes a number and the number fits.
pub open spec fn u64_of_text(s: Seq<char>) -> Option<u64> {
    match whole_of(s, false) {
        Some(v) => if 0 <= v <= u64::MAX {
            Some(v as u64)
        } else {
            None
        },
        None => None,
    }
}

/// The `i32` that `s` writes, if it writes a number and the number fits.
pub open spec fn i32_of_text(s: Seq<char>) -> Option<i32> {
    match whole_of(s, true) {
        Some(v) => if i32::MIN <= v <= i32::MAX {
            Some(v as i32)
        } else {
            None
        },
        None => None,
    }
}

/// Digits that write a number also write one up to any point, and a smaller
/// one or the same.
pub proof fn lemma_digits_prefix(s: Seq<char>, k: int, hex: bool)
    requires
        0 <= k <= s.len(),
    ensures
        digits_value(s, hex) matches Some(v) ==> (digits_value(s.take(k), hex) matches Some(p)
            && p <= v),
    decreases s.len() - k,
{
    if k == s.len() {
        assert(s.take(k) =~= s);
    } else {
        if digits_value(s, hex) is Some {
            let init = s.drop_last();
            assert(init.take(k) =~= s.take(k));
            lemma_digits_prefix(init, k, hex);
            let v = digits_value(init, hex).unwrap();
            assert(v * radix_of(hex) >= v) by (nonlinear_arith)
                requires
                    radix_of(hex) >= 1,
            ;
        }
    }
}

/// The characters of `text`, one by one.
pub fn chars_of(text: &str) -> (chars: Vec<char>)
    ensures
        chars@ == text@,
{
    let mut chars: Vec<char> = Vec::new();
    for c in it: text.chars()
        invariant
            it.seq() == text@,
            chars@ == text@.take(it.index() as int),
    {
        chars.push(c);
    }
    chars
}

/// The value of `c` as a digit, if it is one in the base at hand.
fn digit(c: char, hex: bool) -> (r: Option<u64>)
    ensures
        r is Some <==> digit_of(c, hex) is Some,
        r matches Some(d) ==> digit_of(c, hex) == Some(d as nat) && d < radix_of(hex),
{
    let code: u32 = c as u32;
    if '0' as u32 <= code && code <= '9' as u32 {
        Some((code - '0' as u32) as u64)
    } else if hex && 'a' as u32 <= code && code <= 'f' as u32 {
        Some((code - 'a' as u32 + 10) as u64)
    } else if hex && 'A' as u32 <= code && code <= 'F' as u32 {
        Some((code - 'A' as u32 + 10) as u64)
    } else {
        None
    }
}

/// Reads the digits of `chars` from `start` on. `None` where a character is
/// no digit, and also where the number does not fit a `u64`.
fn read_digits(chars: &Vec<char>, start: usize, hex: bool) -> (r: Option<u64>)
    requires
        start <= chars.len(),
    ensures
        r matches Some(v) ==> digits_value(chars@.skip(start as int), hex) == Some(v as nat),
        r is None ==> (digits_value(chars@.skip(start as int), hex) matches Some(v) ==> v
            > u64::MAX),
{
    let radix: u64 = if hex { 16 } else { 10 };
    let ghost body = chars@.skip(start as int);
    let mut value: u64 = 0;
    let mut i: usize = start;
    while i < chars.len()
        invariant
            start <= i <= chars.len(),
            body == chars@.skip(start as int),
            radix == radix_of(hex),
            digits_value(body.take(i - start), hex) == Some(value as nat),
        decreases chars.len() - i,
    {
        let ghost upto = body.take(i - start + 1);
        proof {
            assert(upto.drop_last() =~= body.take(i - start));
            lemma_digits_prefix(body, i - start + 1, hex);
        }
        let d: u64 = match digit(chars[i], hex) {
            Some(d) => d,
            None => {
                return None;
            },
        };
        let shifted: u64 = match value.checked_mul(radix) {
            Some(v) => v,
            None => {
                return None;
            },
        };
        value = match shifted.checked_add(d) {
            Some(v) => v,
            None => {
                return None;
            },
        };
        i += 1;
    }
    assert(body.take(body.len() as int) =~= body);
    Some(value)
}

/// Reads the number that `text` writes, as its sign and its magnitude.
/// `None` where `text` writes no number, and also where the magnitude does
/// not fit a `u64`.
fn read_whole(text: &str, signed: bool) -> (r: Option<(bool, u64)>)
    ensures
        r matches Some((negative, magnitude)) ==> whole_of(text@, signed) == Some(
            if negative {
                -(magnitude as int)
            } else {
                magnitude as int
            },
        ),
        r is None ==> (whole_of(text@, signed) matches Some(v) ==> (v > u64::MAX || v
            < -(u64::MAX as int))),
{
    let chars = chars_of(text);
    let hex = chars.len() >= 2 && chars[0] == '0' && chars[1] == 'x';
    let mut start: usize = if hex { 2 } else { 0 };
    let ghost rest = chars@.skip(start as int);
    let mut negative = false;
    assert(chars@.skip(0) =~= chars@);
    if start < chars.len() && (chars[start] == '+' || (signed && chars[start] == '-')) {
        negative = chars[start] == '-';
        start += 1;
        assert(rest.skip(1) =~= chars@.skip(start as int));
    }
    if start == chars.len() {
        return None;
    }
    match read_digits(&chars, start, hex) {
        Some(magnitude) => Some((negative, magnitude)),
        None => None,
    }
}

/// Reads a `u64`: an optional `+`, then decimal digits, or `0x`, an optional
/// `+` and hexadecimal digits. Anything else, and a number too large, is
/// rejected.
pub fn parse_u64(text: &str) -> (r: Option<u64>)
    ensures
        r == u64_of_text(text@),
{
    match read_whole(text, false) {
        Some((_, magnitude)) => Some(magnitude),
        None => None,
    }
}

/// Reads an `i32`: an optional sign, then decimal digits, or `0x`, an
/// optional sign and hexadecimal digits. Anything else, and a number out of
/// range, is rejected.
pub fn parse_i32(text: &str) -> (r: Option<i32>)
    ensures
        r == i32_of_text(text@),
{
    match read_whole(text, true) {
        Some((negative, magnitude)) => {
            if negative {
                if magnitude <= 2147483648 {
                    Some((0 - magnitude as i64) as i32)
                } else {
                    None
                }
            } else if magnitude <= 2147483647 {
                Some(magnitude as i32)
            } else {
                None
            }
        },
        None => None,
    }
}

} // verus!
