//! Decimal numerals of 32-bit integers.
//!
//! Numeric IDs travel as text: as keys of dictionary-shaped collections, as
//! header values and inside endpoint paths. A numeral is an optional sign
//! (`+` or `-`) followed by one or more ASCII digits; nothing else is
//! accepted, neither blanks nor an empty digit part.
use vstd::prelude::*;
use vstd::utf8::{encode_utf8, is_ascii_chars, is_ascii_chars_encode_utf8};

verus! {

/// The byte is one of the ASCII digits `0` to `9`.
pub open spec fn is_digit(b: u8) -> bool {
    0x30 <= b <= 0x39
}

/// Every byte is an ASCII digit.
pub open spec fn all_digits(digits: Seq<u8>) -> bool {
    forall|i: int| 0 <= i < digits.len() ==> is_digit(#[trigger] digits[i])
}

/// The number that a run of digits denotes, most significant digit first.
pub open spec fn digits_value(digits: Seq<u8>) -> int
    decreases digits.len(),
{
    if digits.len() == 0 {
        0
    } else {
        digits_value(digits.drop_last()) * 10 + (digits.last() - 0x30)
    }
}

/// The text starts with `+` or `-`.
pub open spec fn has_sign(text: Seq<u8>) -> bool {
    text.len() > 0 && (text[0] == 0x2b || text[0] == 0x2d)
}

/// The text without its sign, if it has one.
pub open spec fn unsigned_part(text: Seq<u8>) -> Seq<u8> {
    if has_sign(text) {
        text.subrange(1, text.len() as int)
    } else {
        text
    }
}

/// The text is a numeral: an optional sign, then at least one digit.
pub open spec fn is_numeral(text: Seq<u8>) -> bool {
    unsigned_part(text).len() > 0 && all_digits(unsigned_part(text))
}

/// The integer that a numeral denotes.
pub open spec fn numeral_value(text: Seq<u8>) -> int {
    if text.len() > 0 && text[0] == 0x2d {
        -digits_value(unsigned_part(text))
    } else {
        digits_value(unsigned_part(text))
    }
}

/// The 32-bit integer that the text denotes, if it is a numeral whose value
/// fits.
pub open spec fn parse_i32_spec(text: Seq<u8>) -> Option<i32> {
    if is_numeral(text) && i32::MIN <= numeral_value(text) <= i32::MAX {
        Some(numeral_value(text) as i32)
    } else {
        None
    }
}

/// Appending one byte to a run of digits shifts its value by one decimal place.
proof fn lemma_digits_value_step(text: Seq<u8>, start: int, i: int)
    requires
        0 <= start <= i < text.len(),
    ensures
        digits_value(text.subrange(start, i + 1)) == digits_value(text.subrange(start, i)) * 10 + (
        text[i] - 0x30),
{
    let longer = text.subrange(start, i + 1);
    assert(longer.drop_last() =~= text.subrange(start, i));
    assert(longer.last() == text[i]);
}

/// A run of digits denotes at least what any of its prefixes denotes.
proof fn lemma_digits_value_prefix(digits: Seq<u8>, k: int)
    requires
        all_digits(digits),
        0 <= k <= digits.len(),
    ensures
        0 <= digits_value(digits.subrange(0, k)) <= digits_value(digits),
    decreases digits.len(),
{
    if digits.len() == 0 {
        assert(digits.subrange(0, k) =~= digits);
    } else if k == digits.len() {
        assert(digits.subrange(0, k) =~= digits);
        lemma_digits_value_prefix(digits.drop_last(), k - 1);
        assert(digits.drop_last().subrange(0, k - 1) =~= digits.drop_last());
        assert(is_digit(digits[digits.len() - 1]));
    } else {
        let shorter = digits.drop_last();
        assert forall|i: int| 0 <= i < shorter.len() implies is_digit(#[trigger] shorter[i]) by {
            assert(shorter[i] == digits[i]);
        }
        lemma_digits_value_prefix(shorter, k);
        assert(shorter.subrange(0, k) =~= digits.subrange(0, k));
        assert(is_digit(digits[digits.len() - 1]));
    }
}

/// Reads a 32-bit integer from the bytes of a numeral.
///
/// Returns the integer exactly when the bytes are an optional sign followed
/// by one or more ASCII digits and the value fits in 32 bits.
pub fn parse_i32_bytes(text: &[u8]) -> (parsed: Option<i32>)
    ensures
        parsed == parse_i32_spec(text@),
{
    let n: usize = text.len();
    if n == 0 {
        return None;
    }
    let negative: bool = text[0] == 0x2d;
    let start: usize = if text[0] == 0x2b || text[0] == 0x2d {
        1
    } else {
        0
    };
    if start == n {
        return None;
    }
    let ghost digits = unsigned_part(text@);
    assert(digits =~= text@.subrange(start as int, n as int));
    let mut magnitude: i64 = 0;
    let mut i: usize = start;
    assert(text@.subrange(start as int, start as int) =~= Seq::<u8>::empty());
    while i < n
        invariant
            n == text.len(),
            start <= i <= n,
            start < n,
            digits == unsigned_part(text@),
            digits == text@.subrange(start as int, n as int),
            all_digits(text@.subrange(start as int, i as int)),
            magnitude == digits_value(text@.subrange(start as int, i as int)),
            0 <= magnitude <= 0x8000_0000,
        decreases n - i,
    {
        let b: u8 = text[i];
        if b < 0x30 || b > 0x39 {
            assert(!is_digit(digits[i - start]));
            return None;
        }
        proof {
            lemma_digits_value_step(text@, start as int, i as int);
            let longer = text@.subrange(start as int, i + 1);
            assert forall|j: int| 0 <= j < longer.len() implies is_digit(#[trigger] longer[j]) by {
                if j < i - start {
                    assert(longer[j] == text@.subrange(start as int, i as int)[j]);
                }
            }
        }
        magnitude = magnitude * 10 + (b - 0x30) as i64;
        if magnitude > 0x8000_0000 {
            proof {
                if all_digits(digits) {
                    lemma_digits_value_prefix(digits, i + 1 - start);
                    assert(digits.subrange(0, i + 1 - start) =~= text@.subrange(
                        start as int,
                        i + 1,
                    ));
                }
            }
            return None;
        }
        i = i + 1;
    }
    if negative {
        Some((-magnitude) as i32)
    } else if magnitude <= 0x7fff_ffff {
        Some(magnitude as i32)
    } else {
        None
    }
}

/// Reads a 32-bit integer from a string, by the bytes of its UTF-8 form.
pub fn parse_i32(text: &str) -> (parsed: Option<i32>)
    ensures
        parsed == parse_i32_spec(encode_utf8(text@)),
{
    parse_i32_bytes(text.as_bytes())
}

/// The character of a digit from 0 to 9.
pub open spec fn digit_char(d: int) -> char {
    ((0x30 + d) as u8) as char
}

/// The digits of a natural number, most significant first, without leading
/// zeros; zero is written `0`.
pub open spec fn decimal_digits(n: nat) -> Seq<char>
    decreases n,
{
    if n < 10 {
        seq![digit_char(n as int)]
    } else {
        decimal_digits(n / 10).push(digit_char((n % 10) as int))
    }
}

/// The numeral of an integer: its digits, after a `-` where it is negative.
pub open spec fn decimal_text(v: int) -> Seq<char> {
    if v < 0 {
        seq!['-'] + decimal_digits((-v) as nat)
    } else {
        decimal_digits(v as nat)
    }
}

/// The one-character text of a digit.
fn digit_str(d: u32) -> (text: &'static str)
    requires
        d < 10,
    ensures
        text@ == seq![digit_char(d as int)],
{
    proof {
        reveal_strlit("0");
        reveal_strlit("1");
        reveal_strlit("2");
        reveal_strlit("3");
        reveal_strlit("4");
        reveal_strlit("5");
        reveal_strlit("6");
        reveal_strlit("7");
        reveal_strlit("8");
        reveal_strlit("9");
    }
    let text: &'static str = match d {
        0 => "0",
        1 => "1",
        2 => "2",
        3 => "3",
        4 => "4",
        5 => "5",
        6 => "6",
        7 => "7",
        8 => "8",
        _ => "9",
    };
    assert(text@ =~= seq![digit_char(d as int)]);
    text
}

/// Appends the digits of `n` to `out`.
fn push_digits(out: &mut String, n: u32)
    ensures
        final(out)@ == old(out)@ + decimal_digits(n as nat),
    decreases n,
{
    if n >= 10 {
        push_digits(out, n / 10);
    }
    out.append(digit_str(n % 10));
}

/// Writes a 32-bit integer as a decimal numeral.
pub fn format_i32(v: i32) -> (text: String)
    ensures
        text@ == decimal_text(v as int),
{
    let mut text: String = String::new();
    if v < 0 {
        proof {
            reveal_strlit("-");
        }
        text.append("-");
        let magnitude: i64 = -(v as i64);
        push_digits(&mut text, magnitude as u32);
    } else {
        push_digits(&mut text, v as u32);
    }
    text
}

/// The bytes of a text of ASCII characters, one byte for each character.
pub open spec fn ascii_bytes(text: Seq<char>) -> Seq<u8> {
    Seq::new(text.len(), |i: int| text[i] as u8)
}

/// The digits of a number are ASCII digits, and they denote the number.
proof fn lemma_decimal_digits_value(n: nat)
    ensures
        decimal_digits(n).len() >= 1,
        is_ascii_chars(decimal_digits(n)),
        all_digits(ascii_bytes(decimal_digits(n))),
        digits_value(ascii_bytes(decimal_digits(n))) == n,
    decreases n,
{
    let digits = decimal_digits(n);
    let bytes = ascii_bytes(digits);
    if n < 10 {
        assert(digits =~= seq![digit_char(n as int)]);
        assert(bytes.drop_last() =~= Seq::<u8>::empty());
        assert(digits_value(bytes.drop_last()) == 0);
        assert(bytes.last() == 0x30 + n);
    } else {
        let front = decimal_digits(n / 10);
        lemma_decimal_digits_value(n / 10);
        assert(digits =~= front.push(digit_char((n % 10) as int)));
        assert(bytes.drop_last() =~= ascii_bytes(front));
        assert(bytes.last() == 0x30 + n % 10);
        assert forall|i: int| 0 <= i < bytes.len() implies is_digit(#[trigger] bytes[i]) by {
            if i < front.len() {
                assert(bytes[i] == ascii_bytes(front)[i]);
            }
        }
        assert forall|i: int| 0 <= i < digits.len() implies '\0' <= #[trigger] digits[i]
            <= '\u{7f}' by {
            if i < front.len() {
                assert(digits[i] == front[i]);
            }
        }
    }
}

/// A 32-bit integer that is written as a numeral and read back is the same
/// integer: `parse_i32` undoes `format_i32`.
pub proof fn lemma_parse_undoes_format(v: i32)
    ensures
        parse_i32_spec(encode_utf8(decimal_text(v as int))) == Some(v),
{
    let text = decimal_text(v as int);
    let magnitude: nat = if v < 0 {
        (-v) as nat
    } else {
        v as nat
    };
    let digits = decimal_digits(magnitude);
    lemma_decimal_digits_value(magnitude);
    assert(is_ascii_chars(text)) by {
        assert forall|i: int| 0 <= i < text.len() implies '\0' <= #[trigger] text[i]
            <= '\u{7f}' by {
            if v < 0 && i > 0 {
                assert(text[i] == digits[i - 1]);
            }
        }
    }
    is_ascii_chars_encode_utf8(text);
    let bytes = encode_utf8(text);
    assert(bytes =~= ascii_bytes(text));
    if v < 0 {
        assert(bytes[0] == 0x2d);
        assert(unsigned_part(bytes) =~= ascii_bytes(digits));
    } else {
        assert(bytes[0] == ascii_bytes(digits)[0]);
        assert(is_digit(ascii_bytes(digits)[0]));
        assert(unsigned_part(bytes) =~= ascii_bytes(digits));
    }
}

} // verus!
