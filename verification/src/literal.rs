//! Member value literals: signed decimal text, its 32-bit pattern, and the
//! decimal text of a pattern.

use vstd::prelude::*;

verus! {

/// The ten ASCII decimal digits.
pub open spec fn is_decimal_digit(c: char) -> bool {
    '0' <= c && c <= '9'
}

/// The number that an ASCII decimal digit stands for.
pub open spec fn digit_value(c: char) -> int {
    c as int - '0' as int
}

/// The number written by a run of decimal digits, most significant first.
pub open spec fn digits_value(digits: Seq<char>) -> int
    decreases digits.len(),
{
    if digits.len() == 0 {
        0
    } else {
        digits_value(digits.drop_last()) * 10 + digit_value(digits.last())
    }
}

/// A non-empty run of decimal digits.
pub open spec fn is_digit_run(digits: Seq<char>) -> bool {
    &&& digits.len() > 0
    &&& forall|i: int| 0 <= i < digits.len() ==> is_decimal_digit(#[trigger] digits[i])
}

/// The integer that a literal denotes: an optional `+` or `-` sign followed by
/// a non-empty run of decimal digits and nothing else. Any other text denotes
/// nothing.
pub open spec fn literal_value(text: Seq<char>) -> Option<int> {
    if text.len() > 0 && text[0] == '-' {
        if is_digit_run(text.skip(1)) {
            Some(-digits_value(text.skip(1)))
        } else {
            None
        }
    } else if text.len() > 0 && text[0] == '+' {
        if is_digit_run(text.skip(1)) {
            Some(digits_value(text.skip(1)))
        } else {
            None
        }
    } else if is_digit_run(text) {
        Some(digits_value(text))
    } else {
        None
    }
}

/// The signed 64-bit value of a literal: what the literal denotes, provided it
/// fits.
pub open spec fn parsed_value(text: Seq<char>) -> Option<i64> {
    match literal_value(text) {
        Some(v) => if i64::MIN <= v && v <= i64::MAX {
            Some(v as i64)
        } else {
            None
        },
        None => None,
    }
}

/// The unsigned 32-bit pattern of a signed 64-bit value: its low 32 bits.
pub open spec fn wrapped_bits(value: i64) -> u32 {
    (value as int % 0x1_0000_0000) as u32
}

/// The character of a decimal digit.
pub open spec fn digit_char(d: nat) -> char
    recommends
        d < 10,
{
    ('0' as nat + d) as char
}

/// The shortest decimal text of a natural number.
pub open spec fn decimal_text(n: nat) -> Seq<char>
    decreases n,
{
    if n < 10 {
        seq![digit_char(n)]
    } else {
        decimal_text(n / 10).push(digit_char(n % 10))
    }
}

/// The pattern of a value is the value cut down to 32 bits.
pub proof fn lemma_wrapped_bits_truncates(value: i64)
    ensures
        wrapped_bits(value) == value as u32,
{
    assert((value as int % 0x1_0000_0000) as u32 == value as u32) by (bit_vector);
}

/// A value that fits in 32 unsigned bits is its own pattern.
pub proof fn lemma_wrapped_bits_in_range(value: i64)
    requires
        0 <= value <= u32::MAX,
    ensures
        wrapped_bits(value) == value,
{
}

/// Values that differ by a multiple of two to the power 32 have the same
/// pattern: a value that is out of range wraps around.
pub proof fn lemma_wrapped_bits_wraps(value: i64, other: i64, turns: int)
    requires
        other == value + turns * 0x1_0000_0000,
    ensures
        wrapped_bits(other) == wrapped_bits(value),
{
    assert((value + turns * 0x1_0000_0000) % 0x1_0000_0000 == value as int % 0x1_0000_0000)
        by (nonlinear_arith);
}

/// The decimal text of a number is a run of digits that denotes the number.
pub proof fn lemma_decimal_text_denotes(n: nat)
    ensures
        is_digit_run(decimal_text(n)),
        digits_value(decimal_text(n)) == n,
    decreases n,
{
    let text = decimal_text(n);
    if n < 10 {
        assert(digits_value(text.drop_last()) == 0);
    } else {
        lemma_decimal_text_denotes(n / 10);
        assert(text.drop_last() =~= decimal_text(n / 10));
        assert forall|i: int| 0 <= i < text.len() implies is_decimal_digit(#[trigger] text[i]) by {
            if i < text.len() - 1 {
            }
        }
    }
}

/// Reading back the decimal text of a pattern gives the pattern again: the
/// text is a literal, its value is the pattern, and the pattern of that value
/// is the pattern itself.
pub proof fn lemma_bits_round_trip(bits: u32)
    ensures
        parsed_value(decimal_text(bits as nat)) == Some(bits as i64),
        wrapped_bits(bits as i64) == bits,
{
    lemma_decimal_text_denotes(bits as nat);
    let text = decimal_text(bits as nat);
}

/// Reinterprets a signed 64-bit value as an unsigned 32-bit pattern, keeping
/// the low 32 bits. Values outside the 32-bit range wrap; none is rejected.
pub fn member_bits(value: i64) -> (bits: u32)
    ensures
        bits == wrapped_bits(value),
{
    let bits: u32 = #[verifier::truncate]
    (value as u32);
    assert(bits == (value as int % 0x1_0000_0000) as u32) by (bit_vector)
        requires
            bits == value as u32,
    ;
    bits
}

/// Reads a literal as a signed 64-bit integer. Returns `None` for text that is
/// not a literal and for a literal whose value does not fit.
pub fn parse_i64(text: &str) -> (value: Option<i64>)
    ensures
        value == parsed_value(text@),
{
    let ghost signed = text@.len() > 0 && (text@[0] == '-' || text@[0] == '+');
    let ghost start: int = if signed {
        1
    } else {
        0
    };
    let ghost digits = text@.skip(start);
    let limit: u64 = 0x8000_0000_0000_0000;
    let mut negative: bool = false;
    let mut any_digit: bool = false;
    let mut magnitude: u64 = 0;
    let mut overflow: bool = false;
    let mut at_start: bool = true;
    proof {
        assert(text@.skip(0) =~= text@);
    }
    for c in chars: text.chars()
        invariant
            chars.seq() == text@,
            signed == (text@.len() > 0 && (text@[0] == '-' || text@[0] == '+')),
            start == (if signed {
                1int
            } else {
                0int
            }),
            digits == text@.skip(start),
            limit == 0x8000_0000_0000_0000,
            at_start == (chars.index() == 0),
            at_start ==> !negative && !any_digit && !overflow && magnitude == 0,
            !at_start ==> negative == (text@[0] == '-') && start <= chars.index(),
            any_digit == (chars.index() > start),
            forall|j: int| 0 <= j < chars.index() - start ==> is_decimal_digit(#[trigger] digits[j]),
            !at_start && !overflow ==> magnitude == digits_value(
                digits.take(chars.index() - start),
            ) && magnitude <= limit,
            overflow ==> digits_value(digits.take(chars.index() - start)) > limit,
    {
        let ghost i = chars.index() as int;
        if at_start && (c == '-' || c == '+') {
            negative = c == '-';
        } else {
            assert(digits[i - start] == c);
            if !(c >= '0' && c <= '9') {
                return None;
            }
            let d: u64 = (c as u32 - '0' as u32) as u64;
            proof {
                let longer = digits.take(i - start + 1);
                assert(longer.drop_last() =~= digits.take(i - start));
            }
            any_digit = true;
            if !overflow {
                if magnitude > (limit - d) / 10 {
                    overflow = true;
                } else {
                    magnitude = magnitude * 10 + d;
                }
            }
        }
        at_start = false;
    }
    proof {
        assert(digits.take(text@.len() - start) =~= digits);
    }
    if !any_digit || overflow {
        None
    } else if negative {
        if magnitude == limit {
            Some(i64::MIN)
        } else {
            Some(-(magnitude as i64))
        }
    } else if magnitude == limit {
        None
    } else {
        Some(magnitude as i64)
    }
}

/// The text of one decimal digit.
fn digit_text(d: u32) -> (text: &'static str)
    requires
        d < 10,
    ensures
        text@ == seq![digit_char(d as nat)],
{
    proof {
        reveal_strlit("0");
        reveal_strlit("1");
        reveal_strlit("2");
        reveal_strlit("3");
        reveal_strlit("4");
        reveal_strlit("5");
        reveal_strlit("6");
        reveal_strlit("7");
        reveal_strlit("8");
        reveal_strlit("9");
    }
    let text: &'static str = if d == 0 {
        "0"
    } else if d == 1 {
        "1"
    } else if d == 2 {
        "2"
    } else if d == 3 {
        "3"
    } else if d == 4 {
        "4"
    } else if d == 5 {
        "5"
    } else if d == 6 {
        "6"
    } else if d == 7 {
        "7"
    } else if d == 8 {
        "8"
    } else {
        "9"
    };
    text
}

/// Writes an unsigned 32-bit pattern as decimal text, without sign or
/// leading zeros.
pub fn bits_text(bits: u32) -> (text: String)
    ensures
        text@ == decimal_text(bits as nat),
    decreases bits,
{
    if bits < 10 {
        String::from_str(digit_text(bits))
    } else {
        let head: String = bits_text(bits / 10);
        head.concat(digit_text(bits % 10))
    }
}

} // verus!
