//! Whole numbers as decimal text, the form in which a deadline is kept in a
//! voucher's metadata. The text is that of the standard library: what
//! `i64::to_string` writes and `str::parse::<i64>` reads.

use vstd::prelude::*;

verus! {

/// The value of a decimal digit, or `None` for any other character.
pub open spec fn digit_value(c: char) -> Option<nat> {
    if c == '0' {
        Some(0)
    } else if c == '1' {
        Some(1)
    } else if c == '2' {
        Some(2)
    } else if c == '3' {
        Some(3)
    } else if c == '4' {
        Some(4)
    } else if c == '5' {
        Some(5)
    } else if c == '6' {
        Some(6)
    } else if c == '7' {
        Some(7)
    } else if c == '8' {
        Some(8)
    } else if c == '9' {
        Some(9)
    } else {
        None
    }
}

/// The number that a run of decimal digits spells, or `None` where a
/// character is no digit. The empty run spells zero.
pub open spec fn digits_value(digits: Seq<char>) -> Option<nat>
    decreases digits.len(),
{
    if digits.len() == 0 {
        Some(0)
    } else {
        match (digits_value(digits.drop_last()), digit_value(digits.last())) {
            (Some(high), Some(low)) => Some(10 * high + low),
            _ => None,
        }
    }
}

/// The number that a text spells: an optional sign, then at least one
/// decimal digit and nothing else, of a value that fits 64 bits.
pub open spec fn decimal_i64(text: Seq<char>) -> Option<i64> {
    let signed = text.len() > 0 && (text[0] == '-' || text[0] == '+');
    let digits = if signed {
        text.drop_first()
    } else {
        text
    };
    if digits.len() == 0 {
        None
    } else {
        match digits_value(digits) {
            None => None,
            Some(magnitude) => {
                let value = if text[0] == '-' {
                    -(magnitude as int)
                } else {
                    magnitude as int
                };
                if i64::MIN <= value <= i64::MAX {
                    Some(value as i64)
                } else {
                    None
                }
            },
        }
    }
}

/// The character of a digit's value.
pub open spec fn digit_char(value: nat) -> char {
    if value == 0 {
        '0'
    } else if value == 1 {
        '1'
    } else if value == 2 {
        '2'
    } else if value == 3 {
        '3'
    } else if value == 4 {
        '4'
    } else if value == 5 {
        '5'
    } else if value == 6 {
        '6'
    } else if value == 7 {
        '7'
    } else if value == 8 {
        '8'
    } else {
        '9'
    }
}

/// The digits of a number, the most significant first and none of them a
/// leading zero, but for zero itself.
pub open spec fn digits_text(value: nat) -> Seq<char>
    decreases value,
{
    if value < 10 {
        seq![digit_char(value)]
    } else {
        digits_text(value / 10).push(digit_char(value % 10))
    }
}

/// The decimal text of a number: its digits, behind a minus sign where it
/// is negative.
pub open spec fn decimal_text(value: int) -> Seq<char> {
    if value < 0 {
        seq!['-'] + digits_text((-value) as nat)
    } else {
        digits_text(value as nat)
    }
}

/// Every character of a run that spells a number is a digit.
pub proof fn lemma_digits_are_digits(digits: Seq<char>, i: int)
    requires
        digits_value(digits).is_some(),
        0 <= i < digits.len(),
    ensures
        digit_value(digits[i]).is_some(),
    decreases digits.len(),
{
    if i < digits.len() - 1 {
        lemma_digits_are_digits(digits.drop_last(), i);
    }
}

/// A run spells a number only if each of its beginnings does, and then none
/// of them spells a larger one.
pub proof fn lemma_prefix_value(digits: Seq<char>, k: int)
    requires
        0 <= k <= digits.len(),
    ensures
        digits_value(digits.take(k)).is_none() ==> digits_value(digits).is_none(),
        digits_value(digits).is_some() ==> digits_value(digits.take(k)).is_some()
            && digits_value(digits.take(k)).unwrap() <= digits_value(digits).unwrap(),
    decreases digits.len() - k,
{
    if k == digits.len() {
        assert(digits.take(k) =~= digits);
    } else {
        assert(digits.drop_last().take(k) =~= digits.take(k));
        lemma_prefix_value(digits.drop_last(), k);
    }
}

/// What one more character adds to the number that a beginning spells.
pub proof fn lemma_next_digit(digits: Seq<char>, k: int)
    requires
        0 <= k < digits.len(),
    ensures
        digits_value(digits.take(k + 1)) == match (
            digits_value(digits.take(k)),
            digit_value(digits[k]),
        ) {
            (Some(high), Some(low)) => Some(10 * high + low),
            _ => None,
        },
{
    assert(digits.take(k + 1).drop_last() =~= digits.take(k));
    assert(digits.take(k + 1).last() == digits[k]);
}

/// A text that spells a number holds nothing beyond the seven-bit
/// characters.
pub proof fn lemma_number_is_ascii(text: Seq<char>)
    requires
        decimal_i64(text).is_some(),
    ensures
        vstd::utf8::is_ascii_chars(text),
{
    let signed = text[0] == '-' || text[0] == '+';
    let digits = if signed {
        text.drop_first()
    } else {
        text
    };
    assert forall|i: int| 0 <= i < text.len() implies '\0' <= #[trigger] text[i] <= '\u{7f}' by {
        if signed {
            if i > 0 {
                lemma_digits_are_digits(digits, i - 1);
            }
        } else {
            lemma_digits_are_digits(digits, i);
        }
    }
}

/// The digit that a seven-bit character is, by its code.
pub proof fn lemma_digit_by_code(c: char)
    requires
        c <= '\u{7f}',
    ensures
        digit_value(c) == if 48 <= c as u8 <= 57 {
            Some((c as u8 - 48) as nat)
        } else {
            None
        },
        (c == '-') == (c as u8 == 45),
        (c == '+') == (c as u8 == 43),
{
}

/// Reads a number from its decimal text: an optional sign, then at least
/// one decimal digit and nothing else. A text of a value that does not fit
/// 64 bits is no number.
pub fn parse_i64(text: &str) -> (parsed: Option<i64>)
    ensures
        parsed == decimal_i64(text@),
{
    if !text.is_ascii() {
        proof {
            if decimal_i64(text@).is_some() {
                lemma_number_is_ascii(text@);
            }
        }
        return None;
    }
    let bytes = text.as_bytes();
    proof {
        vstd::string::is_ascii_spec_bytes(text);
    }
    let len: usize = bytes.len();
    if len == 0 {
        return None;
    }
    proof {
        lemma_digit_by_code(text@[0]);
    }
    let negative = bytes[0] == 45;
    let start: usize = if negative || bytes[0] == 43 {
        1
    } else {
        0
    };
    if start == len {
        return None;
    }
    let ghost digits = if start == 1 {
        text@.drop_first()
    } else {
        text@
    };
    let limit: u64 = if negative {
        0x8000_0000_0000_0000
    } else {
        0x7fff_ffff_ffff_ffff
    };
    let mut magnitude: u64 = 0;
    let mut i: usize = start;
    assert(digits.take(0) =~= Seq::<char>::empty());
    while i < len
        invariant
            start <= i <= len,
            len == text@.len(),
            digits.len() == len - start,
            vstd::string::is_ascii(text),
            bytes@ == Seq::new(text@.len(), |k: int| text@[k] as u8),
            digits_value(digits.take(i - start)) == Some(magnitude as nat),
            magnitude <= limit,
            0x7fff_ffff_ffff_ffff <= limit <= 0x8000_0000_0000_0000,
            negative == (text@[0] == '-'),
            digits == if text@[0] == '-' || text@[0] == '+' {
                text@.drop_first()
            } else {
                text@
            },
            limit == if negative {
                0x8000_0000_0000_0000u64
            } else {
                0x7fff_ffff_ffff_ffffu64
            },
        decreases len - i,
    {
        let byte: u8 = bytes[i];
        proof {
            assert(byte == text@[i as int] as u8);
            assert(digits[i - start] == text@[i as int]);
            lemma_digit_by_code(text@[i as int]);
            lemma_next_digit(digits, i - start);
            lemma_prefix_value(digits, i - start + 1);
        }
        if byte < 48 || byte > 57 {
            return None;
        }
        let digit: u64 = (byte - 48) as u64;
        if magnitude > (limit - digit) / 10 {
            return None;
        }
        magnitude = magnitude * 10 + digit;
        i = i + 1;
    }
    assert(digits.take(len - start) =~= digits);
    if negative {
        if magnitude == 0x8000_0000_0000_0000 {
            Some(i64::MIN)
        } else {
            Some(-(magnitude as i64))
        }
    } else {
        Some(magnitude as i64)
    }
}

/// The text of a digit.
fn digit_str(value: u64) -> (text: &'static str)
    requires
        value < 10,
    ensures
        text@ == seq![digit_char(value as nat)],
{
    proof {
        reveal_strlit("0");
        reveal_strlit("1");
        reveal_strlit("2");
        reveal_strlit("3");
        reveal_strlit("4");
        reveal_strlit("5");
        reveal_strlit("6");
        reveal_strlit("7");
        reveal_strlit("8");
        reveal_strlit("9");
    }
    let text = if value == 0 {
        "0"
    } else if value == 1 {
        "1"
    } else if value == 2 {
        "2"
    } else if value == 3 {
        "3"
    } else if value == 4 {
        "4"
    } else if value == 5 {
        "5"
    } else if value == 6 {
        "6"
    } else if value == 7 {
        "7"
    } else if value == 8 {
        "8"
    } else {
        "9"
    };
    assert(text@ =~= seq![digit_char(value as nat)]);
    text
}

/// Writes the digits of a number.
fn digits_string(value: u64) -> (text: String)
    ensures
        text@ == digits_text(value as nat),
    decreases value,
{
    if value < 10 {
        String::from_str(digit_str(value))
    } else {
        let high = digits_string(value / 10);
        let text = high.concat(digit_str(value % 10));
        assert(text@ =~= digits_text(value as nat));
        text
    }
}

/// Writes a number as decimal text: its digits without leading zeros,
/// behind a minus sign where it is negative.
pub fn i64_text(value: i64) -> (text: String)
    ensures
        text@ == decimal_text(value as int),
{
    if value < 0 {
        let magnitude: u64 = if value == i64::MIN {
            0x8000_0000_0000_0000
        } else {
            (-value) as u64
        };
        proof {
            reveal_strlit("-");
        }
        let digits = digits_string(magnitude);
        let text = String::from_str("-").concat(digits.as_str());
        assert(text@ =~= decimal_text(value as int));
        text
    } else {
        digits_string(value as u64)
    }
}

/// Ten to the power of `exponent`.
pub open spec fn power_of_ten(exponent: nat) -> nat
    decreases exponent,
{
    if exponent == 0 {
        1
    } else {
        10 * power_of_ten((exponent - 1) as nat)
    }
}

/// A number below ten to the power of `count` has at most `count` digits.
pub proof fn lemma_digits_count(value: nat, count: nat)
    requires
        count >= 1,
        value < power_of_ten(count),
    ensures
        digits_text(value).len() <= count,
    decreases count,
{
    if value >= 10 {
        assert(power_of_ten(1) == 10) by {
            reveal_with_fuel(power_of_ten, 2);
        }
        lemma_digits_count(value / 10, (count - 1) as nat);
    }
}

/// The decimal text of a 64-bit number has at most twenty characters.
pub proof fn lemma_decimal_text_len(value: i64)
    ensures
        decimal_text(value as int).len() <= 20,
{
    assert(power_of_ten(19) == 10_000_000_000_000_000_000nat) by {
        reveal_with_fuel(power_of_ten, 20);
    }
    if value < 0 {
        lemma_digits_count((-(value as int)) as nat, 19);
    } else {
        lemma_digits_count(value as nat, 19);
    }
}

/// The digits of a number spell that number.
pub proof fn lemma_digits_round_trip(value: nat)
    ensures
        digits_text(value).len() > 0,
        digits_value(digits_text(value)) == Some(value),
        digit_value(digits_text(value)[0]).is_some(),
    decreases value,
{
    if value < 10 {
        let text = digits_text(value);
        assert(text.drop_last() =~= Seq::<char>::empty());
        assert(digits_value(text.drop_last()) == Some(0nat));
        assert(digit_value(text.last()) == Some(value));
    } else {
        lemma_digits_round_trip(value / 10);
        let text = digits_text(value);
        assert(text.drop_last() =~= digits_text(value / 10));
        assert(digit_value(text.last()) == Some(value % 10));
        assert(text[0] == digits_text(value / 10)[0]);
    }
}

/// The decimal text of a 64-bit number reads back as that number.
pub proof fn lemma_decimal_round_trip(value: i64)
    ensures
        decimal_i64(decimal_text(value as int)) == Some(value),
{
    let text = decimal_text(value as int);
    if value < 0 {
        let magnitude = (-(value as int)) as nat;
        lemma_digits_round_trip(magnitude);
        assert(text[0] == '-');
        assert(text.drop_first() =~= digits_text(magnitude));
    } else {
        lemma_digits_round_trip(value as nat);
        assert(text[0] != '-' && text[0] != '+');
    }
}

} // verus!
