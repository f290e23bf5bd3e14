//! Numbers and truth values as the text in which settings are stored.

use vstd::prelude::*;
use vstd::string::{StringExecFns, StringSliceAdditionalSpecFns};

verus! {

/// Whether `c` is one of `0` to `9`.
pub open spec fn spec_is_digit(c: char) -> bool {
    '0' <= c && c <= '9'
}

/// The value of a digit; 0 for any other character.
pub open spec fn spec_digit_value(c: char) -> nat {
    if spec_is_digit(c) {
        (c as int - '0' as int) as nat
    } else {
        0
    }
}

/// The character of a digit below 10.
pub open spec fn spec_digit_char(digit: nat) -> char {
    ('0' as u8 + digit) as u8 as char
}

/// Whether every character of `text` is a digit.
pub open spec fn spec_all_digits(text: Seq<char>) -> bool {
    forall|i: int| 0 <= i < text.len() ==> spec_is_digit(#[trigger] text[i])
}

/// The number that digits spell in base ten.
pub open spec fn spec_digits_value(text: Seq<char>) -> nat
    decreases text.len(),
{
    if text.len() == 0 {
        0
    } else {
        spec_digits_value(text.drop_last()) * 10 + spec_digit_value(text.last())
    }
}

/// The text without one leading plus sign.
pub open spec fn spec_unsigned_body(text: Seq<char>) -> Seq<char> {
    if text.len() > 0 && text[0] == '+' {
        text.subrange(1, text.len() as int)
    } else {
        text
    }
}

/// The number that `text` spells, if it spells one that is at most `max`: an
/// optional plus sign, then one digit or more and nothing else.
pub open spec fn spec_parse_unsigned(text: Seq<char>, max: nat) -> Option<nat> {
    let body = spec_unsigned_body(text);
    if body.len() > 0 && spec_all_digits(body) && spec_digits_value(body) <= max {
        Some(spec_digits_value(body))
    } else {
        None
    }
}

/// A number in base ten, without leading zeros.
pub open spec fn spec_decimal(value: nat) -> Seq<char>
    decreases value,
{
    if value < 10 {
        seq![spec_digit_char(value)]
    } else {
        spec_decimal(value / 10).push(spec_digit_char(value % 10))
    }
}

/// The truth value that `text` spells, if it spells one.
pub open spec fn spec_parse_bool(text: Seq<char>) -> Option<bool> {
    if text == "true"@ {
        Some(true)
    } else if text == "false"@ {
        Some(false)
    } else {
        None
    }
}

/// A truth value as text.
pub open spec fn spec_bool_text(value: bool) -> Seq<char> {
    if value {
        "true"@
    } else {
        "false"@
    }
}

fn digit_text(digit: u64) -> (text: &'static str)
    requires
        digit < 10,
    ensures
        text@ == seq![spec_digit_char(digit as nat)],
{
    proof {
        reveal_strlit("0");
        reveal_strlit("1");
        reveal_strlit("2");
        reveal_strlit("3");
        reveal_strlit("4");
        reveal_strlit("5");
        reveal_strlit("6");
        reveal_strlit("7");
        reveal_strlit("8");
        reveal_strlit("9");
    }
    let text = if digit == 0 {
        "0"
    } else if digit == 1 {
        "1"
    } else if digit == 2 {
        "2"
    } else if digit == 3 {
        "3"
    } else if digit == 4 {
        "4"
    } else if digit == 5 {
        "5"
    } else if digit == 6 {
        "6"
    } else if digit == 7 {
        "7"
    } else if digit == 8 {
        "8"
    } else {
        "9"
    };
    assert(text@ =~= seq![spec_digit_char(digit as nat)]);
    text
}

/// Writes a number in base ten.
pub fn format_u64(value: u64) -> (text: String)
    ensures
        text@ == spec_decimal(value as nat),
    decreases value,
{
    if value < 10 {
        String::from_str(digit_text(value))
    } else {
        let mut text = format_u64(value / 10);
        text.append(digit_text(value % 10));
        assert(text@ =~= spec_decimal((value / 10) as nat).push(
            spec_digit_char((value % 10) as nat),
        ));
        text
    }
}

/// Writes a truth value as `true` or `false`.
pub fn format_bool(value: bool) -> (text: String)
    ensures
        text@ == spec_bool_text(value),
{
    if value {
        String::from_str("true")
    } else {
        String::from_str("false")
    }
}

/// The digits of a prefix spell no more than the digits of the whole.
pub proof fn lemma_prefix_value(text: Seq<char>, count: int)
    requires
        0 <= count <= text.len(),
    ensures
        spec_digits_value(text.take(count)) <= spec_digits_value(text),
    decreases text.len() - count,
{
    if count < text.len() {
        lemma_prefix_value(text, count + 1);
        assert(text.take(count + 1).drop_last() =~= text.take(count));
    } else {
        assert(text.take(count) =~= text);
    }
}

/// Reads a number of at most 64 bits: an optional plus sign, then digits.
pub fn parse_u64(text: &str) -> (value: Option<u64>)
    ensures
        match spec_parse_unsigned(text@, u64::MAX as nat) {
            Some(n) => value == Some(n as u64),
            None => value.is_none(),
        },
{
    let ghost body = spec_unsigned_body(text@);
    if !text.is_ascii() {
        proof {
            if spec_all_digits(body) && body.len() > 0 {
                let i = choose|i: int|
                    0 <= i < text@.len() && !('\0' <= #[trigger] text@[i] <= '\u{7f}');
                if text@.len() > 0 && text@[0] == '+' {
                    if i >= 1 {
                        assert(body[i - 1] == text@[i]);
                        assert(spec_is_digit(body[i - 1]));
                    }
                } else {
                    assert(spec_is_digit(body[i]));
                }
            }
        }
        return None;
    }
    proof {
        vstd::string::is_ascii_spec_bytes(text);
        vstd::utf8::is_ascii_chars_nat_bound(text@);
    }
    let bytes = text.as_bytes();
    let length = bytes.len();
    assert(length == text@.len());
    let start: usize = if length > 0 && bytes[0] == 43 {
        1
    } else {
        0
    };
    proof {
        if length > 0 {
            assert(text.spec_bytes()[0] == text@[0] as u8);
            assert((text@[0] as nat) < 128);
        }
    }
    assert(body =~= text@.subrange(start as int, length as int));
    if start == length {
        return None;
    }
    let mut value: u64 = 0;
    let mut i: usize = start;
    assert(body.take(0) =~= Seq::<char>::empty());
    while i < length
        invariant
            start <= i <= length,
            length == text@.len(),
            length == bytes@.len(),
            body == text@.subrange(start as int, length as int),
            body == spec_unsigned_body(text@),
            bytes@ == text.spec_bytes(),
            vstd::string::is_ascii(text),
            spec_all_digits(body.take(i - start)),
            value == spec_digits_value(body.take(i - start)),
        decreases length - i,
    {
        let byte = bytes[i];
        let ghost c = text@[i as int];
        proof {
            vstd::string::is_ascii_spec_bytes(text);
            vstd::utf8::is_ascii_chars_nat_bound(text@);
            assert(body[i - start] == c);
            assert(text.spec_bytes()[i as int] == c as u8);
            assert(byte == c as u8);
            assert((c as nat) < 128);
        }
        if byte < 48 || byte > 57 {
            assert(!spec_is_digit(c));
            assert(!spec_all_digits(body));
            return None;
        }
        assert(spec_is_digit(c));
        let digit: u64 = (byte - 48) as u64;
        assert(digit == spec_digit_value(c));
        proof {
            assert(body.take(i - start + 1).drop_last() =~= body.take(i - start));
            assert(body.take(i - start + 1).last() == c);
            lemma_prefix_value(body, i - start + 1);
        }
        let next = match value.checked_mul(10) {
            Some(tens) => tens.checked_add(digit),
            None => None,
        };
        match next {
            Some(n) => {
                value = n;
            },
            None => {
                assert(spec_digits_value(body.take(i - start + 1)) > u64::MAX);
                return None;
            },
        }
        assert(spec_all_digits(body.take(i - start + 1))) by {
            assert forall|k: int| 0 <= k < i - start + 1 implies spec_is_digit(
                #[trigger] body.take(i - start + 1)[k],
            ) by {
                if k < i - start {
                    assert(body.take(i - start)[k] == body[k]);
                }
            }
        }
        i += 1;
    }
    assert(body.take(length - start) =~= body);
    Some(value)
}

/// Reads a number of at most 32 bits.
pub fn parse_u32(text: &str) -> (value: Option<u32>)
    ensures
        match spec_parse_unsigned(text@, u32::MAX as nat) {
            Some(n) => value == Some(n as u32),
            None => value.is_none(),
        },
{
    match parse_u64(text) {
        Some(n) => {
            if n <= 0xFFFF_FFFF {
                Some(n as u32)
            } else {
                None
            }
        },
        None => None,
    }
}

/// Reads a number that fits the address space of the machine.
pub fn parse_usize(text: &str) -> (value: Option<usize>)
    ensures
        match spec_parse_unsigned(text@, usize::MAX as nat) {
            Some(n) => value == Some(n as usize),
            None => value.is_none(),
        },
{
    match parse_u64(text) {
        Some(n) => {
            if n <= usize::MAX as u64 {
                Some(n as usize)
            } else {
                None
            }
        },
        None => None,
    }
}

/// Reads a truth value: `true` or `false`, nothing else.
pub fn parse_bool(text: &str) -> (value: Option<bool>)
    ensures
        value == spec_parse_bool(text@),
{
    let owned = String::from_str(text);
    if owned == String::from_str("true") {
        Some(true)
    } else if owned == String::from_str("false") {
        Some(false)
    } else {
        None
    }
}

/// A number written in base ten is all digits, is not empty, and spells the
/// number.
pub proof fn lemma_decimal_digits(value: nat)
    ensures
        spec_decimal(value).len() > 0,
        spec_all_digits(spec_decimal(value)),
        spec_digits_value(spec_decimal(value)) == value,
    decreases value,
{
    if value < 10 {
        let text = spec_decimal(value);
        assert(text.drop_last() =~= Seq::<char>::empty());
        assert(text.last() == spec_digit_char(value));
        assert(spec_digits_value(text.drop_last()) == 0);
    } else {
        lemma_decimal_digits(value / 10);
        let head = spec_decimal(value / 10);
        let text = head.push(spec_digit_char(value % 10));
        assert(text.drop_last() =~= head);
        assert(text.last() == spec_digit_char(value % 10));
        assert forall|i: int| 0 <= i < text.len() implies spec_is_digit(#[trigger] text[i]) by {
            if i < head.len() {
                assert(text[i] == head[i]);
            }
        }
    }
}

/// Writing a number and reading it back gives the number, whenever it is
/// within the limit of the reader.
pub proof fn lemma_parse_decimal(value: nat, max: nat)
    requires
        value <= max,
    ensures
        spec_parse_unsigned(spec_decimal(value), max) == Some(value),
{
    lemma_decimal_digits(value);
    let text = spec_decimal(value);
    assert(spec_is_digit(text[0]));
}

/// Writing a truth value and reading it back gives the value.
pub proof fn lemma_parse_bool_text(value: bool)
    ensures
        spec_parse_bool(spec_bool_text(value)) == Some(value),
{
    reveal_strlit("true");
    reveal_strlit("false");
    assert("true"@.len() == 4);
    assert("false"@.len() == 5);
}

} // verus!
