//! Small text utilities: comparing strings and writing integers in decimal.

use vstd::prelude::*;
use vstd::string::StringExecFns;

verus! {

/// Whether two strings hold the same characters.
pub fn same_text(left: &str, right: &str) -> (same: bool)
    ensures
        same == (left@ == right@),
{
    String::from_str(left) == String::from_str(right)
}

/// The character that denotes a single decimal digit.
pub open spec fn digit_char(digit: int) -> char {
    if digit == 0 {
        '0'
    } else if digit == 1 {
        '1'
    } else if digit == 2 {
        '2'
    } else if digit == 3 {
        '3'
    } else if digit == 4 {
        '4'
    } else if digit == 5 {
        '5'
    } else if digit == 6 {
        '6'
    } else if digit == 7 {
        '7'
    } else if digit == 8 {
        '8'
    } else {
        '9'
    }
}

/// The decimal digits of a natural number, most significant first, without
/// leading zeros.
pub open spec fn decimal_nat(number: nat) -> Seq<char>
    decreases number,
{
    if number < 10 {
        seq![digit_char(number as int)]
    } else {
        decimal_nat(number / 10).push(digit_char((number % 10) as int))
    }
}

/// The decimal notation of an integer: a minus sign for a negative one, then
/// the digits of its magnitude.
pub open spec fn decimal(number: int) -> Seq<char> {
    if number < 0 {
        seq!['-'] + decimal_nat((-number) as nat)
    } else {
        decimal_nat(number as nat)
    }
}

/// A one-character string for a digit.
fn digit_text(digit: u64) -> (text: &'static str)
    requires
        digit < 10,
    ensures
        text@ == seq![digit_char(digit as int)],
{
    proof {
        reveal_strlit("0");
        reveal_strlit("1");
        reveal_strlit("2");
        reveal_strlit("3");
        reveal_strlit("4");
        reveal_strlit("5");
        reveal_strlit("6");
        reveal_strlit("7");
        reveal_strlit("8");
        reveal_strlit("9");
    }
    let text = if digit == 0 {
        "0"
    } else if digit == 1 {
        "1"
    } else if digit == 2 {
        "2"
    } else if digit == 3 {
        "3"
    } else if digit == 4 {
        "4"
    } else if digit == 5 {
        "5"
    } else if digit == 6 {
        "6"
    } else if digit == 7 {
        "7"
    } else if digit == 8 {
        "8"
    } else {
        "9"
    };
    assert(text@ =~= seq![digit_char(digit as int)]);
    text
}

/// Appends the decimal digits of `number` to `text`.
pub fn push_decimal_nat(text: &mut String, number: u64)
    ensures
        final(text)@ == old(text)@ + decimal_nat(number as nat),
    decreases number,
{
    if number >= 10 {
        push_decimal_nat(text, number / 10);
    }
    text.append(digit_text(number % 10));
    proof {
        if number >= 10 {
            assert(final(text)@ =~= old(text)@ + decimal_nat(number as nat));
        }
    }
}

/// Appends the decimal notation of `number` to `text`.
pub fn push_decimal(text: &mut String, number: i64)
    ensures
        final(text)@ == old(text)@ + decimal(number as int),
{
    if number < 0 {
        let magnitude: u64 = if number == i64::MIN {
            9223372036854775808u64
        } else {
            (-number) as u64
        };
        proof {
            reveal_strlit("-");
            assert("-"@ =~= seq!['-']);
        }
        text.append("-");
        push_decimal_nat(text, magnitude);
        proof {
            assert(final(text)@ =~= old(text)@ + decimal(number as int));
        }
    } else {
        push_decimal_nat(text, number as u64);
    }
}

/// The decimal notation of `number`.
pub fn to_decimal(number: i64) -> (text: String)
    ensures
        text@ == decimal(number as int),
{
    let mut text = String::new();
    push_decimal(&mut text, number);
    proof {
        assert(text@ =~= decimal(number as int));
    }
    text
}

} // verus!
