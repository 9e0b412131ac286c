//! Integers as decimal text.

use vstd::prelude::*;
use vstd::string::*;

verus! {

/// The character of a decimal digit.
pub open spec fn digit_char(digit: int) -> char {
    if digit == 0 {
        '0'
    } else if digit == 1 {
        '1'
    } else if digit == 2 {
        '2'
    } else if digit == 3 {
        '3'
    } else if digit == 4 {
        '4'
    } else if digit == 5 {
        '5'
    } else if digit == 6 {
        '6'
    } else if digit == 7 {
        '7'
    } else if digit == 8 {
        '8'
    } else {
        '9'
    }
}

/// The decimal numeral of a natural number: most significant digit first, no
/// leading zero except for zero itself.
pub open spec fn numeral(n: nat) -> Seq<char>
    decreases n,
{
    if n < 10 {
        seq![digit_char(n as int)]
    } else {
        numeral(n / 10).push(digit_char((n % 10) as int))
    }
}

/// The decimal numeral of an integer, with a minus sign before a negative one.
pub open spec fn signed_numeral(n: int) -> Seq<char> {
    if n < 0 {
        seq!['-'] + numeral((-n) as nat)
    } else {
        numeral(n as nat)
    }
}

fn digit_text(digit: u8) -> (text: &'static str)
    requires
        digit < 10,
    ensures
        text@ == seq![digit_char(digit as int)],
{
    proof {
        reveal_strlit("0");
        reveal_strlit("1");
        reveal_strlit("2");
        reveal_strlit("3");
        reveal_strlit("4");
        reveal_strlit("5");
        reveal_strlit("6");
        reveal_strlit("7");
        reveal_strlit("8");
        reveal_strlit("9");
    }
    let text = match digit {
        0 => "0",
        1 => "1",
        2 => "2",
        3 => "3",
        4 => "4",
        5 => "5",
        6 => "6",
        7 => "7",
        8 => "8",
        _ => "9",
    };
    assert(text@ =~= seq![digit_char(digit as int)]);
    text
}

/// Appends the decimal numeral of `n`.
pub fn append_numeral(text: &mut String, n: u128)
    ensures
        final(text)@ == old(text)@ + numeral(n as nat),
    decreases n,
{
    if n >= 10 {
        append_numeral(text, n / 10);
    }
    let ghost front = text@;
    text.append(digit_text((n % 10) as u8));
    assert(text@ =~= old(text)@ + numeral(n as nat));
}

/// Appends the decimal numeral of `n`, with its sign if it is negative.
pub fn append_signed_numeral(text: &mut String, n: i64)
    ensures
        final(text)@ == old(text)@ + signed_numeral(n as int),
{
    if n < 0 {
        proof {
            reveal_strlit("-");
        }
        text.append("-");
        let magnitude: u128 = (-(n as i128)) as u128;
        append_numeral(text, magnitude);
        assert(text@ =~= old(text)@ + signed_numeral(n as int));
    } else {
        append_numeral(text, n as u128);
    }
}

} // verus!
