//! Decimal spelling of numbers.

use vstd::prelude::*;

pub mod laws;
use vstd::string::StringExecFns;

verus! {

/// The decimal spelling of a number, without leading zeros.
pub open spec fn decimal(value: nat) -> Seq<char>
    decreases value,
{
    if value < 10 {
        seq![digit(value)]
    } else {
        decimal(value / 10).push(digit(value % 10))
    }
}

/// One decimal digit.
pub open spec fn digit(value: nat) -> char {
    (48 + value) as char
}

fn digit_text(value: u64) -> (text: &'static str)
    requires
        value < 10,
    ensures
        text@ == seq![digit(value as nat)],
{
    proof {
        reveal_strlit("0");
        reveal_strlit("1");
        reveal_strlit("2");
        reveal_strlit("3");
        reveal_strlit("4");
        reveal_strlit("5");
        reveal_strlit("6");
        reveal_strlit("7");
        reveal_strlit("8");
        reveal_strlit("9");
    }
    match value {
        0 => "0",
        1 => "1",
        2 => "2",
        3 => "3",
        4 => "4",
        5 => "5",
        6 => "6",
        7 => "7",
        8 => "8",
        _ => "9",
    }
}

/// Appends the decimal spelling of `value`.
pub fn append_decimal(text: &mut String, value: u64)
    ensures
        final(text)@ == old(text)@ + decimal(value as nat),
    decreases value,
{
    if value >= 10 {
        append_decimal(text, value / 10);
    }
    text.append(digit_text(value % 10));
    proof {
        if value >= 10 {
            assert(old(text)@ + decimal((value / 10) as nat) + seq![digit((value % 10) as nat)]
                =~= old(text)@ + decimal(value as nat));
        }
    }
}

/// The decimal spelling of a number with its sign.
pub open spec fn signed_decimal(value: int) -> Seq<char> {
    if value < 0 {
        "-"@ + decimal((-value) as nat)
    } else {
        decimal(value as nat)
    }
}

/// Appends the decimal spelling of `value` with its sign.
pub fn append_signed(text: &mut String, value: i32)
    ensures
        final(text)@ == old(text)@ + signed_decimal(value as int),
{
    if value < 0 {
        text.append("-");
        append_decimal(text, (-(value as i64)) as u64);
        assert(text@ =~= old(text)@ + signed_decimal(value as int));
    } else {
        append_decimal(text, value as u64);
    }
}

/// `prefix` followed by `rest`.
pub fn join(prefix: &str, rest: &str) -> (text: String)
    ensures
        text@ == prefix@ + rest@,
{
    let mut text = String::from_str(prefix);
    text.append(rest);
    text
}

/// `prefix` followed by the decimal spelling of `value`.
pub fn join_decimal(prefix: &str, value: u64) -> (text: String)
    ensures
        text@ == prefix@ + decimal(value as nat),
{
    let mut text = String::from_str(prefix);
    append_decimal(&mut text, value);
    text
}

} // verus!
