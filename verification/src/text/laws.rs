//! What the spelling of numbers promises.

use vstd::prelude::*;

use crate::text::append_decimal;
use crate::text::append_signed;
use crate::text::decimal;
use crate::text::digit;
use crate::text::join;
use crate::text::join_decimal;
use crate::text::signed_decimal;

verus! {

/// The number that decimal digits spell.
pub open spec fn spelled(text: Seq<char>) -> int
    decreases text.len(),
{
    if text.len() == 0 {
        0
    } else {
        10 * spelled(text.drop_last()) + (text.last() as int - 48)
    }
}

proof fn decimals_are_read_back(value: nat)
    requires
        value <= u64::MAX,
    ensures
        decimal(value).len() >= 1,
        spelled(decimal(value)) == value,
        forall|i: int|
            0 <= i < decimal(value).len() ==> 48 <= (#[trigger] decimal(value)[i]) as int <= 57,
        decimal(value)[0] as int == 48 ==> value == 0,
    decreases value,
{
    let text = decimal(value);
    let last = (value % 10) as nat;
    assert(digit(last) as int == 48 + last);
    if value >= 10 {
        decimals_are_read_back(value / 10);
        assert(text.drop_last() =~= decimal(value / 10));
        assert(text.last() == digit(last));
    } else {
        assert(text =~= seq![digit(value)]);
        assert(text.drop_last() =~= Seq::<char>::empty());
        assert(spelled(text.drop_last()) == 0);
    }
}

/// An appended number is spelled in decimal digits, without leading zeros, behind what was
/// there.
pub proof fn numbers_are_appended_in_digits(text: &mut String, value: u64, index: int)
    requires
        call_ensures(append_decimal, (text, value), ()),
    ensures
        ({
            let before = old(text)@;
            let after = final(text)@;
            let digits = after.skip(before.len() as int);
            &&& after == before + digits
            &&& digits.len() >= 1
            &&& spelled(digits) == value
            &&& 0 <= index < digits.len() ==> '0' <= digits[index] <= '9'
            &&& digits[0] == '0' ==> value == 0
        }),
{
    let before = old(text)@;
    decimals_are_read_back(value as nat);
    assert(final(text)@.skip(before.len() as int) =~= decimal(value as nat));
}

/// A sign stands before a negative number and before no other.
pub proof fn signs_stand_before_negative_numbers(text: &mut String, value: i32)
    requires
        call_ensures(append_signed, (text, value), ()),
    ensures
        ({
            let before = old(text)@;
            let after = final(text)@;
            let spelling = after.skip(before.len() as int);
            &&& after == before + spelling
            &&& spelling[0] == '-' <==> value < 0
            &&& value >= 0 ==> spelled(spelling) == value
            &&& value < 0 ==> spelled(spelling.skip(1)) == -value
        }),
{
    reveal_strlit("-");
    let before = old(text)@;
    let spelling = signed_decimal(value as int);
    assert(final(text)@.skip(before.len() as int) =~= spelling);
    if value < 0 {
        decimals_are_read_back((-value) as nat);
        assert(spelling[0] == '-');
        assert(spelling.skip(1) =~= decimal((-value) as nat));
    } else {
        decimals_are_read_back(value as nat);
    }
}

/// A joined text is its parts, one behind the other.
pub proof fn joined_texts_are_their_parts(prefix: &str, rest: &str, text: String, index: int)
    requires
        call_ensures(join, (prefix, rest), text),
    ensures
        text@.len() == prefix@.len() + rest@.len(),
        0 <= index < prefix@.len() ==> text@[index] == prefix@[index],
        0 <= index < rest@.len() ==> text@[prefix@.len() + index] == rest@[index],
{
}

/// A text that ends in a number spells that number.
pub proof fn joined_numbers_are_spelled(prefix: &str, value: u64, text: String)
    requires
        call_ensures(join_decimal, (prefix, value), text),
    ensures
        text@.take(prefix@.len() as int) == prefix@,
        spelled(text@.skip(prefix@.len() as int)) == value,
{
    decimals_are_read_back(value as nat);
    assert(text@.take(prefix@.len() as int) =~= prefix@);
    assert(text@.skip(prefix@.len() as int) =~= decimal(value as nat));
}

} // verus!
