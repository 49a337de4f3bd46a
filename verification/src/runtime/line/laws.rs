//! What the lines of the runtime promise.

use vstd::prelude::*;

use crate::runtime::line::ascii_digit;
use crate::runtime::line::decimal_ascii;
use crate::runtime::line::emit_in_guest_stage;
use crate::runtime::line::emit_instruction_refusal_stage;
use crate::runtime::line::hexadecimal_ascii;
use crate::runtime::line::Refusal;
use crate::runtime::line::StackLine;

verus! {

/// A power of a base.
pub open spec fn power(base: nat, exponent: nat) -> nat
    decreases exponent,
{
    if exponent == 0 {
        1
    } else {
        base * power(base, (exponent - 1) as nat)
    }
}

proof fn decimals_are_short(value: nat, digits: nat)
    requires
        digits >= 1,
        value < power(10, digits),
    ensures
        1 <= decimal_ascii(value).len() <= digits,
    decreases digits,
{
    if value >= 10 {
        reveal_with_fuel(power, 2);
        assert(power(10, digits) == 10 * power(10, (digits - 1) as nat));
        decimals_are_short(value / 10, (digits - 1) as nat);
    }
}

proof fn hexadecimals_are_short(value: nat, digits: nat)
    requires
        digits >= 1,
        value < power(16, digits),
    ensures
        1 <= hexadecimal_ascii(value).len() <= digits,
    decreases digits,
{
    if value >= 16 {
        reveal_with_fuel(power, 2);
        assert(power(16, digits) == 16 * power(16, (digits - 1) as nat));
        hexadecimals_are_short(value / 16, (digits - 1) as nat);
    }
}

/// A number of 64 bits takes at most twenty decimal and sixteen hexadecimal digits.
pub proof fn numbers_are_short(value: u64)
    ensures
        1 <= decimal_ascii(value as nat).len() <= 20,
        1 <= hexadecimal_ascii(value as nat).len() <= 16,
{
    reveal_with_fuel(power, 21);
    decimals_are_short(value as nat, 20);
    hexadecimals_are_short(value as nat, 16);
}

/// Decimal digits are digits, and none but that of zero is a leading zero.
pub proof fn decimals_have_no_leading_zero(value: nat, index: int)
    requires
        0 <= index < decimal_ascii(value).len(),
    ensures
        48 <= decimal_ascii(value)[index] <= 57,
        value > 0 ==> decimal_ascii(value)[0] != 48,
        value == 0 ==> decimal_ascii(value) == seq![48u8],
    decreases value,
{
    if value >= 10 {
        let high = decimal_ascii(value / 10);
        if index < high.len() {
            decimals_have_no_leading_zero(value / 10, index);
        } else {
            decimals_have_no_leading_zero(value / 10, 0);
        }
    }
}

/// Hexadecimal digits are digits or small letters, and none but that of zero is a leading
/// zero.
pub proof fn hexadecimals_are_small_letters(value: nat, index: int)
    requires
        0 <= index < hexadecimal_ascii(value).len(),
    ensures
        48 <= hexadecimal_ascii(value)[index] <= 57 || 97 <= hexadecimal_ascii(value)[index] <= 102,
        value > 0 ==> hexadecimal_ascii(value)[0] != 48,
        value == 0 ==> hexadecimal_ascii(value) == seq![48u8],
    decreases value,
{
    if value >= 16 {
        let high = hexadecimal_ascii(value / 16);
        if index < high.len() {
            hexadecimals_are_small_letters(value / 16, index);
        } else {
            hexadecimals_are_small_letters(value / 16, 0);
        }
    }
}

/// Whatever is pushed on a line goes behind what it holds; what does not fit is cut off, and
/// nothing that it held is lost.
pub proof fn lines_grow_at_their_end(line: &mut StackLine, bytes: &[u8], index: int)
    requires
        call_ensures(StackLine::push_bytes, (line, bytes), ()),
    ensures
        final(line)@.len() <= 192,
        old(line)@.len() + bytes@.len() <= 192 ==> final(line)@.len() == old(line)@.len()
            + bytes@.len(),
        old(line)@.len() + bytes@.len() > 192 ==> final(line)@.len() == 192,
        0 <= index < old(line)@.len() ==> final(line)@[index] == old(line)@[index],
        old(line)@.len() <= index < final(line)@.len() ==> final(line)@[index]
            == bytes@[index - old(line)@.len()],
{
}

/// A sign stands before a negative number and before no other; the digits are those of its
/// size.
pub proof fn signs_stand_before_negative_numbers(
    line: &mut StackLine,
    unsigned: &mut StackLine,
    value: i64,
    size: u64,
)
    requires
        old(line)@.len() == 0,
        old(unsigned)@.len() == 0,
        value > i64::MIN,
        size == (if value < 0 {
            -value
        } else {
            value as int
        }),
        call_ensures(StackLine::push_signed, (line, value), ()),
        call_ensures(StackLine::push_unsigned, (unsigned, size), ()),
    ensures
        value >= 0 ==> final(line)@ == final(unsigned)@,
        value < 0 ==> final(line)@ == seq![45u8] + final(unsigned)@,
{
    numbers_are_short(size);
    assert(Seq::<u8>::empty() + decimal_ascii(size as nat) =~= decimal_ascii(size as nat));
    assert(old(line)@ =~= Seq::<u8>::empty() && old(unsigned)@ =~= Seq::<u8>::empty());
    assert(Seq::<u8>::empty() + (seq![45u8] + decimal_ascii(size as nat)) =~= seq![45u8]
        + decimal_ascii(size as nat));
}

/// A byte is two digits, the high one first, each that of its half.
pub proof fn bytes_are_two_digits(line: &mut StackLine, value: u8)
    requires
        old(line)@.len() == 0,
        call_ensures(StackLine::push_hex_byte, (line, value), ()),
    ensures
        final(line)@.len() == 2,
        final(line)@[0] == ascii_digit((value / 16) as nat),
        final(line)@[1] == ascii_digit((value % 16) as nat),
        ({
            let high = final(line)@[0];
            let low = final(line)@[1];
            let high_value = if high < 97 {
                high - 48
            } else {
                high - 87
            };
            let low_value = if low < 97 {
                low - 48
            } else {
                low - 87
            };
            high_value * 16 + low_value == value
        }),
{
}

/// Markers are written exactly while their stream is on.
pub proof fn markers_follow_the_stream(
    stream: bool,
    pid: i64,
    tid: i64,
    stage: &[u8],
    refusal: Refusal<'_>,
    marker: Option<StackLine>,
    refused: Option<StackLine>,
)
    requires
        call_ensures(emit_in_guest_stage, (stream, pid, tid, stage), marker),
        call_ensures(
            emit_instruction_refusal_stage,
            (stream, pid, tid, stage, &refusal),
            refused,
        ),
    ensures
        marker is Some <==> stream,
        refused is Some <==> stream,
        marker matches Some(line) ==> line@.len() <= 192,
        refused matches Some(line) ==> line@.len() <= 192,
{
}

} // verus!
