//! What reading the mappings of a process promises.

use vstd::prelude::*;

use crate::runtime::line::ascii_digit;
use crate::runtime::line::decimal_ascii;
use crate::runtime::line::hexadecimal_ascii;
use crate::runtime::line::StackLine;
use crate::runtime::line::laws::decimals_have_no_leading_zero;
use crate::runtime::line::laws::hexadecimals_are_small_letters;
use crate::runtime::line::laws::numbers_are_short;
use crate::runtime::maps::alias_pairs;
use crate::runtime::maps::base_name;
use crate::runtime::maps::byte_at;
use crate::runtime::maps::digit_value;
use crate::runtime::maps::digits_value;
use crate::runtime::maps::discover_arena_aliases;
use crate::runtime::maps::discovered_views_are_one_arena;
use crate::runtime::maps::ends_ascend;
use crate::runtime::maps::executable_mappings;
use crate::runtime::maps::executable_models;
use crate::runtime::maps::executable_of_line;
use crate::runtime::maps::executables_from;
use crate::runtime::maps::field_end;
use crate::runtime::maps::field_start;
use crate::runtime::maps::fields;
use crate::runtime::maps::fields_from;
use crate::runtime::maps::first_byte;
use crate::runtime::maps::line_end_from;
use crate::runtime::maps::line_ends_ascend;
use crate::runtime::maps::map_models;
use crate::runtime::maps::map_of_line;
use crate::runtime::maps::maps_from;
use crate::runtime::maps::parse_number;
use crate::runtime::maps::read_runtime_maps;
use crate::runtime::maps::space_at;
use crate::runtime::maps::starts_ascend;
use crate::runtime::maps::ExecutableMapping;
use crate::runtime::maps::RuntimeMap;

verus! {

// ---------------------------------------------------------------------------
// Numbers
// ---------------------------------------------------------------------------

proof fn decimals_spell_their_value(value: nat)
    ensures
        digits_value(decimal_ascii(value), 10) == Some(value),
    decreases value,
{
    reveal_with_fuel(digits_value, 2);
    assert(digit_value(ascii_digit(value % 10)) == Some(value % 10));
    if value >= 10 {
        decimals_spell_their_value(value / 10);
        assert(decimal_ascii(value).drop_last() =~= decimal_ascii(value / 10));
    } else {
        assert(decimal_ascii(value).drop_last() =~= Seq::<u8>::empty());
    }
}

proof fn hexadecimals_spell_their_value(value: nat)
    ensures
        digits_value(hexadecimal_ascii(value), 16) == Some(value),
    decreases value,
{
    reveal_with_fuel(digits_value, 2);
    assert(digit_value(ascii_digit(value % 16)) == Some(value % 16));
    if value >= 16 {
        hexadecimals_spell_their_value(value / 16);
        assert(hexadecimal_ascii(value).drop_last() =~= hexadecimal_ascii(value / 16));
    } else {
        assert(hexadecimal_ascii(value).drop_last() =~= Seq::<u8>::empty());
    }
}

/// A number that was written is read back, in decimal and in hexadecimal.
pub proof fn numbers_are_read_as_they_are_written(
    decimal: &mut StackLine,
    hexadecimal: &mut StackLine,
    value: u64,
    field: &[u8],
    hex_field: &[u8],
    result: Option<u64>,
    hex_result: Option<u64>,
)
    requires
        old(decimal)@.len() == 0,
        old(hexadecimal)@.len() == 0,
        call_ensures(StackLine::push_unsigned, (decimal, value), ()),
        call_ensures(StackLine::push_hex, (hexadecimal, value), ()),
        field@ == final(decimal)@,
        hex_field@ == final(hexadecimal)@,
        call_ensures(parse_number, (field, 10u64), result),
        call_ensures(parse_number, (hex_field, 16u64), hex_result),
    ensures
        result == Some(value),
        hex_result == Some(value),
{
    numbers_are_short(value);
    decimals_spell_their_value(value as nat);
    hexadecimals_spell_their_value(value as nat);
    decimals_have_no_leading_zero(value as nat, 0);
    hexadecimals_are_small_letters(value as nat, 0);
    assert(old(decimal)@ + decimal_ascii(value as nat) =~= decimal_ascii(value as nat));
    assert(old(hexadecimal)@ + hexadecimal_ascii(value as nat) =~= hexadecimal_ascii(
        value as nat,
    ));
}

/// The value of an ASCII digit, of a small or of a capital letter.
pub open spec fn spells(byte: u8, value: int) -> bool {
    ||| 0 <= value <= 9 && byte == 48 + value
    ||| 10 <= value <= 15 && (byte == 87 + value || byte == 55 + value)
}

/// One more digit shifts a number by its base; what is no digit of the base spoils it.
pub proof fn digits_shift_numbers(
    shorter: &[u8],
    longer: &[u8],
    byte: u8,
    base: u64,
    value: int,
    result: Option<u64>,
    longer_result: Option<u64>,
)
    requires
        base == 10 || base == 16,
        shorter@.len() > 0,
        shorter@[0] != 43,
        longer@ == shorter@.push(byte),
        call_ensures(parse_number, (shorter, base), result),
        call_ensures(parse_number, (longer, base), longer_result),
    ensures
        result matches Some(number) ==> (spells(byte, value) && value < base ==> longer_result
            == if number * base + value <= u64::MAX {
            Some((number * base + value) as u64)
        } else {
            None
        }),
        result is None ==> longer_result is None,
        (forall|digit: int| 0 <= digit < base ==> !spells(byte, digit)) ==> longer_result is None,
{
    assert(longer@.drop_last() =~= shorter@);
    if digit_value(byte) is Some {
        let digit = digit_value(byte)->0;
        assert(spells(byte, digit as int));
    }
    if result is None && digits_value(shorter@, base as nat) is Some && digit_value(byte) is Some {
        let high = digits_value(shorter@, base as nat)->0;
        let low = digit_value(byte)->0;
        assert(high * base + low > u64::MAX) by (nonlinear_arith)
            requires
                high > u64::MAX,
                base >= 10,
                low >= 0,
        ;
    }
}

/// A single digit is its value, and nothing is no number.
pub proof fn single_digits_are_their_value(
    field: &[u8],
    base: u64,
    value: int,
    result: Option<u64>,
)
    requires
        base == 10 || base == 16,
        field@.len() <= 1,
        call_ensures(parse_number, (field, base), result),
    ensures
        field@.len() == 0 ==> result is None,
        field@.len() == 1 && spells(field@[0], value) && value < base ==> result == Some(
            value as u64,
        ),
        field@.len() == 1 && (forall|digit: int|
            0 <= digit < base ==> !spells(field@[0], digit)) ==> result is None,
{
    if field@.len() == 1 {
        assert(field@.drop_last() =~= Seq::<u8>::empty());
        reveal_with_fuel(digits_value, 2);
        if digit_value(field@[0]) is Some {
            assert(spells(field@[0], digit_value(field@[0])->0 as int));
        }
    }
}

/// A plus sign before a number does not change it.
pub proof fn plus_signs_do_not_matter(
    field: &[u8],
    signed: &[u8],
    base: u64,
    result: Option<u64>,
    signed_result: Option<u64>,
)
    requires
        base == 10 || base == 16,
        field@.len() > 0,
        field@[0] != 43,
        signed@ == seq![43u8] + field@,
        call_ensures(parse_number, (field, base), result),
        call_ensures(parse_number, (signed, base), signed_result),
    ensures
        result == signed_result,
{
    assert(signed@.skip(1) =~= field@);
}

// ---------------------------------------------------------------------------
// Fields
// ---------------------------------------------------------------------------

/// A field of visible ASCII.
pub open spec fn is_plain(part: Seq<u8>) -> bool {
    part.len() > 0 && forall|i: int| 0 <= i < part.len() ==> 33 <= #[trigger] part[i] <= 126
}

/// Nothing, or something behind a space.
pub open spec fn is_apart(rest: Seq<u8>) -> bool {
    rest.len() == 0 || rest[0] == 32
}

proof fn spaces_shift(before: Seq<u8>, line: Seq<u8>, place: int)
    requires
        0 <= place,
    ensures
        space_at(before + line, before.len() + place) == space_at(line, place),
{
    assert(byte_at(before + line, before.len() + place) == byte_at(line, place));
    assert(byte_at(before + line, before.len() + place + 1) == byte_at(line, place + 1));
    assert(byte_at(before + line, before.len() + place + 2) == byte_at(line, place + 2));
}

proof fn starts_shift(before: Seq<u8>, line: Seq<u8>, from: int)
    requires
        0 <= from,
    ensures
        field_start(before + line, before.len() + from) == before.len() + field_start(line, from),
    decreases line.len() - from,
{
    spaces_shift(before, line, from);
    if from < line.len() && space_at(line, from) != 0 {
        starts_shift(before, line, from + space_at(line, from));
    }
}

proof fn ends_shift(before: Seq<u8>, line: Seq<u8>, from: int)
    requires
        0 <= from,
    ensures
        field_end(before + line, before.len() + from) == before.len() + field_end(line, from),
    decreases line.len() - from,
{
    spaces_shift(before, line, from);
    if from < line.len() && space_at(line, from) == 0 {
        ends_shift(before, line, from + 1);
    }
}

proof fn fields_shift(before: Seq<u8>, line: Seq<u8>, from: int)
    requires
        0 <= from,
    ensures
        fields_from(before + line, before.len() + from) == fields_from(line, from),
    decreases line.len() - from,
{
    let whole = before + line;
    starts_ascend(line, from);
    let start = field_start(line, from);
    starts_shift(before, line, from);
    ends_shift(before, line, start);
    ends_ascend(line, start);
    if start < line.len() {
        let end = field_end(line, start);
        assert(whole.subrange(before.len() + start, before.len() + end) =~= line.subrange(
            start,
            end,
        ));
        fields_shift(before, line, end);
    }
}

proof fn plain_parts_end(part: Seq<u8>, rest: Seq<u8>, from: int)
    requires
        is_plain(part),
        is_apart(rest),
        0 <= from <= part.len(),
    ensures
        field_end(part + rest, from) == part.len(),
    decreases part.len() - from,
{
    let line = part + rest;
    if from < part.len() {
        assert(line[from] == part[from]);
        assert(33 <= part[from] <= 126);
        assert(space_at(line, from) == 0);
        plain_parts_end(part, rest, from + 1);
    } else if rest.len() > 0 {
        assert(line[from] == rest[0]);
    }
}

proof fn plain_parts_are_fields(part: Seq<u8>, rest: Seq<u8>)
    requires
        is_plain(part),
        is_apart(rest),
    ensures
        fields(part + rest) == seq![part] + fields(rest),
{
    let line = part + rest;
    assert(line[0] == part[0] && 33 <= part[0] <= 126);
    assert(space_at(line, 0) == 0);
    plain_parts_end(part, rest, 0);
    assert(line.subrange(0, part.len() as int) =~= part);
    fields_shift(part, rest, 0);
}

proof fn spaces_are_no_fields(rest: Seq<u8>)
    ensures
        fields(seq![32u8] + rest) == fields(rest),
{
    let line = seq![32u8] + rest;
    assert(line[0] == 32);
    assert(space_at(line, 0) == 1);
    fields_shift(seq![32u8], rest, 0);
    assert(field_start(line, 0) == field_start(line, 1));
    assert(fields_from(line, 0) == fields_from(line, 1));
}

/// A field of visible ASCII behind another, with a space between.
pub open spec fn behind(part: Seq<u8>, rest: Seq<u8>) -> Seq<u8> {
    part + (seq![32u8] + rest)
}

/// What stands between spaces is a field, and every field is one.
pub proof fn fields_stand_between_spaces(part: Seq<u8>, rest: Seq<u8>)
    requires
        is_plain(part),
    ensures
        fields(behind(part, rest)) == seq![part] + fields(rest),
        fields(part) == seq![part],
        fields(seq![32u8] + rest) == fields(rest),
{
    spaces_are_no_fields(rest);
    plain_parts_are_fields(part, seq![32u8] + rest);
    plain_parts_are_fields(part, Seq::empty());
    assert(part + Seq::<u8>::empty() =~= part);
    assert(fields(Seq::<u8>::empty()) =~= Seq::<Seq<u8>>::empty());
    assert(seq![part] + Seq::<Seq<u8>>::empty() =~= seq![part]);
}

// ---------------------------------------------------------------------------
// Mappings
// ---------------------------------------------------------------------------

/// A line of five fields, each behind a space.
pub open spec fn map_line(
    range: Seq<u8>,
    permissions: Seq<u8>,
    offset: Seq<u8>,
    device: Seq<u8>,
    inode: Seq<u8>,
) -> Seq<u8> {
    behind(range, behind(permissions, behind(offset, behind(device, inode))))
}

proof fn map_lines_have_five_fields(
    range: Seq<u8>,
    permissions: Seq<u8>,
    offset: Seq<u8>,
    device: Seq<u8>,
    inode: Seq<u8>,
)
    requires
        is_plain(range),
        is_plain(permissions),
        is_plain(offset),
        is_plain(device),
        is_plain(inode),
    ensures
        fields(map_line(range, permissions, offset, device, inode)) == seq![
            range,
            permissions,
            offset,
            device,
            inode,
        ],
{
    fields_stand_between_spaces(inode, Seq::empty());
    fields_stand_between_spaces(device, inode);
    fields_stand_between_spaces(offset, behind(device, inode));
    fields_stand_between_spaces(permissions, behind(offset, behind(device, inode)));
    fields_stand_between_spaces(
        range,
        behind(permissions, behind(offset, behind(device, inode))),
    );
    assert(fields(map_line(range, permissions, offset, device, inode)) =~= seq![
        range,
        permissions,
        offset,
        device,
        inode,
    ]);
}

proof fn dashes_are_found(low: Seq<u8>, high: Seq<u8>, from: int)
    requires
        forall|i: int| 0 <= i < low.len() ==> #[trigger] low[i] != 45,
        0 <= from <= low.len(),
    ensures
        first_byte(low + (seq![45u8] + high), 45, from) == Some(low.len() as int),
    decreases low.len() - from,
{
    let field = low + (seq![45u8] + high);
    if from < low.len() {
        assert(field[from] == low[from]);
        dashes_are_found(low, high, from + 1);
    } else {
        assert(field[from] == 45);
    }
}

/// A line that describes a mapping is read as it was written: the two ends of its range, its
/// offset and its inode are the numbers that are spelled there, the device is its field, and
/// each permission stands in its place.
pub proof fn map_lines_are_read_as_written(
    start: u64,
    end: u64,
    permissions: Seq<u8>,
    offset: u64,
    device: Seq<u8>,
    inode: u64,
    line: Seq<u8>,
)
    requires
        is_plain(permissions),
        permissions.len() == 4,
        is_plain(device),
        line == map_line(
            hexadecimal_ascii(start as nat) + (seq![45u8] + hexadecimal_ascii(end as nat)),
            permissions,
            hexadecimal_ascii(offset as nat),
            device,
            decimal_ascii(inode as nat),
        ),
    ensures
        map_of_line(line) matches Some(mapping) && {
            &&& mapping.start == start
            &&& mapping.end == end
            &&& mapping.offset == offset
            &&& mapping.inode == inode
            &&& mapping.device == device
            &&& mapping.readable == (permissions[0] == 'r' as u8)
            &&& mapping.writable == (permissions[1] == 'w' as u8)
            &&& mapping.executable == (permissions[2] == 'x' as u8)
            &&& mapping.shared == (permissions[3] == 's' as u8)
        },
{
    let low = hexadecimal_ascii(start as nat);
    let high = hexadecimal_ascii(end as nat);
    let range = low + (seq![45u8] + high);
    let offset_field = hexadecimal_ascii(offset as nat);
    let inode_field = decimal_ascii(inode as nat);
    numbers_are_short(start);
    numbers_are_short(end);
    numbers_are_short(offset);
    numbers_are_short(inode);
    assert forall|i: int| 0 <= i < low.len() implies #[trigger] low[i] != 45 && 33 <= low[i]
        <= 126 && low[i] != 43 by {
        hexadecimals_are_small_letters(start as nat, i);
    }
    assert forall|i: int| 0 <= i < high.len() implies 33 <= #[trigger] high[i] <= 126 && high[i]
        != 43 by {
        hexadecimals_are_small_letters(end as nat, i);
    }
    assert forall|i: int| 0 <= i < offset_field.len() implies 33 <= #[trigger] offset_field[i]
        <= 126 && offset_field[i] != 43 by {
        hexadecimals_are_small_letters(offset as nat, i);
    }
    assert forall|i: int| 0 <= i < inode_field.len() implies 33 <= #[trigger] inode_field[i] <= 126
        && inode_field[i] != 43 by {
        decimals_have_no_leading_zero(inode as nat, i);
    }
    assert(is_plain(range)) by {
        assert forall|i: int| 0 <= i < range.len() implies 33 <= #[trigger] range[i] <= 126 by {
            if i < low.len() {
                assert(range[i] == low[i]);
            } else if i > low.len() {
                assert(range[i] == high[i - low.len() - 1]);
            }
        }
    }
    map_lines_have_five_fields(range, permissions, offset_field, device, inode_field);
    dashes_are_found(low, high, 0);
    assert(range.take(low.len() as int) =~= low);
    assert(range.skip(low.len() as int + 1) =~= high);
    hexadecimals_spell_their_value(start as nat);
    hexadecimals_spell_their_value(end as nat);
    hexadecimals_spell_their_value(offset as nat);
    decimals_spell_their_value(inode as nat);
}

proof fn line_ends_are_found(line: Seq<u8>, rest: Seq<u8>, from: int)
    requires
        forall|i: int| 0 <= i < line.len() ==> #[trigger] line[i] != 10,
        0 <= from <= line.len(),
    ensures
        line_end_from(line + (seq![10u8] + rest), from) == line.len(),
    decreases line.len() - from,
{
    let text = line + (seq![10u8] + rest);
    if from < line.len() {
        assert(text[from] == line[from]);
        line_ends_are_found(line, rest, from + 1);
    } else {
        assert(text[from] == 10);
    }
}

proof fn line_ends_shift(before: Seq<u8>, text: Seq<u8>, from: int)
    requires
        0 <= from,
    ensures
        line_end_from(before + text, before.len() + from) == before.len() + line_end_from(
            text,
            from,
        ),
    decreases text.len() - from,
{
    if from < text.len() && text[from] != 10 {
        assert((before + text)[before.len() + from] == text[from]);
        line_ends_shift(before, text, from + 1);
    } else if from < text.len() {
        assert((before + text)[before.len() + from] == text[from]);
    }
}

proof fn maps_shift(before: Seq<u8>, text: Seq<u8>, from: int)
    requires
        0 <= from,
    ensures
        maps_from(before + text, before.len() + from) == maps_from(text, from),
        executables_from(before + text, before.len() + from) == executables_from(text, from),
    decreases text.len() + 1 - from,
{
    line_ends_shift(before, text, from);
    line_ends_ascend(text, from);
    if from < text.len() {
        let end = line_end_from(text, from);
        assert((before + text).subrange(before.len() + from, before.len() + end) =~= text.subrange(
            from,
            end,
        ));
        maps_shift(before, text, end + 1);
    }
}

/// A text is read line by line: what its first line describes comes first, and a line that
/// describes no mapping is left out.
pub proof fn maps_are_read_line_by_line(line: Seq<u8>, rest: Seq<u8>)
    requires
        forall|i: int| 0 <= i < line.len() ==> #[trigger] line[i] != 10,
    ensures
        ({
            let text = line + (seq![10u8] + rest);
            &&& map_of_line(line) matches Some(mapping) ==> maps_from(text, 0) == seq![mapping]
                + maps_from(rest, 0)
            &&& map_of_line(line) is None ==> maps_from(text, 0) == maps_from(rest, 0)
            &&& executable_of_line(line) matches Some(mapping) ==> executables_from(text, 0)
                == seq![mapping] + executables_from(rest, 0)
            &&& executable_of_line(line) is None ==> executables_from(text, 0) == executables_from(
                rest,
                0,
            )
            &&& maps_from(Seq::<u8>::empty(), 0).len() == 0
            &&& executables_from(Seq::<u8>::empty(), 0).len() == 0
        }),
{
    let text = line + (seq![10u8] + rest);
    line_ends_are_found(line, rest, 0);
    assert(text.subrange(0, line.len() as int) =~= line);
    let before = line + seq![10u8];
    assert(text =~= before + rest);
    maps_shift(before, rest, 0);
}

/// What is read of a text is what its lines describe, in order.
pub proof fn read_maps_are_those_of_the_lines(
    text: &[u8],
    maps: Vec<RuntimeMap>,
    executables: Vec<ExecutableMapping>,
    index: int,
)
    requires
        call_ensures(read_runtime_maps, (text,), maps),
        call_ensures(executable_mappings, (text,), executables),
    ensures
        maps@.len() == maps_from(text@, 0).len(),
        0 <= index < maps@.len() ==> maps@[index]@ == maps_from(text@, 0)[index],
        executables@.len() == executables_from(text@, 0).len(),
        0 <= index < executables@.len() ==> executables@[index]@ == executables_from(text@, 0)[
            index
        ],
{
    assert(map_models(maps@).len() == maps@.len());
    assert(executable_models(executables@).len() == executables@.len());
    if 0 <= index < maps@.len() {
        assert(map_models(maps@)[index] == maps@[index]@);
    }
    if 0 <= index < executables@.len() {
        assert(executable_models(executables@)[index] == executables@[index]@);
    }
}

/// What is executable is named: by what stands behind the last slash of its path.
pub proof fn paths_are_named_by_their_end(directory: Seq<u8>, name: Seq<u8>)
    requires
        forall|i: int| 0 <= i < name.len() ==> #[trigger] name[i] != 47,
    ensures
        base_name(name) == name,
        base_name(directory + (seq![47u8] + name)) == name,
    decreases directory.len(),
{
    no_byte_is_found(name, 47, 0);
    let path = directory + (seq![47u8] + name);
    first_bytes_are_found(path, 47, 0, directory.len() as int);
    let slash = first_byte(path, 47, 0)->0;
    assert(path[directory.len() as int] == 47);
    assert(base_name(path) == base_name(path.skip(slash + 1)));
    if slash < directory.len() {
        assert(path.skip(slash + 1) =~= directory.skip(slash + 1) + (seq![47u8] + name));
        paths_are_named_by_their_end(directory.skip(slash + 1), name);
    } else {
        assert(path.skip(slash + 1) =~= name);
    }
}

proof fn no_byte_is_found(field: Seq<u8>, byte: u8, from: int)
    requires
        forall|i: int| 0 <= i < field.len() ==> #[trigger] field[i] != byte,
        0 <= from,
    ensures
        first_byte(field, byte, from) is None,
    decreases field.len() - from,
{
    if from < field.len() {
        no_byte_is_found(field, byte, from + 1);
    }
}

proof fn first_bytes_are_found(field: Seq<u8>, byte: u8, from: int, place: int)
    requires
        0 <= from <= place < field.len(),
        field[place] == byte,
    ensures
        first_byte(field, byte, from) matches Some(found) && from <= found <= place && field[found]
            == byte,
    decreases place - from,
{
    if field[from] != byte {
        first_bytes_are_found(field, byte, from + 1, place);
    }
}

/// An executable mapping is read exactly from a line whose third permission says so and whose
/// range is not empty; it has that range and the name of its path.
pub proof fn executable_lines_are_read_as_written(
    start: u64,
    end: u64,
    permissions: Seq<u8>,
    offset: Seq<u8>,
    device: Seq<u8>,
    inode: Seq<u8>,
    path: Seq<u8>,
    line: Seq<u8>,
)
    requires
        is_plain(permissions),
        permissions.len() == 4,
        is_plain(offset),
        is_plain(device),
        is_plain(inode),
        is_plain(path),
        line == behind(
            hexadecimal_ascii(start as nat) + (seq![45u8] + hexadecimal_ascii(end as nat)),
            behind(permissions, behind(offset, behind(device, behind(inode, path)))),
        ),
    ensures
        executable_of_line(line) is Some <==> permissions[2] == 'x' as u8 && start < end,
        executable_of_line(line) matches Some(mapping) ==> mapping.start == start && mapping.end
            == end && mapping.name == base_name(path),
{
    let low = hexadecimal_ascii(start as nat);
    let high = hexadecimal_ascii(end as nat);
    let range = low + (seq![45u8] + high);
    numbers_are_short(start);
    numbers_are_short(end);
    assert forall|i: int| 0 <= i < low.len() implies #[trigger] low[i] != 45 && 33 <= low[i]
        <= 126 && low[i] != 43 by {
        hexadecimals_are_small_letters(start as nat, i);
    }
    assert forall|i: int| 0 <= i < high.len() implies 33 <= #[trigger] high[i] <= 126 && high[i]
        != 43 by {
        hexadecimals_are_small_letters(end as nat, i);
    }
    assert(is_plain(range)) by {
        assert forall|i: int| 0 <= i < range.len() implies 33 <= #[trigger] range[i] <= 126 by {
            if i < low.len() {
                assert(range[i] == low[i]);
            } else if i > low.len() {
                assert(range[i] == high[i - low.len() - 1]);
            }
        }
    }
    fields_stand_between_spaces(path, Seq::empty());
    fields_stand_between_spaces(inode, path);
    fields_stand_between_spaces(device, behind(inode, path));
    fields_stand_between_spaces(offset, behind(device, behind(inode, path)));
    fields_stand_between_spaces(permissions, behind(offset, behind(device, behind(inode, path))));
    fields_stand_between_spaces(
        range,
        behind(permissions, behind(offset, behind(device, behind(inode, path)))),
    );
    assert(fields(line) =~= seq![range, permissions, offset, device, inode, path]);
    dashes_are_found(low, high, 0);
    assert(range.take(low.len() as int) =~= low);
    assert(range.skip(low.len() as int + 1) =~= high);
    hexadecimals_spell_their_value(start as nat);
    hexadecimals_spell_their_value(end as nat);
}

// ---------------------------------------------------------------------------
// Arenas
// ---------------------------------------------------------------------------

/// The two views of a new arena are as large as its 128 pages, shared, of one file from its
/// start, the one writable and not executable, the other executable and not writable; and
/// neither range was mapped before.
pub proof fn arenas_have_two_views_of_one_file(
    before: &[RuntimeMap],
    after: &[RuntimeMap],
    result: Result<(usize, usize), usize>,
    index: int,
)
    requires
        call_ensures(discover_arena_aliases, (before, after), result),
    ensures
        result matches Ok((writable, executable)) ==> {
            let w = after@[writable as int];
            let x = after@[executable as int];
            &&& writable < after@.len()
            &&& executable < after@.len()
            &&& w.end - w.start == 0x8_0000
            &&& x.end - x.start == 0x8_0000
            &&& w.offset == 0 && x.offset == 0
            &&& w.inode == x.inode && w.inode != 0
            &&& w.device@ == x.device@
            &&& w.shared && x.shared && w.readable && x.readable
            &&& w.writable && !w.executable
            &&& x.executable && !x.writable
            &&& 0 <= index < before@.len() ==> !(before@[index].start == w.start
                && before@[index].end == w.end) && !(before@[index].start == x.start
                && before@[index].end == x.end)
        },
        result matches Err(count) ==> count != 1,
{
    let old_maps = map_models(before@);
    let new_maps = map_models(after@);
    assert(new_maps.len() == after@.len());
    if result is Ok {
        discovered_views_are_one_arena(old_maps, new_maps);
        let (writable, executable) = alias_pairs(old_maps, new_maps, after@.len())[0];
        assert(new_maps[writable] == after@[writable]@);
        assert(new_maps[executable] == after@[executable]@);
        if 0 <= index < before@.len() {
            assert(old_maps[index] == before@[index]@);
        }
    } else {
        assert(alias_pairs(old_maps, new_maps, after@.len()).len() <= after@.len());
        assert(after@.len() <= usize::MAX);
    }
}

} // verus!
