//! The mappings of a process, and the arenas that were allocated near them.

use vstd::prelude::*;

pub mod laws;
use vstd::string::StringSliceAdditionalSpecFns;

verus! {

/// Trampolines of one arena, a page each.
pub const ARENA_SLOTS: u64 = 128;

/// Bytes of one arena.
pub const ARENA_LEN: u64 = ARENA_SLOTS * 4096;

// ---------------------------------------------------------------------------
// Text
// ---------------------------------------------------------------------------

/// The byte at a place, zero where there is none.
pub open spec fn byte_at(line: Seq<u8>, place: int) -> u8 {
    if 0 <= place < line.len() {
        line[place]
    } else {
        0
    }
}

/// How many bytes of white space start at a place of UTF-8 text, zero where none does.
pub open spec fn space_at(line: Seq<u8>, place: int) -> nat {
    let first = byte_at(line, place);
    let second = byte_at(line, place + 1);
    let third = byte_at(line, place + 2);
    if first == 32 || 9 <= first <= 13 {
        1
    } else if first == 0xc2 && (second == 0x85 || second == 0xa0) {
        2
    } else if first == 0xe1 && second == 0x9a && third == 0x80 {
        3
    } else if first == 0xe2 && second == 0x80 && (0x80 <= third <= 0x8a || third == 0xa8 || third
        == 0xa9 || third == 0xaf) {
        3
    } else if first == 0xe2 && second == 0x81 && third == 0x9f {
        3
    } else if first == 0xe3 && second == 0x80 && third == 0x80 {
        3
    } else {
        0
    }
}

/// The first place, from `from` on, where no white space starts.
pub open spec fn field_start(line: Seq<u8>, from: int) -> int
    decreases line.len() - from,
{
    if from >= line.len() || space_at(line, from) == 0 {
        from
    } else {
        field_start(line, from + space_at(line, from))
    }
}

/// The first place, from `from` on, where white space starts, or the end.
pub open spec fn field_end(line: Seq<u8>, from: int) -> int
    decreases line.len() - from,
{
    if from >= line.len() || space_at(line, from) != 0 {
        from
    } else {
        field_end(line, from + 1)
    }
}

/// The fields of a line from `from` on: what stands between white space.
pub open spec fn fields_from(line: Seq<u8>, from: int) -> Seq<Seq<u8>>
    decreases line.len() - from,
    when 0 <= from
    via fields_shrink
{
    let start = field_start(line, from);
    let end = field_end(line, start);
    if start >= line.len() {
        Seq::empty()
    } else {
        seq![line.subrange(start, end)] + fields_from(line, end)
    }
}

#[via_fn]
proof fn fields_shrink(line: Seq<u8>, from: int) {
    starts_ascend(line, from);
    ends_ascend(line, field_start(line, from));
}

proof fn starts_ascend(line: Seq<u8>, from: int)
    requires
        0 <= from,
    ensures
        from <= field_start(line, from),
        from <= line.len() ==> field_start(line, from) <= line.len(),
        field_start(line, from) < line.len() ==> space_at(line, field_start(line, from)) == 0,
    decreases line.len() - from,
{
    if from < line.len() && space_at(line, from) != 0 {
        starts_ascend(line, from + space_at(line, from));
    }
}

proof fn ends_ascend(line: Seq<u8>, from: int)
    requires
        0 <= from,
    ensures
        from <= field_end(line, from),
        from <= line.len() ==> field_end(line, from) <= line.len(),
        from < line.len() && space_at(line, from) == 0 ==> from < field_end(line, from),
    decreases line.len() - from,
{
    if from < line.len() && space_at(line, from) == 0 {
        ends_ascend(line, from + 1);
    }
}

pub open spec fn fields(line: Seq<u8>) -> Seq<Seq<u8>> {
    fields_from(line, 0)
}

/// The place of the first line end from `from` on.
pub open spec fn line_end_from(text: Seq<u8>, from: int) -> int
    decreases text.len() - from,
{
    if from >= text.len() || text[from] == 10 {
        from
    } else {
        line_end_from(text, from + 1)
    }
}

/// The value of a digit in a base of at most sixteen.
pub open spec fn digit_value(byte: u8) -> Option<nat> {
    if 48 <= byte <= 57 {
        Some((byte - 48) as nat)
    } else if 97 <= byte <= 102 {
        Some((byte - 87) as nat)
    } else if 65 <= byte <= 70 {
        Some((byte - 55) as nat)
    } else {
        None
    }
}

/// The number that digits spell.
pub open spec fn digits_value(digits: Seq<u8>, base: nat) -> Option<nat>
    decreases digits.len(),
{
    if digits.len() == 0 {
        Some(0)
    } else {
        match (digits_value(digits.drop_last(), base), digit_value(digits.last())) {
            (Some(high), Some(low)) => if low < base {
                Some(high * base + low)
            } else {
                None
            },
            _ => None,
        }
    }
}

/// The digits of a number, without its plus sign.
pub open spec fn unsigned_digits(field: Seq<u8>) -> Seq<u8> {
    if field.len() > 1 && field[0] == 43 {
        field.skip(1)
    } else {
        field
    }
}

/// The number that a field spells, if it is one of 64 bits.
pub open spec fn number_value(field: Seq<u8>, base: nat) -> Option<u64> {
    if field.len() == 0 {
        None
    } else {
        match digits_value(unsigned_digits(field), base) {
            Some(value) => if value <= u64::MAX {
                Some(value as u64)
            } else {
                None
            },
            None => None,
        }
    }
}

/// The place of the first of a byte from `from` on.
pub open spec fn first_byte(field: Seq<u8>, byte: u8, from: int) -> Option<int>
    decreases field.len() - from,
{
    if from >= field.len() {
        None
    } else if field[from] == byte {
        Some(from)
    } else {
        first_byte(field, byte, from + 1)
    }
}

/// The two hexadecimal numbers around the dash of a range.
pub open spec fn range_value(field: Seq<u8>) -> Option<(u64, u64)> {
    match first_byte(field, 45, 0) {
        None => None,
        Some(dash) => match (
            number_value(field.take(dash), 16),
            number_value(field.skip(dash + 1), 16),
        ) {
            (Some(start), Some(end)) => Some((start, end)),
            _ => None,
        },
    }
}

pub open spec fn holds_at(field: Seq<u8>, place: int, byte: u8) -> bool {
    place < field.len() && field[place] == byte
}

fn space_len(line: &[u8], place: usize) -> (length: usize)
    requires
        place < line.len(),
    ensures
        length == space_at(line@, place as int),
        length <= line.len() - place,
{
    let first: u8 = line[place];
    let rest: usize = line.len() - place;
    let second: u8 = if rest > 1 {
        line[place + 1]
    } else {
        0
    };
    let third: u8 = if rest > 2 {
        line[place + 2]
    } else {
        0
    };
    if first == 32 || (9 <= first && first <= 13) {
        1
    } else if first == 0xc2 && (second == 0x85 || second == 0xa0) {
        2
    } else if (first == 0xe1 && second == 0x9a && third == 0x80) || (first == 0xe2 && second
        == 0x80 && ((0x80 <= third && third <= 0x8a) || third == 0xa8 || third == 0xa9 || third
        == 0xaf)) || (first == 0xe2 && second == 0x81 && third == 0x9f) || (first == 0xe3 && second
        == 0x80 && third == 0x80) {
        3
    } else {
        0
    }
}

fn find_start(line: &[u8], from: usize) -> (place: usize)
    requires
        from <= line.len(),
    ensures
        place == field_start(line@, from as int),
        from <= place <= line.len(),
        place < line.len() ==> space_at(line@, place as int) == 0,
{
    let mut place: usize = from;
    while place < line.len()
        invariant
            from <= place <= line.len(),
            field_start(line@, from as int) == field_start(line@, place as int),
        decreases line.len() - place,
    {
        let space: usize = space_len(line, place);
        if space == 0 {
            return place;
        }
        place = place + space;
    }
    place
}

fn find_end(line: &[u8], from: usize) -> (place: usize)
    requires
        from <= line.len(),
    ensures
        place == field_end(line@, from as int),
        from <= place <= line.len(),
{
    let mut place: usize = from;
    while place < line.len() && space_len(line, place) == 0
        invariant
            from <= place <= line.len(),
            field_end(line@, from as int) == field_end(line@, place as int),
        decreases line.len() - place,
    {
        place = place + 1;
    }
    place
}

/// Where the fields of a line start and end.
fn split_fields(line: &[u8]) -> (places: Vec<(usize, usize)>)
    ensures
        places.len() == fields(line@).len(),
        forall|i: int|
            0 <= i < places.len() ==> (#[trigger] places@[i]).0 <= places@[i].1 <= line.len()
                && fields(line@)[i] == line@.subrange(places@[i].0 as int, places@[i].1 as int),
{
    let mut places: Vec<(usize, usize)> = Vec::new();
    let mut from: usize = 0;
    let ghost mut before: Seq<Seq<u8>> = Seq::empty();
    assert(before + fields_from(line@, 0) =~= fields(line@));
    loop
        invariant
            from <= line.len(),
            before.len() == places.len(),
            before + fields_from(line@, from as int) == fields(line@),
            forall|i: int|
                0 <= i < places.len() ==> (#[trigger] places@[i]).0 <= places@[i].1 <= line.len()
                    && before[i] == line@.subrange(places@[i].0 as int, places@[i].1 as int),
        decreases line.len() - from,
    {
        let start: usize = find_start(line, from);
        let end: usize = find_end(line, start);
        if start >= line.len() {
            assert(before =~= fields(line@));
            return places;
        }
        proof {
            ends_ascend(line@, start as int);
            let field = line@.subrange(start as int, end as int);
            assert(fields_from(line@, from as int) == seq![field] + fields_from(
                line@,
                end as int,
            ));
            assert(before + (seq![field] + fields_from(line@, end as int)) =~= before.push(field)
                + fields_from(line@, end as int));
            before = before.push(field);
        }
        places.push((start, end));
        from = end;
    }
}

fn value_of_digit(byte: u8) -> (value: Option<u64>)
    ensures
        match digit_value(byte) {
            Some(digit) => value == Some(digit as u64) && digit < 16,
            None => value is None,
        },
{
    if 48 <= byte && byte <= 57 {
        Some((byte - 48) as u64)
    } else if 97 <= byte && byte <= 102 {
        Some((byte - 87) as u64)
    } else if 65 <= byte && byte <= 70 {
        Some((byte - 55) as u64)
    } else {
        None
    }
}

proof fn prefix_of_number_is_smaller(digits: Seq<u8>, base: nat, count: int)
    requires
        0 <= count <= digits.len(),
        base >= 1,
    ensures
        digits_value(digits, base) matches Some(value) ==> {
            &&& digits_value(digits.take(count), base) is Some
            &&& (digits_value(digits.take(count), base)->0) <= value
        },
    decreases digits.len(),
{
    if count < digits.len() {
        assert(digits.drop_last().take(count) =~= digits.take(count));
        prefix_of_number_is_smaller(digits.drop_last(), base, count);
        if digits_value(digits, base) is Some {
            let high = digits_value(digits.drop_last(), base)->0;
            assert(high * base >= high) by (nonlinear_arith)
                requires
                    base >= 1,
            ;
        }
    } else {
        assert(digits.take(count) =~= digits);
    }
}

/// The number that a field spells in base ten or sixteen.
pub fn parse_number(field: &[u8], base: u64) -> (result: Option<u64>)
    requires
        base == 10 || base == 16,
    ensures
        result == number_value(field@, base as nat),
{
    if field.len() == 0 {
        return None;
    }
    let first: usize = if field.len() > 1 && field[0] == 43 {
        1
    } else {
        0
    };
    let ghost digits = unsigned_digits(field@);
    assert(digits =~= field@.skip(first as int));
    let mut value: u64 = 0;
    let mut index: usize = first;
    assert(digits.take(0) =~= Seq::empty());
    while index < field.len()
        invariant
            first <= index <= field.len(),
            first <= 1,
            field.len() > 0,
            base == 10 || base == 16,
            digits == field@.skip(first as int),
            digits == unsigned_digits(field@),
            digits_value(digits.take(index - first), base as nat) == Some(value as nat),
        decreases field.len() - index,
    {
        proof {
            let next = digits.take(index - first + 1);
            assert(next.drop_last() =~= digits.take(index - first));
            assert(next.last() == field@[index as int]);
            prefix_of_number_is_smaller(digits, base as nat, index - first + 1);
        }
        let digit: u64 = match value_of_digit(field[index]) {
            Some(digit) => digit,
            None => return None,
        };
        if digit >= base {
            return None;
        }
        let scaled: u64 = match value.checked_mul(base) {
            Some(scaled) => scaled,
            None => return None,
        };
        value = match scaled.checked_add(digit) {
            Some(value) => value,
            None => return None,
        };
        index = index + 1;
    }
    assert(digits.take(index - first) =~= digits);
    Some(value)
}

fn find_byte(field: &[u8], byte: u8) -> (result: Option<usize>)
    ensures
        match first_byte(field@, byte, 0) {
            Some(place) => result == Some(place as usize) && 0 <= place < field.len(),
            None => result is None,
        },
{
    let mut place: usize = 0;
    while place < field.len()
        invariant
            place <= field.len(),
            first_byte(field@, byte, 0) == first_byte(field@, byte, place as int),
        decreases field.len() - place,
    {
        if field[place] == byte {
            return Some(place);
        }
        place = place + 1;
    }
    None
}

fn parse_range(field: &[u8]) -> (result: Option<(u64, u64)>)
    ensures
        result == range_value(field@),
{
    let dash: usize = match find_byte(field, 45) {
        Some(dash) => dash,
        None => return None,
    };
    let low: &[u8] = &field[0..dash];
    let high: &[u8] = &field[dash + 1..field.len()];
    assert(low@ =~= field@.take(dash as int));
    assert(high@ =~= field@.skip(dash + 1));
    match (parse_number(low, 16), parse_number(high, 16)) {
        (Some(start), Some(end)) => Some((start, end)),
        _ => None,
    }
}

fn holds(field: &[u8], place: usize, byte: u8) -> (result: bool)
    ensures
        result == holds_at(field@, place as int, byte),
{
    place < field.len() && field[place] == byte
}

// ---------------------------------------------------------------------------
// Mappings
// ---------------------------------------------------------------------------

#[derive(Debug)]
pub struct RuntimeMap {
    pub start: u64,
    pub end: u64,
    pub offset: u64,
    pub device: Vec<u8>,
    pub inode: u64,
    pub readable: bool,
    pub writable: bool,
    pub executable: bool,
    pub shared: bool,
}

pub struct MapModel {
    pub start: u64,
    pub end: u64,
    pub offset: u64,
    pub device: Seq<u8>,
    pub inode: u64,
    pub readable: bool,
    pub writable: bool,
    pub executable: bool,
    pub shared: bool,
}

impl View for RuntimeMap {
    type V = MapModel;

    open spec fn view(&self) -> MapModel {
        MapModel {
            start: self.start,
            end: self.end,
            offset: self.offset,
            device: self.device@,
            inode: self.inode,
            readable: self.readable,
            writable: self.writable,
            executable: self.executable,
            shared: self.shared,
        }
    }
}

/// The mapping that a line describes.
pub open spec fn map_of_line(line: Seq<u8>) -> Option<MapModel> {
    let parts = fields(line);
    if parts.len() < 5 {
        None
    } else {
        match (range_value(parts[0]), number_value(parts[2], 16), number_value(parts[4], 10)) {
            (Some((start, end)), Some(offset), Some(inode)) => Some(
                MapModel {
                    start,
                    end,
                    offset,
                    device: parts[3],
                    inode,
                    readable: holds_at(parts[1], 0, 114),
                    writable: holds_at(parts[1], 1, 119),
                    executable: holds_at(parts[1], 2, 120),
                    shared: holds_at(parts[1], 3, 115),
                },
            ),
            _ => None,
        }
    }
}

/// The mappings that the lines from `from` on describe, without the lines that
/// describe none.
pub open spec fn maps_from(text: Seq<u8>, from: int) -> Seq<MapModel>
    decreases text.len() + 1 - from,
    when 0 <= from
    via lines_shrink
{
    let end = line_end_from(text, from);
    if from >= text.len() {
        Seq::empty()
    } else {
        match map_of_line(text.subrange(from, end)) {
            Some(mapping) => seq![mapping] + maps_from(text, end + 1),
            None => maps_from(text, end + 1),
        }
    }
}

#[via_fn]
proof fn lines_shrink(text: Seq<u8>, from: int) {
    line_ends_ascend(text, from);
}

proof fn line_ends_ascend(text: Seq<u8>, from: int)
    requires
        0 <= from,
    ensures
        from <= line_end_from(text, from),
        from <= text.len() ==> line_end_from(text, from) <= text.len(),
    decreases text.len() - from,
{
    if from < text.len() && text[from] != 10 {
        line_ends_ascend(text, from + 1);
    }
}

fn find_line_end(text: &[u8], from: usize) -> (end: usize)
    requires
        from <= text.len(),
    ensures
        end == line_end_from(text@, from as int),
        from <= end <= text.len(),
{
    let mut end: usize = from;
    while end < text.len() && text[end] != 10
        invariant
            from <= end <= text.len(),
            line_end_from(text@, from as int) == line_end_from(text@, end as int),
        decreases text.len() - end,
    {
        end = end + 1;
    }
    end
}

fn copy_bytes(bytes: &[u8]) -> (copy: Vec<u8>)
    ensures
        copy@ == bytes@,
{
    let mut copy: Vec<u8> = Vec::new();
    let mut index: usize = 0;
    while index < bytes.len()
        invariant
            index <= bytes.len(),
            copy@ == bytes@.take(index as int),
        decreases bytes.len() - index,
    {
        copy.push(bytes[index]);
        index = index + 1;
        assert(copy@ =~= bytes@.take(index as int));
    }
    assert(bytes@.take(index as int) =~= bytes@);
    copy
}

fn parse_map(line: &[u8]) -> (result: Option<RuntimeMap>)
    ensures
        match map_of_line(line@) {
            Some(mapping) => result is Some && (result->0)@ == mapping,
            None => result is None,
        },
{
    let places: Vec<(usize, usize)> = split_fields(line);
    if places.len() < 5 {
        return None;
    }
    let range: &[u8] = &line[places[0].0..places[0].1];
    let permissions: &[u8] = &line[places[1].0..places[1].1];
    let offset: &[u8] = &line[places[2].0..places[2].1];
    let device: &[u8] = &line[places[3].0..places[3].1];
    let inode: &[u8] = &line[places[4].0..places[4].1];
    assert(range@ == fields(line@)[0] && permissions@ == fields(line@)[1] && offset@ == fields(
        line@,
    )[2] && device@ == fields(line@)[3] && inode@ == fields(line@)[4]);
    match (parse_range(range), parse_number(offset, 16), parse_number(inode, 10)) {
        (Some((start, end)), Some(offset), Some(inode)) => Some(
            RuntimeMap {
                start,
                end,
                offset,
                device: copy_bytes(device),
                inode,
                readable: holds(permissions, 0, 114),
                writable: holds(permissions, 1, 119),
                executable: holds(permissions, 2, 120),
                shared: holds(permissions, 3, 115),
            },
        ),
        _ => None,
    }
}

pub open spec fn map_models(maps: Seq<RuntimeMap>) -> Seq<MapModel> {
    maps.map_values(|mapping: RuntimeMap| mapping@)
}

/// The mappings that the text of a process's maps describes.
pub fn read_runtime_maps(text: &[u8]) -> (maps: Vec<RuntimeMap>)
    ensures
        map_models(maps@) == maps_from(text@, 0),
{
    let mut maps: Vec<RuntimeMap> = Vec::new();
    let mut from: usize = 0;
    assert(map_models(maps@) + maps_from(text@, 0) =~= maps_from(text@, 0));
    while from < text.len()
        invariant
            from <= text.len(),
            map_models(maps@) + maps_from(text@, from as int) == maps_from(text@, 0),
        decreases text.len() - from,
    {
        let end: usize = find_line_end(text, from);
        let ghost before = maps@;
        let line: &[u8] = &text[from..end];
        assert(line@ == text@.subrange(from as int, end as int));
        match parse_map(line) {
            Some(mapping) => {
                maps.push(mapping);
                assert(map_models(maps@) + maps_from(text@, end + 1) =~= map_models(before) + (
                seq![mapping@] + maps_from(text@, end + 1)));
            },
            None => {},
        }
        if end >= text.len() {
            assert(maps_from(text@, end + 1) =~= Seq::empty());
            assert(map_models(maps@) =~= maps_from(text@, 0));
            return maps;
        }
        from = end + 1;
    }
    assert(map_models(maps@) =~= maps_from(text@, 0));
    maps
}

/// An executable mapping that an arena can be placed near.
#[derive(Debug)]
pub struct ExecutableMapping {
    pub start: u64,
    pub end: u64,
    pub name: Vec<u8>,
}

pub struct ExecutableModel {
    pub start: u64,
    pub end: u64,
    pub name: Seq<u8>,
}

impl View for ExecutableMapping {
    type V = ExecutableModel;

    open spec fn view(&self) -> ExecutableModel {
        ExecutableModel { start: self.start, end: self.end, name: self.name@ }
    }
}

/// What stands behind the last slash.
pub open spec fn base_name(path: Seq<u8>) -> Seq<u8>
    decreases path.len(),
{
    match first_byte(path, 47, 0) {
        Some(slash) => if 0 <= slash < path.len() {
            base_name(path.skip(slash + 1))
        } else {
            path
        },
        None => path,
    }
}

/// The executable mapping that a line describes.
pub open spec fn executable_of_line(line: Seq<u8>) -> Option<ExecutableModel> {
    let parts = fields(line);
    if parts.len() < 2 || !holds_at(parts[1], 2, 120) {
        None
    } else {
        match range_value(parts[0]) {
            Some((start, end)) => if start < end {
                Some(
                    ExecutableModel {
                        start,
                        end,
                        name: if parts.len() > 5 {
                            base_name(parts[5])
                        } else {
                            "[anonymous]".spec_bytes()
                        },
                    },
                )
            } else {
                None
            },
            None => None,
        }
    }
}

pub open spec fn executables_from(text: Seq<u8>, from: int) -> Seq<ExecutableModel>
    decreases text.len() + 1 - from,
    when 0 <= from
    via executable_lines_shrink
{
    let end = line_end_from(text, from);
    if from >= text.len() {
        Seq::empty()
    } else {
        match executable_of_line(text.subrange(from, end)) {
            Some(mapping) => seq![mapping] + executables_from(text, end + 1),
            None => executables_from(text, end + 1),
        }
    }
}

#[via_fn]
proof fn executable_lines_shrink(text: Seq<u8>, from: int) {
    line_ends_ascend(text, from);
}

fn last_component(path: &[u8]) -> (name: Vec<u8>)
    ensures
        name@ == base_name(path@),
    decreases path.len(),
{
    match find_byte(path, 47) {
        Some(slash) => {
            let rest: &[u8] = &path[slash + 1..path.len()];
            assert(rest@ =~= path@.skip(slash + 1));
            last_component(rest)
        },
        None => copy_bytes(path),
    }
}

fn parse_executable(line: &[u8]) -> (result: Option<ExecutableMapping>)
    ensures
        match executable_of_line(line@) {
            Some(mapping) => result is Some && (result->0)@ == mapping,
            None => result is None,
        },
{
    let places: Vec<(usize, usize)> = split_fields(line);
    if places.len() < 2 {
        return None;
    }
    let range: &[u8] = &line[places[0].0..places[0].1];
    let permissions: &[u8] = &line[places[1].0..places[1].1];
    assert(range@ == fields(line@)[0] && permissions@ == fields(line@)[1]);
    if !holds(permissions, 2, 120) {
        return None;
    }
    match parse_range(range) {
        Some((start, end)) => {
            if start >= end {
                return None;
            }
            let name: Vec<u8> = if places.len() > 5 {
                let path: &[u8] = &line[places[5].0..places[5].1];
                assert(path@ == fields(line@)[5]);
                last_component(path)
            } else {
                copy_bytes("[anonymous]".as_bytes())
            };
            Some(ExecutableMapping { start, end, name })
        },
        None => None,
    }
}

pub open spec fn executable_models(maps: Seq<ExecutableMapping>) -> Seq<ExecutableModel> {
    maps.map_values(|mapping: ExecutableMapping| mapping@)
}

/// The executable mappings that the text of a process's maps describes.
pub fn executable_mappings(text: &[u8]) -> (maps: Vec<ExecutableMapping>)
    ensures
        executable_models(maps@) == executables_from(text@, 0),
{
    let mut maps: Vec<ExecutableMapping> = Vec::new();
    let mut from: usize = 0;
    assert(executable_models(maps@) + executables_from(text@, 0) =~= executables_from(text@, 0));
    while from < text.len()
        invariant
            from <= text.len(),
            executable_models(maps@) + executables_from(text@, from as int) == executables_from(
                text@,
                0,
            ),
        decreases text.len() - from,
    {
        let end: usize = find_line_end(text, from);
        let ghost before = maps@;
        let line: &[u8] = &text[from..end];
        assert(line@ == text@.subrange(from as int, end as int));
        match parse_executable(line) {
            Some(mapping) => {
                maps.push(mapping);
                assert(executable_models(maps@) + executables_from(text@, end + 1)
                    =~= executable_models(before) + (seq![mapping@] + executables_from(
                    text@,
                    end + 1,
                )));
            },
            None => {},
        }
        if end >= text.len() {
            assert(executables_from(text@, end + 1) =~= Seq::empty());
            assert(executable_models(maps@) =~= executables_from(text@, 0));
            return maps;
        }
        from = end + 1;
    }
    assert(executable_models(maps@) =~= executables_from(text@, 0));
    maps
}

// ---------------------------------------------------------------------------
// Arenas
// ---------------------------------------------------------------------------

/// Some mapping has this range.
pub open spec fn has_range(maps: Seq<MapModel>, start: u64, end: u64) -> bool {
    exists|i: int| 0 <= i < maps.len() && (#[trigger] maps[i]).start == start && maps[i].end == end
}

/// A mapping that was not there before and can be one of an arena's two views.
pub open spec fn is_new_view(before: Seq<MapModel>, mapping: MapModel) -> bool {
    &&& !has_range(before, mapping.start, mapping.end)
    &&& mapping.end - mapping.start == ARENA_LEN
    &&& mapping.offset == 0
    &&& mapping.inode != 0
    &&& mapping.shared
    &&& mapping.readable
}

pub open spec fn is_writable_view(before: Seq<MapModel>, mapping: MapModel) -> bool {
    is_new_view(before, mapping) && mapping.writable && !mapping.executable
}

/// The executable view of the memory that a writable view shows.
pub open spec fn is_alias(before: Seq<MapModel>, writable: MapModel, mapping: MapModel) -> bool {
    &&& is_new_view(before, mapping)
    &&& !mapping.writable
    &&& mapping.executable
    &&& mapping.device == writable.device
    &&& mapping.inode == writable.inode
}

/// The first executable view, from `from` on, of a writable view.
pub open spec fn first_alias(
    before: Seq<MapModel>,
    after: Seq<MapModel>,
    writable: MapModel,
    from: int,
) -> Option<int>
    decreases after.len() - from,
{
    if from >= after.len() {
        None
    } else if is_alias(before, writable, after[from]) {
        Some(from)
    } else {
        first_alias(before, after, writable, from + 1)
    }
}

/// The pairs of views, as places in `after`, of the first `count` mappings.
pub open spec fn alias_pairs(before: Seq<MapModel>, after: Seq<MapModel>, count: nat) -> Seq<
    (int, int),
>
    decreases count,
{
    if count == 0 {
        Seq::empty()
    } else {
        let earlier = alias_pairs(before, after, (count - 1) as nat);
        let index = count - 1;
        if is_writable_view(before, after[index]) && first_alias(before, after, after[index], 0)
            is Some {
            earlier.push((index, first_alias(before, after, after[index], 0)->0))
        } else {
            earlier
        }
    }
}

fn same_bytes(left: &Vec<u8>, right: &Vec<u8>) -> (same: bool)
    ensures
        same == (left@ == right@),
{
    if left.len() != right.len() {
        return false;
    }
    let mut index: usize = 0;
    while index < left.len()
        invariant
            index <= left.len(),
            left.len() == right.len(),
            forall|i: int| 0 <= i < index ==> left@[i] == right@[i],
        decreases left.len() - index,
    {
        if left[index] != right[index] {
            return false;
        }
        index = index + 1;
    }
    assert(left@ =~= right@);
    true
}

fn contains_range(maps: &[RuntimeMap], start: u64, end: u64) -> (result: bool)
    ensures
        result == has_range(map_models(maps@), start, end),
{
    let mut index: usize = 0;
    while index < maps.len()
        invariant
            index <= maps.len(),
            forall|i: int|
                0 <= i < index ==> !((#[trigger] map_models(maps@)[i]).start == start
                    && map_models(maps@)[i].end == end),
        decreases maps.len() - index,
    {
        assert(map_models(maps@)[index as int] == maps@[index as int]@);
        if maps[index].start == start && maps[index].end == end {
            return true;
        }
        index = index + 1;
    }
    false
}

fn new_view(before: &[RuntimeMap], mapping: &RuntimeMap) -> (result: bool)
    ensures
        result == is_new_view(map_models(before@), mapping@),
{
    if contains_range(before, mapping.start, mapping.end) {
        return false;
    }
    mapping.end >= mapping.start && mapping.end - mapping.start == ARENA_LEN && mapping.offset == 0
        && mapping.inode != 0 && mapping.shared && mapping.readable
}

fn find_alias(before: &[RuntimeMap], after: &[RuntimeMap], writable: &RuntimeMap) -> (result:
    Option<usize>)
    ensures
        match first_alias(map_models(before@), map_models(after@), writable@, 0) {
            Some(index) => result == Some(index as usize) && 0 <= index < after.len(),
            None => result is None,
        },
{
    let mut index: usize = 0;
    while index < after.len()
        invariant
            index <= after.len(),
            first_alias(map_models(before@), map_models(after@), writable@, 0) == first_alias(
                map_models(before@),
                map_models(after@),
                writable@,
                index as int,
            ),
        decreases after.len() - index,
    {
        let mapping: &RuntimeMap = &after[index];
        assert(map_models(after@)[index as int] == mapping@);
        if new_view(before, mapping) && !mapping.writable && mapping.executable && mapping.inode
            == writable.inode && same_bytes(&mapping.device, &writable.device) {
            return Some(index);
        }
        index = index + 1;
    }
    None
}

/// Finds the two views of a freshly allocated arena: the places in `after` of the
/// writable and of the executable one. Anything but one pair is an error, which says how
/// many pairs there are.
pub fn discover_arena_aliases(before: &[RuntimeMap], after: &[RuntimeMap]) -> (result: Result<
    (usize, usize),
    usize,
>)
    ensures
        ({
            let pairs = alias_pairs(map_models(before@), map_models(after@), after@.len());
            if pairs.len() == 1 {
                &&& result == Ok::<(usize, usize), usize>(
                    (pairs[0].0 as usize, pairs[0].1 as usize),
                )
                &&& 0 <= pairs[0].0 < after.len()
                &&& 0 <= pairs[0].1 < after.len()
            } else {
                result == Err::<(usize, usize), usize>(pairs.len() as usize) && pairs.len()
                    <= after.len()
            }
        }),
{
    let mut found: (usize, usize) = (0, 0);
    let mut count: usize = 0;
    let mut index: usize = 0;
    let ghost old_maps = map_models(before@);
    let ghost maps = map_models(after@);
    while index < after.len()
        invariant
            index <= after.len(),
            count <= index,
            old_maps == map_models(before@),
            maps == map_models(after@),
            count == alias_pairs(old_maps, maps, index as nat).len(),
            count > 0 ==> alias_pairs(old_maps, maps, index as nat)[count - 1] == (
                found.0 as int,
                found.1 as int,
            ) && found.0 < after.len() && found.1 < after.len(),
        decreases after.len() - index,
    {
        let mapping: &RuntimeMap = &after[index];
        assert(maps[index as int] == mapping@);
        if new_view(before, mapping) && mapping.writable && !mapping.executable {
            match find_alias(before, after, mapping) {
                Some(alias) => {
                    found = (index, alias);
                    count = count + 1;
                },
                None => {},
            }
        }
        index = index + 1;
    }
    if count == 1 {
        Ok(found)
    } else {
        Err(count)
    }
}

/// The views that are found show one memory, the one writable and the other
/// executable, and neither was there before.
pub proof fn discovered_views_are_one_arena(before: Seq<MapModel>, after: Seq<MapModel>)
    requires
        alias_pairs(before, after, after.len()).len() == 1,
    ensures
        ({
            let (writable, executable) = alias_pairs(before, after, after.len())[0];
            &&& is_writable_view(before, after[writable])
            &&& is_alias(before, after[writable], after[executable])
        }),
{
    pairs_are_views(before, after, after.len(), 0);
}

proof fn pairs_are_views(before: Seq<MapModel>, after: Seq<MapModel>, count: nat, place: int)
    requires
        0 <= place < alias_pairs(before, after, count).len(),
        count <= after.len(),
    ensures
        ({
            let (writable, executable) = alias_pairs(before, after, count)[place];
            &&& is_writable_view(before, after[writable])
            &&& is_alias(before, after[writable], after[executable])
        }),
    decreases count,
{
    if count > 0 {
        let earlier = alias_pairs(before, after, (count - 1) as nat);
        if place < earlier.len() {
            pairs_are_views(before, after, (count - 1) as nat, place);
        } else {
            first_alias_is_one(before, after, after[count - 1], 0);
        }
    }
}

proof fn first_alias_is_one(
    before: Seq<MapModel>,
    after: Seq<MapModel>,
    writable: MapModel,
    from: int,
)
    ensures
        first_alias(before, after, writable, from) matches Some(index) ==> is_alias(
            before,
            writable,
            after[index],
        ),
    decreases after.len() - from,
{
    if from < after.len() && !is_alias(before, writable, after[from]) {
        first_alias_is_one(before, after, writable, from + 1);
    }
}

/// An arena that is in use.
#[derive(Debug)]
pub struct RuntimeArena {
    pub mapping_start: u64,
    pub mapping_end: u64,
    pub mapping_name: Vec<u8>,
}

/// An address lies in the mapping of an arena.
pub open spec fn serves(arena: RuntimeArena, address: u64) -> bool {
    arena.mapping_start <= address < arena.mapping_end
}

/// The first arena whose mapping holds the address and whose trampolines reach it.
/// `reaches` says of each arena whether they do.
pub fn arena_for(arenas: &[RuntimeArena], address: u64, reaches: &[bool]) -> (result: Option<usize>)
    requires
        arenas.len() == reaches.len(),
    ensures
        match result {
            Some(index) => {
                &&& index < arenas.len()
                &&& serves(arenas@[index as int], address)
                &&& reaches@[index as int]
                &&& forall|i: int|
                    0 <= i < index ==> !(#[trigger] serves(arenas@[i], address) && reaches@[i])
            },
            None => forall|i: int|
                0 <= i < arenas.len() ==> !(#[trigger] serves(arenas@[i], address) && reaches@[i]),
        },
{
    let mut index: usize = 0;
    while index < arenas.len()
        invariant
            index <= arenas.len(),
            arenas.len() == reaches.len(),
            forall|i: int|
                0 <= i < index ==> !(#[trigger] serves(arenas@[i], address) && reaches@[i]),
        decreases arenas.len() - index,
    {
        if arenas[index].mapping_start <= address && address < arenas[index].mapping_end
            && reaches[index] {
            return Some(index);
        }
        index = index + 1;
    }
    None
}

} // verus!
