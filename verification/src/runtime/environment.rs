//! Settings that a launcher selects through environment variables.

use vstd::prelude::*;

pub mod laws;
use vstd::string::StrSliceExecFns;
use vstd::string::StringExecFns;

use crate::runtime::instructions::InstructionSubscriptions;

verus! {

/// Enables fail-closed, allocation-free in-guest lifecycle stage markers on stderr.
pub const IN_GUEST_STAGE_STREAM_ENV: &'static str = "REVERIE_LITEINST_IN_GUEST_STAGE_STREAM";

/// Selects whether the runtime's `SIGSYS` handler runs on an alternate stack.
pub const ALT_STACK_ENV: &'static str = "REVERIE_LITEINST_ALT_STACK";

/// Allows a caller to keep fork-family system calls fail-closed.
pub const PROCESS_FORK_ENV: &'static str = "REVERIE_LITEINST_PROCESS_FORK";

/// The variable of a launch path that is not supported.
pub const TOOL_ENV: &'static str = "REVERIE_LITEINST_TOOL";

/// A value that a variable cannot have.
#[derive(Debug, PartialEq, Eq)]
pub struct UnsupportedValue {
    pub variable: &'static str,
    pub value: String,
}

/// Unicode's white space.
pub open spec fn is_white(character: char) -> bool {
    let code = character as int;
    ||| 0x9 <= code <= 0xd
    ||| code == 0x20
    ||| code == 0x85
    ||| code == 0xa0
    ||| code == 0x1680
    ||| 0x2000 <= code <= 0x200a
    ||| code == 0x2028
    ||| code == 0x2029
    ||| code == 0x202f
    ||| code == 0x205f
    ||| code == 0x3000
}

/// The text without the white space before it.
pub open spec fn trim_start(text: Seq<char>) -> Seq<char>
    decreases text.len(),
{
    if text.len() > 0 && is_white(text[0]) {
        trim_start(text.skip(1))
    } else {
        text
    }
}

/// The text without the white space behind it.
pub open spec fn trim_end(text: Seq<char>) -> Seq<char>
    decreases text.len(),
{
    if text.len() > 0 && is_white(text.last()) {
        trim_end(text.drop_last())
    } else {
        text
    }
}

/// The lower-case letter of an ASCII capital, any other character itself.
pub open spec fn lower(character: char) -> char {
    if 65 <= character as int <= 90 {
        (character as int + 32) as char
    } else {
        character
    }
}

/// A value as it is compared: without surrounding white space and in lower case.
pub open spec fn word_of(value: Seq<char>) -> Seq<char> {
    trim_end(trim_start(value)).map_values(|character: char| lower(character))
}

pub open spec fn is_affirmative(word: Seq<char>) -> bool {
    word == "1"@ || word == "true"@ || word == "on"@ || word == "yes"@
}

pub open spec fn is_negative(word: Seq<char>) -> bool {
    word == "0"@ || word == "false"@ || word == "off"@ || word == "no"@
}

fn white(character: char) -> (result: bool)
    ensures
        result == is_white(character),
{
    let code: u32 = character as u32;
    (0x9 <= code && code <= 0xd) || code == 0x20 || code == 0x85 || code == 0xa0 || code == 0x1680
        || (0x2000 <= code && code <= 0x200a) || code == 0x2028 || code == 0x2029 || code == 0x202f
        || code == 0x205f || code == 0x3000
}

proof fn trimmed_start(text: Seq<char>, start: int)
    requires
        0 <= start <= text.len(),
        forall|i: int| 0 <= i < start ==> is_white(#[trigger] text[i]),
        start < text.len() ==> !is_white(text[start]),
    ensures
        trim_start(text) == text.skip(start),
    decreases start,
{
    if start > 0 {
        assert(is_white(text[0]));
        assert forall|i: int| 0 <= i < start - 1 implies is_white(#[trigger] text.skip(1)[i]) by {
            assert(is_white(text[i + 1]));
        }
        trimmed_start(text.skip(1), start - 1);
        assert(text.skip(1).skip(start - 1) =~= text.skip(start));
    } else {
        assert(text.skip(0) =~= text);
    }
}

proof fn trimmed_end(text: Seq<char>, end: int)
    requires
        0 <= end <= text.len(),
        forall|i: int| end <= i < text.len() ==> is_white(#[trigger] text[i]),
        end > 0 ==> !is_white(text[end - 1]),
    ensures
        trim_end(text) == text.take(end),
    decreases text.len() - end,
{
    if end < text.len() {
        assert(is_white(text[text.len() - 1]));
        trimmed_end(text.drop_last(), end);
        assert(text.drop_last().take(end) =~= text.take(end));
    } else {
        assert(text.take(end) =~= text);
    }
}

/// Where the trimmed value starts and ends.
fn trim(value: &str) -> (range: (usize, usize))
    ensures
        range.0 <= range.1 <= value@.len(),
        trim_end(trim_start(value@)) == value@.subrange(range.0 as int, range.1 as int),
{
    let length: usize = value.unicode_len();
    let mut start: usize = 0;
    while start < length && white(value.get_char(start))
        invariant
            start <= length,
            length == value@.len(),
            forall|i: int| 0 <= i < start ==> is_white(#[trigger] value@[i]),
        decreases length - start,
    {
        start = start + 1;
    }
    let mut end: usize = length;
    while end > start && white(value.get_char(end - 1))
        invariant
            start <= end <= length,
            length == value@.len(),
            forall|i: int| end <= i < length ==> is_white(#[trigger] value@[i]),
        decreases end,
    {
        end = end - 1;
    }
    proof {
        trimmed_start(value@, start as int);
        let rest = value@.skip(start as int);
        assert forall|i: int| end - start <= i < rest.len() implies is_white(
            #[trigger] rest[i],
        ) by {
            assert(is_white(value@[i + start]));
        }
        trimmed_end(rest, end - start);
        assert(rest.take(end - start) =~= value@.subrange(start as int, end as int));
    }
    (start, end)
}

fn lowered(character: char) -> (result: char)
    ensures
        result == lower(character),
{
    if 65 <= character as u32 && character as u32 <= 90 {
        (character as u8 + 32) as char
    } else {
        character
    }
}

/// Whether a part of the value, in lower case, is the given word.
fn is_word(value: &str, start: usize, end: usize, word: &str) -> (result: bool)
    requires
        start <= end <= value@.len(),
    ensures
        result == (value@.subrange(start as int, end as int).map_values(
            |character: char| lower(character),
        ) == word@),
{
    let ghost lowered_part = value@.subrange(start as int, end as int).map_values(
        |character: char| lower(character),
    );
    let length: usize = word.unicode_len();
    if length != end - start {
        return false;
    }
    let mut index: usize = 0;
    while index < length
        invariant
            index <= length,
            length == word@.len(),
            length == end - start,
            end <= value@.len(),
            lowered_part == value@.subrange(start as int, end as int).map_values(
                |character: char| lower(character),
            ),
            forall|i: int| 0 <= i < index ==> #[trigger] lowered_part[i] == word@[i],
        decreases length - index,
    {
        assert(lowered_part[index as int] == lower(value@[start + index]));
        if lowered(value.get_char(start + index)) != word.get_char(index) {
            return false;
        }
        index = index + 1;
    }
    assert(lowered_part =~= word@);
    true
}

/// Whether a value is exactly the given text.
fn is_text(value: &str, text: &str) -> (result: bool)
    ensures
        result == (value@ == text@),
{
    let length: usize = text.unicode_len();
    if value.unicode_len() != length {
        return false;
    }
    let mut index: usize = 0;
    while index < length
        invariant
            index <= length,
            length == text@.len(),
            length == value@.len(),
            forall|i: int| 0 <= i < index ==> value@[i] == text@[i],
        decreases length - index,
    {
        if value.get_char(index) != text.get_char(index) {
            return false;
        }
        index = index + 1;
    }
    assert(value@ =~= text@);
    true
}

/// Parses the value of [`ALT_STACK_ENV`]. Unset, the alternate stack is used. Otherwise
/// the value is `1`, `true`, `on` or `yes`, or `0`, `false`, `off` or `no`, in any
/// case and with white space around it.
pub fn alt_stack_from_env_value(value: Option<&str>) -> (result: Result<bool, UnsupportedValue>)
    ensures
        match value {
            None => result == Ok::<bool, UnsupportedValue>(true),
            Some(value) => if is_affirmative(word_of(value@)) {
                result == Ok::<bool, UnsupportedValue>(true)
            } else if is_negative(word_of(value@)) {
                result == Ok::<bool, UnsupportedValue>(false)
            } else {
                result is Err && (result->Err_0).variable == ALT_STACK_ENV && (
                result->Err_0).value@ == value@
            },
        },
{
    let value = match value {
        None => return Ok(true),
        Some(value) => value,
    };
    let (start, end) = trim(value);
    if is_word(value, start, end, "1") || is_word(value, start, end, "true") || is_word(
        value,
        start,
        end,
        "on",
    ) || is_word(value, start, end, "yes") {
        return Ok(true);
    }
    if is_word(value, start, end, "0") || is_word(value, start, end, "false") || is_word(
        value,
        start,
        end,
        "off",
    ) || is_word(value, start, end, "no") {
        return Ok(false);
    }
    Err(UnsupportedValue { variable: ALT_STACK_ENV, value: String::from_str(value) })
}

/// Parses a variable that is `0` or `1`, or unset.
pub open spec fn switch_value(value: Option<Seq<char>>, default: bool) -> Option<bool> {
    match value {
        None => Some(default),
        Some(value) => if value == "0"@ {
            Some(false)
        } else if value == "1"@ {
            Some(true)
        } else {
            None
        },
    }
}

pub open spec fn text_of(value: Option<&str>) -> Option<Seq<char>> {
    match value {
        Some(value) => Some(value@),
        None => None,
    }
}

fn switch(variable: &'static str, value: Option<&str>, default: bool) -> (result: Result<
    bool,
    UnsupportedValue,
>)
    ensures
        match switch_value(text_of(value), default) {
            Some(selected) => result == Ok::<bool, UnsupportedValue>(selected),
            None => result is Err && (result->Err_0).variable == variable && value is Some && (
            result->Err_0).value@ == (value->0)@,
        },
{
    let value = match value {
        None => return Ok(default),
        Some(value) => value,
    };
    proof {
        reveal_strlit("0");
        reveal_strlit("1");
        assert("0"@[0] != "1"@[0]);
    }
    if is_text(value, "0") {
        Ok(false)
    } else if is_text(value, "1") {
        Ok(true)
    } else {
        Err(UnsupportedValue { variable, value: String::from_str(value) })
    }
}

/// Parses the value of [`IN_GUEST_STAGE_STREAM_ENV`]: off unless it is `1`.
pub fn stage_stream_from_env_value(value: Option<&str>) -> (result: Result<bool, UnsupportedValue>)
    ensures
        match switch_value(text_of(value), false) {
            Some(selected) => result == Ok::<bool, UnsupportedValue>(selected),
            None => result is Err && (result->Err_0).variable == IN_GUEST_STAGE_STREAM_ENV && value
                is Some && (result->Err_0).value@ == (value->0)@,
        },
{
    switch(IN_GUEST_STAGE_STREAM_ENV, value, false)
}

/// Parses the value of [`PROCESS_FORK_ENV`]: forks are allowed unless it is `0`, and
/// never where nothing may be patched.
pub fn process_forks_from_env_value(value: Option<&str>, sud_only: bool) -> (result: Result<
    bool,
    UnsupportedValue,
>)
    ensures
        match switch_value(text_of(value), true) {
            Some(selected) => result == Ok::<bool, UnsupportedValue>(selected && !sud_only),
            None => result is Err && (result->Err_0).variable == PROCESS_FORK_ENV && value is Some
                && (result->Err_0).value@ == (value->0)@,
        },
{
    match switch(PROCESS_FORK_ENV, value, true) {
        Ok(selected) => Ok(selected && !sud_only),
        Err(error) => Err(error),
    }
}

/// Refuses the launch path that is not supported, if its variable is set.
pub fn initialize_from_environment(value: Option<&str>) -> (result: Result<(), UnsupportedValue>)
    ensures
        match value {
            None => result is Ok,
            Some(value) => result is Err && (result->Err_0).variable == TOOL_ENV && (
            result->Err_0).value@ == value@,
        },
{
    match value {
        None => Ok(()),
        Some(value) => Err(
            UnsupportedValue { variable: TOOL_ENV, value: String::from_str(value) },
        ),
    }
}

/// Whether the runtime owns the context of its thread: where nothing may be patched,
/// subscribed instructions and owned system calls need it.
pub fn owns_context(sud_only: bool, instructions: InstructionSubscriptions, syscalls: bool) -> (
    result: bool)
    ensures
        result == (sud_only && (instructions.cpuid || instructions.rdtsc || syscalls)),
{
    sud_only && (instructions.cpuid || instructions.rdtsc || syscalls)
}

/// Whether the runtime can be installed: an owned context needs the alternate stack.
pub fn alt_stack_suffices(owned: bool, use_alt_stack: bool) -> (result: bool)
    ensures
        result == (owned ==> use_alt_stack),
{
    !owned || use_alt_stack
}

/// No value both selects and deselects the alternate stack.
pub proof fn selections_are_distinct(word: Seq<char>)
    ensures
        !(is_affirmative(word) && is_negative(word)),
{
    reveal_strlit("1");
    reveal_strlit("true");
    reveal_strlit("on");
    reveal_strlit("yes");
    reveal_strlit("0");
    reveal_strlit("false");
    reveal_strlit("off");
    reveal_strlit("no");
    assert("1"@.len() == 1 && "0"@.len() == 1 && "on"@.len() == 2 && "no"@.len() == 2);
    assert("yes"@.len() == 3 && "off"@.len() == 3 && "true"@.len() == 4 && "false"@.len() == 5);
    assert("1"@[0] != "0"@[0]);
    assert("on"@[0] != "no"@[0]);
    assert("yes"@[0] != "off"@[0]);
}

} // verus!
