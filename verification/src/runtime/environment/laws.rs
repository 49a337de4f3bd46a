//! What reading the settings promises.

use vstd::prelude::*;

use crate::runtime::environment::alt_stack_from_env_value;
use crate::runtime::environment::alt_stack_suffices;
use crate::runtime::environment::initialize_from_environment;
use crate::runtime::environment::is_white;
use crate::runtime::environment::lower;
use crate::runtime::environment::owns_context;
use crate::runtime::environment::process_forks_from_env_value;
use crate::runtime::environment::selections_are_distinct;
use crate::runtime::environment::stage_stream_from_env_value;
use crate::runtime::environment::trim_end;
use crate::runtime::environment::trim_start;
use crate::runtime::environment::word_of;
use crate::runtime::environment::UnsupportedValue;
use crate::runtime::instructions::InstructionSubscriptions;

verus! {

/// The blanks of Unicode: tab to carriage return, space, next line, and the wide and narrow
/// spaces and separators.
pub open spec fn is_blank(character: char) -> bool {
    let code = character as int;
    code == 9 || code == 10 || code == 11 || code == 12 || code == 13 || code == 32 || code == 133
        || code == 160 || code == 5760 || (8192 <= code <= 8202) || code == 8232 || code == 8233
        || code == 8239 || code == 8287 || code == 12288
}

/// Two characters are the same but for the case of an ASCII letter.
pub open spec fn same_letter(left: char, right: char) -> bool {
    ||| left == right
    ||| 65 <= left as int <= 90 && right as int == left as int + 32
    ||| 65 <= right as int <= 90 && left as int == right as int + 32
}

proof fn leading_blanks_are_trimmed(before: Seq<char>, text: Seq<char>)
    requires
        forall|i: int| 0 <= i < before.len() ==> is_blank(#[trigger] before[i]),
    ensures
        trim_start(before + text) == trim_start(text),
    decreases before.len(),
{
    if before.len() > 0 {
        assert(is_blank(before[0]));
        assert((before + text)[0] == before[0]);
        assert((before + text).skip(1) =~= before.skip(1) + text);
        leading_blanks_are_trimmed(before.skip(1), text);
    } else {
        assert(before + text =~= text);
    }
}

proof fn trailing_blanks_are_trimmed(text: Seq<char>, after: Seq<char>)
    requires
        forall|i: int| 0 <= i < after.len() ==> is_blank(#[trigger] after[i]),
    ensures
        trim_end(text + after) == trim_end(text),
    decreases after.len(),
{
    if after.len() > 0 {
        assert(is_blank(after[after.len() - 1]));
        assert((text + after).last() == after.last());
        assert((text + after).drop_last() =~= text + after.drop_last());
        trailing_blanks_are_trimmed(text, after.drop_last());
    } else {
        assert(text + after =~= text);
    }
}

proof fn starts_are_trimmed_alike(text: Seq<char>, after: Seq<char>)
    requires
        forall|i: int| 0 <= i < after.len() ==> is_blank(#[trigger] after[i]),
    ensures
        trim_end(trim_start(text + after)) == trim_end(trim_start(text)),
    decreases text.len(),
{
    if text.len() == 0 {
        assert(text + after =~= after);
        leading_blanks_are_trimmed(after, text);
        assert(after + text =~= after);
    } else if is_white(text[0]) {
        assert((text + after)[0] == text[0]);
        assert((text + after).skip(1) =~= text.skip(1) + after);
        starts_are_trimmed_alike(text.skip(1), after);
    } else {
        assert((text + after)[0] == text[0]);
        trailing_blanks_are_trimmed(text, after);
    }
}

proof fn letters_are_blank_alike(left: char, right: char)
    requires
        same_letter(left, right),
    ensures
        is_white(left) == is_white(right),
        lower(left) == lower(right),
{
}

proof fn cases_are_trimmed_alike(left: Seq<char>, right: Seq<char>)
    requires
        left.len() == right.len(),
        forall|i: int| 0 <= i < left.len() ==> same_letter(#[trigger] left[i], right[i]),
    ensures
        trim_start(left).len() == trim_start(right).len(),
        forall|i: int|
            0 <= i < trim_start(left).len() ==> same_letter(
                #[trigger] trim_start(left)[i],
                trim_start(right)[i],
            ),
    decreases left.len(),
{
    if left.len() > 0 {
        letters_are_blank_alike(left[0], right[0]);
        if is_white(left[0]) {
            cases_are_trimmed_alike(left.skip(1), right.skip(1));
        }
    }
}

proof fn cases_end_alike(left: Seq<char>, right: Seq<char>)
    requires
        left.len() == right.len(),
        forall|i: int| 0 <= i < left.len() ==> same_letter(#[trigger] left[i], right[i]),
    ensures
        trim_end(left).len() == trim_end(right).len(),
        forall|i: int|
            0 <= i < trim_end(left).len() ==> same_letter(
                #[trigger] trim_end(left)[i],
                trim_end(right)[i],
            ),
    decreases left.len(),
{
    if left.len() > 0 {
        assert(same_letter(left[left.len() - 1], right[right.len() - 1]));
        letters_are_blank_alike(left.last(), right.last());
        if is_white(left.last()) {
            cases_end_alike(left.drop_last(), right.drop_last());
        }
    }
}

/// Blanks around a value do not matter.
pub proof fn blanks_do_not_matter(
    value: &str,
    padded: &str,
    before: Seq<char>,
    after: Seq<char>,
    result: Result<bool, UnsupportedValue>,
    padded_result: Result<bool, UnsupportedValue>,
)
    requires
        forall|i: int| 0 <= i < before.len() ==> is_blank(#[trigger] before[i]),
        forall|i: int| 0 <= i < after.len() ==> is_blank(#[trigger] after[i]),
        padded@ == before + (value@ + after),
        call_ensures(alt_stack_from_env_value, (Some(value),), result),
        call_ensures(alt_stack_from_env_value, (Some(padded),), padded_result),
    ensures
        result is Ok <==> padded_result is Ok,
        result is Ok ==> result->Ok_0 == padded_result->Ok_0,
{
    leading_blanks_are_trimmed(before, value@ + after);
    starts_are_trimmed_alike(value@, after);
}

/// The case of a value does not matter.
pub proof fn case_does_not_matter(
    value: &str,
    other: &str,
    result: Result<bool, UnsupportedValue>,
    other_result: Result<bool, UnsupportedValue>,
)
    requires
        value@.len() == other@.len(),
        forall|i: int| 0 <= i < value@.len() ==> same_letter(#[trigger] value@[i], other@[i]),
        call_ensures(alt_stack_from_env_value, (Some(value),), result),
        call_ensures(alt_stack_from_env_value, (Some(other),), other_result),
    ensures
        result is Ok <==> other_result is Ok,
        result is Ok ==> result->Ok_0 == other_result->Ok_0,
{
    cases_are_trimmed_alike(value@, other@);
    cases_end_alike(trim_start(value@), trim_start(other@));
    assert(word_of(value@) =~= word_of(other@));
}

proof fn plain_words_are_themselves(word: Seq<char>)
    requires
        word.len() > 0,
        forall|i: int|
            0 <= i < word.len() ==> !is_white(#[trigger] word[i]) && lower(word[i]) == word[i],
    ensures
        word_of(word) == word,
{
    assert(word_of(word) =~= word);
}

/// Unset, and by four words, the alternate stack is selected; by four others it is not.
pub proof fn eight_words_select(value: &str, result: Result<bool, UnsupportedValue>)
    requires
        call_ensures(alt_stack_from_env_value, (Some(value),), result),
    ensures
        value@ == seq!['1'] || value@ == seq!['o', 'n'] || value@ == seq!['y', 'e', 's'] || value@
            == seq!['t', 'r', 'u', 'e'] ==> result == Ok::<bool, UnsupportedValue>(true),
        value@ == seq!['0'] || value@ == seq!['n', 'o'] || value@ == seq!['o', 'f', 'f'] || value@
            == seq!['f', 'a', 'l', 's', 'e'] ==> result == Ok::<bool, UnsupportedValue>(false),
        value@.len() == 0 ==> result is Err,
        value@.len() > 5 && !is_blank(value@[0]) && !is_blank(value@.last()) ==> result is Err,
        result matches Err(error) ==> error.value@ == value@,
{
    reveal_strlit("1");
    reveal_strlit("true");
    reveal_strlit("on");
    reveal_strlit("yes");
    reveal_strlit("0");
    reveal_strlit("false");
    reveal_strlit("off");
    reveal_strlit("no");
    assert("1"@ =~= seq!['1'] && "on"@ =~= seq!['o', 'n'] && "yes"@ =~= seq!['y', 'e', 's']
        && "true"@ =~= seq!['t', 'r', 'u', 'e']);
    assert("0"@ =~= seq!['0'] && "no"@ =~= seq!['n', 'o'] && "off"@ =~= seq!['o', 'f', 'f']
        && "false"@ =~= seq!['f', 'a', 'l', 's', 'e']);
    if value@ == seq!['1'] || value@ == seq!['o', 'n'] || value@ == seq!['y', 'e', 's'] || value@
        == seq!['t', 'r', 'u', 'e'] || value@ == seq!['0'] || value@ == seq!['n', 'o'] || value@
        == seq!['o', 'f', 'f'] || value@ == seq!['f', 'a', 'l', 's', 'e'] {
        plain_words_are_themselves(value@);
    }
    assert(value@.len() == 0 ==> word_of(value@).len() == 0);
    selections_are_distinct(word_of(value@));
}

/// Unset, the alternate stack is used.
pub proof fn the_alternate_stack_is_the_default(result: Result<bool, UnsupportedValue>)
    requires
        call_ensures(alt_stack_from_env_value, (None::<&str>,), result),
    ensures
        result == Ok::<bool, UnsupportedValue>(true),
{
}

/// A switch is exactly `0` or `1`: markers are off and forks allowed unless it says
/// otherwise, and forks never are where nothing may be patched.
pub proof fn switches_are_zero_or_one(
    value: &str,
    sud_only: bool,
    markers: Result<bool, UnsupportedValue>,
    forks: Result<bool, UnsupportedValue>,
    unset_markers: Result<bool, UnsupportedValue>,
    unset_forks: Result<bool, UnsupportedValue>,
)
    requires
        call_ensures(stage_stream_from_env_value, (Some(value),), markers),
        call_ensures(process_forks_from_env_value, (Some(value), sud_only), forks),
        call_ensures(stage_stream_from_env_value, (None::<&str>,), unset_markers),
        call_ensures(process_forks_from_env_value, (None::<&str>, sud_only), unset_forks),
    ensures
        unset_markers == Ok::<bool, UnsupportedValue>(false),
        unset_forks == Ok::<bool, UnsupportedValue>(!sud_only),
        value@ == seq!['0'] ==> markers == Ok::<bool, UnsupportedValue>(false) && forks == Ok::<
            bool,
            UnsupportedValue,
        >(false),
        value@ == seq!['1'] ==> markers == Ok::<bool, UnsupportedValue>(true) && forks == Ok::<
            bool,
            UnsupportedValue,
        >(!sud_only),
        value@ != seq!['0'] && value@ != seq!['1'] ==> markers is Err && forks is Err,
        markers matches Err(error) ==> error.value@ == value@,
        forks matches Err(error) ==> error.value@ == value@,
{
    reveal_strlit("0");
    reveal_strlit("1");
    assert("0"@ =~= seq!['0'] && "1"@ =~= seq!['1']);
    assert("0"@[0] != "1"@[0]);
}

/// The launch path that is not supported is refused whatever its variable says.
pub proof fn other_launch_paths_are_refused(
    value: Option<&str>,
    result: Result<(), UnsupportedValue>,
)
    requires
        call_ensures(initialize_from_environment, (value,), result),
    ensures
        result is Ok <==> value is None,
        result matches Err(error) ==> error.value@ == (value->0)@,
{
}

/// A context is owned only without patching, and only where something is to be intercepted;
/// it needs the alternate stack.
pub proof fn owned_contexts_need_the_alternate_stack(
    sud_only: bool,
    instructions: InstructionSubscriptions,
    syscalls: bool,
    use_alt_stack: bool,
    owned: bool,
    suffices: bool,
)
    requires
        call_ensures(owns_context, (sud_only, instructions, syscalls), owned),
        call_ensures(alt_stack_suffices, (owned, use_alt_stack), suffices),
    ensures
        !sud_only ==> !owned,
        sud_only && (syscalls || instructions.cpuid || instructions.rdtsc) ==> owned,
        !syscalls && !instructions.cpuid && !instructions.rdtsc ==> !owned,
        suffices <==> !owned || use_alt_stack,
{
}

} // verus!
