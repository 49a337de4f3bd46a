//! Counts of system calls that could not be routed.

use vstd::prelude::*;

pub mod laws;

use crate::runtime::sites::uncounted;
use crate::runtime::sites::Site;
use crate::runtime::sites::SiteTable;
use crate::syscall_mode::counted;

verus! {

/// Numbers below this one are counted one by one; any other only in the total.
pub const TRACKED_SYSCALLS: usize = 512;

/// Total and per-call counts. They wrap.
pub struct FallbackCounters {
    total: u64,
    by_number: [u64; 512],
}

#[verifier::ext_equal]
pub struct FallbackModel {
    pub total: u64,
    pub by_number: Seq<u64>,
}

impl View for FallbackCounters {
    type V = FallbackModel;

    closed spec fn view(&self) -> FallbackModel {
        FallbackModel { total: self.total, by_number: self.by_number@ }
    }
}

pub open spec fn is_tracked(number: i64) -> bool {
    0 <= number < TRACKED_SYSCALLS
}

/// Nothing was counted.
pub open spec fn uncounted_calls() -> FallbackModel {
    FallbackModel { total: 0, by_number: Seq::new(512, |i: int| 0u64) }
}

/// The counts after one more call.
pub open spec fn recorded(counters: FallbackModel, number: i64) -> FallbackModel {
    FallbackModel {
        total: counted(counters.total),
        by_number: if is_tracked(number) {
            counters.by_number.update(number as int, counted(counters.by_number[number as int]))
        } else {
            counters.by_number
        },
    }
}

pub open spec fn count_of(counters: FallbackModel, number: i64) -> u64 {
    if is_tracked(number) {
        counters.by_number[number as int]
    } else {
        0
    }
}

/// The counts after these calls.
pub open spec fn counts_after(calls: Seq<i64>) -> FallbackModel
    decreases calls.len(),
{
    if calls.len() == 0 {
        uncounted_calls()
    } else {
        recorded(counts_after(calls.drop_last()), calls.last())
    }
}

/// The counts are those of some calls.
pub open spec fn counts_calls(counters: FallbackModel) -> bool {
    exists|calls: Seq<i64>| counters == #[trigger] counts_after(calls)
}

impl FallbackCounters {
    #[verifier::type_invariant]
    spec fn sound(self) -> bool {
        counts_calls(self@)
    }

    pub fn new() -> (counters: Self)
        ensures
            counters@ == uncounted_calls(),
    {
        let by_number: [u64; 512] = [0;512];
        proof {
            let model = FallbackModel { total: 0, by_number: by_number@ };
            assert(model =~= uncounted_calls());
            assert(model == counts_after(Seq::empty()));
        }
        FallbackCounters { total: 0, by_number }
    }

    pub fn record(&mut self, number: i64)
        ensures
            final(self)@ == recorded(old(self)@, number),
    {
        proof {
            use_type_invariant(&*self);
        }
        let total: u64 = self.total.wrapping_add(1);
        let mut by_number: [u64; 512] = self.by_number;
        if 0 <= number && number < TRACKED_SYSCALLS as i64 {
            let index: usize = number as usize;
            by_number[index] = by_number[index].wrapping_add(1);
        }
        proof {
            let model = FallbackModel { total, by_number: by_number@ };
            let calls = choose|calls: Seq<i64>| self@ == #[trigger] counts_after(calls);
            assert(calls.push(number).drop_last() =~= calls);
            assert(model =~= recorded(self@, number));
            assert(model == counts_after(calls.push(number)));
        }
        *self = FallbackCounters { total, by_number };
    }

    pub fn total(&self) -> (total: u64)
        ensures
            total == self@.total,
            counts_calls(self@),
    {
        proof {
            use_type_invariant(self);
        }
        self.total
    }

    pub fn by_number(&self, number: i64) -> (count: u64)
        ensures
            count == count_of(self@, number),
            counts_calls(self@),
    {
        proof {
            use_type_invariant(self);
        }
        if 0 <= number && number < TRACKED_SYSCALLS as i64 {
            self.by_number[number as usize]
        } else {
            0
        }
    }

    pub fn reset(&mut self)
        ensures
            final(self)@ == uncounted_calls(),
    {
        *self = FallbackCounters::new();
    }
}

impl Default for FallbackCounters {
    fn default() -> (counters: Self)
        ensures
            counters@ == uncounted_calls(),
    {
        FallbackCounters::new()
    }
}

/// Records that one system call reached the surface on which calls fail closed.
pub fn record_fallback_dispatch(counters: &mut FallbackCounters, number: i64)
    ensures
        final(counters)@ == recorded(old(counters)@, number),
{
    counters.record(number);
}

/// The system calls that failed closed.
pub fn fallback_dispatch_count(counters: &FallbackCounters) -> (count: u64)
    ensures
        count == counters@.total,
{
    counters.total()
}

/// How often the system call of this number failed closed.
pub fn fallback_syscall_count(counters: &FallbackCounters, number: i64) -> (count: u64)
    ensures
        count == count_of(counters@, number),
{
    counters.by_number(number)
}

/// Starts all counts over, those of the calls and those of the sites, as a forked child
/// does: what it inherited is its parent's.
pub fn reset_fallback_observability(counters: &mut FallbackCounters, table: &mut SiteTable)
    ensures
        final(counters)@ == uncounted_calls(),
        final(table)@ == old(table)@.map_values(|site: Site| uncounted(site)),
{
    counters.reset();
    table.reset_site_observability();
}

/// Every call counts towards its own number and no other.
pub proof fn calls_count_for_their_number(counters: FallbackModel, number: i64, other: i64)
    requires
        counters.by_number.len() == TRACKED_SYSCALLS,
    ensures
        recorded(counters, number).total == counted(counters.total),
        count_of(recorded(counters, number), other) == if is_tracked(number) && other == number {
            counted(count_of(counters, other))
        } else {
            count_of(counters, other)
        },
{
}

/// How often a number occurs among calls.
pub open spec fn occurrences(calls: Seq<i64>, number: i64) -> nat
    decreases calls.len(),
{
    if calls.len() == 0 {
        0
    } else {
        occurrences(calls.drop_last(), number) + (if calls.last() == number {
            1nat
        } else {
            0
        })
    }
}

/// The total is the number of calls, and the count of a tracked number is how often it
/// was called, each up to a wrap.
pub proof fn counts_are_those_of_the_calls(calls: Seq<i64>, number: i64)
    requires
        is_tracked(number),
    ensures
        counts_after(calls).by_number.len() == TRACKED_SYSCALLS,
        counts_after(calls).total == calls.len() % 0x1_0000_0000_0000_0000,
        count_of(counts_after(calls), number) == occurrences(calls, number)
            % 0x1_0000_0000_0000_0000,
    decreases calls.len(),
{
    if calls.len() > 0 {
        counts_are_those_of_the_calls(calls.drop_last(), number);
    }
}

} // verus!
