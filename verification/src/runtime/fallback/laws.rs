//! What counting unrouted calls promises.

use vstd::prelude::*;

use crate::runtime::fallback::fallback_dispatch_count;
use crate::runtime::fallback::fallback_syscall_count;
use crate::runtime::fallback::record_fallback_dispatch;
use crate::runtime::fallback::reset_fallback_observability;
use crate::runtime::fallback::FallbackCounters;
use crate::runtime::sites::SiteTable;

verus! {

/// One call is one more in all and one more for its own number, if that is below 512; no
/// other number counts it.
pub proof fn calls_are_counted_once(
    counters: &mut FallbackCounters,
    number: i64,
    other: i64,
    total_before: u64,
    total_after: u64,
    own_before: u64,
    own_after: u64,
    other_before: u64,
    other_after: u64,
)
    requires
        other != number,
        old(counters)@.by_number.len() == 512,
        call_ensures(fallback_dispatch_count, (&*old(counters),), total_before),
        call_ensures(fallback_syscall_count, (&*old(counters), number), own_before),
        call_ensures(fallback_syscall_count, (&*old(counters), other), other_before),
        call_ensures(record_fallback_dispatch, (counters, number), ()),
        call_ensures(fallback_dispatch_count, (&*final(counters),), total_after),
        call_ensures(fallback_syscall_count, (&*final(counters), number), own_after),
        call_ensures(fallback_syscall_count, (&*final(counters), other), other_after),
    ensures
        (total_after - total_before - 1) % 0x1_0000_0000_0000_0000 == 0,
        0 <= number < 512 ==> (own_after - own_before - 1) % 0x1_0000_0000_0000_0000 == 0,
        !(0 <= number < 512) ==> own_after == 0 && own_before == 0,
        other_after == other_before,
{
}

/// The counters are the same whichever way they are asked and recorded, and start over at
/// nothing, with the sites keeping what is installed.
pub proof fn counters_start_over(
    counters: &mut FallbackCounters,
    table: &mut SiteTable,
    number: i64,
    total: u64,
    count: u64,
    slot: int,
)
    requires
        call_ensures(reset_fallback_observability, (counters, table), ()),
        call_ensures(FallbackCounters::total, (&*final(counters),), total),
        call_ensures(FallbackCounters::by_number, (&*final(counters), number), count),
        0 <= slot < old(table)@.len(),
    ensures
        total == 0,
        count == 0,
        final(table)@.len() == old(table)@.len(),
        final(table)@[slot].trap_count == 0,
        final(table)@[slot].hook_count == 0,
        final(table)@[slot].address == old(table)@[slot].address,
        final(table)@[slot].state == old(table)@[slot].state,
        final(table)@[slot].hook == old(table)@[slot].hook,
{
}

/// Both ways of recording and of asking agree.
pub proof fn counters_agree_with_their_methods(
    counters: &mut FallbackCounters,
    twin: &mut FallbackCounters,
    number: i64,
    asked: i64,
    total: u64,
    count: u64,
    same_total: u64,
    same_count: u64,
)
    requires
        old(twin)@ == old(counters)@,
        call_ensures(record_fallback_dispatch, (counters, number), ()),
        call_ensures(FallbackCounters::record, (twin, number), ()),
        call_ensures(fallback_dispatch_count, (&*final(counters),), total),
        call_ensures(fallback_syscall_count, (&*final(counters), asked), count),
        call_ensures(FallbackCounters::total, (&*final(twin),), same_total),
        call_ensures(FallbackCounters::by_number, (&*final(twin), asked), same_count),
    ensures
        total == same_total,
        count == same_count,
{
}

/// Fresh counters, and counters that were reset, have counted nothing.
pub proof fn fresh_counters_have_counted_nothing(
    counters: &mut FallbackCounters,
    fresh: FallbackCounters,
    number: i64,
    total: u64,
    count: u64,
    fresh_total: u64,
    fresh_count: u64,
)
    requires
        call_ensures(FallbackCounters::new, (), fresh),
        call_ensures(FallbackCounters::reset, (counters,), ()),
        call_ensures(FallbackCounters::total, (&*final(counters),), total),
        call_ensures(FallbackCounters::by_number, (&*final(counters), number), count),
        call_ensures(FallbackCounters::total, (&fresh,), fresh_total),
        call_ensures(FallbackCounters::by_number, (&fresh, number), fresh_count),
    ensures
        total == 0 && count == 0 && fresh_total == 0 && fresh_count == 0,
{
}

} // verus!
