//! What the table of sites promises.

use vstd::prelude::*;

use crate::runtime::sites::claim;
use crate::runtime::sites::first_match;
use crate::runtime::sites::hash_of;
use crate::runtime::sites::lookup;
use crate::runtime::sites::match_is_inside;
use crate::runtime::sites::reported_sites;
use crate::runtime::sites::slot_of;
use crate::runtime::sites::step_wraps;
use crate::runtime::sites::total_hooks;
use crate::runtime::sites::well_formed;
use crate::runtime::sites::HASH_MULTIPLIER;
use crate::runtime::sites::Site;
use crate::runtime::sites::SiteState;
use crate::runtime::sites::SiteStats;
use crate::runtime::sites::SiteTable;
use crate::syscall_mode::counted;

verus! {

proof fn searches_see_every_slot(address: u64, slot: int, len: nat) -> (offset: int)
    requires
        0 <= slot < len,
    ensures
        0 <= offset < len,
        slot_of(address, offset, len) == slot,
{
    let start = hash_of(address, len);
    assert(0 <= start < len) by (nonlinear_arith)
        requires
            len > 0,
            start == ((address / 2) as int * HASH_MULTIPLIER % 0x1_0000_0000_0000_0000) as u64
                as usize as int % len as int,
    ;
    let offset = if slot >= start {
        slot - start
    } else {
        slot - start + len
    };
    step_wraps(start, offset, len as int);
    offset
}

proof fn failed_searches_saw_no_match(
    sites: Seq<Site>,
    address: u64,
    from: int,
    offset: int,
)
    requires
        0 <= from <= offset < sites.len(),
        first_match(sites, address, from) is None,
    ensures
        ({
            let slot = slot_of(address, offset, sites.len());
            sites[slot].address != address && sites[slot].address != 0
        }),
    decreases offset - from,
{
    if from < offset {
        failed_searches_saw_no_match(sites, address, from + 1, offset);
    }
}

/// What a claim says of the table that it leaves.
pub proof fn claims_take_one_slot(sites: Seq<Site>, address: u64)
    requires
        address != 0,
    ensures
        ({
            let (after, result) = claim(sites, address);
            &&& after.len() == sites.len()
            &&& result is None ==> after == sites
            &&& result matches Some((slot, claimed)) ==> {
                &&& 0 <= slot < sites.len()
                &&& after[slot].address == address
                &&& claimed <==> sites[slot].address == 0 || sites[slot].state == SiteState::Stale
                &&& claimed ==> after[slot] == (Site {
                    address,
                    state: SiteState::Installing,
                    ..sites[slot]
                })
                &&& !claimed ==> after == sites
                &&& forall|i: int|
                    0 <= i < sites.len() && i != slot ==> #[trigger] after[i] == sites[i]
            }
        }),
{
    match_is_inside(sites, address, 0);
}

/// A claim is refused only where the address has no slot and no slot is free.
pub proof fn only_full_tables_refuse(
    table: &mut SiteTable,
    address: u64,
    result: Option<(usize, bool)>,
    slot: int,
)
    requires
        address != 0,
        0 <= slot < old(table)@.len(),
        call_ensures(SiteTable::claim_site, (table, address), result),
    ensures
        result is None ==> old(table)@[slot].address != address && old(table)@[slot].address != 0,
        result is None ==> final(table)@ == old(table)@,
{
    if result is None {
        assert(first_match(old(table)@, address, 0) is None);
        let offset = searches_see_every_slot(address, slot, old(table)@.len());
        failed_searches_saw_no_match(old(table)@, address, 0, offset);
    }
}

/// A claimed slot holds the address. Whoever takes a free slot, or one whose code was mapped
/// anew, has to install; anyone else changes nothing. No other slot changes.
pub proof fn claimed_slots_hold_the_address(
    table: &mut SiteTable,
    address: u64,
    slot: usize,
    claimed: bool,
    other: int,
)
    requires
        address != 0,
        call_ensures(SiteTable::claim_site, (table, address), Some((slot, claimed))),
    ensures
        slot < old(table)@.len(),
        final(table)@.len() == old(table)@.len(),
        final(table)@[slot as int].address == address,
        claimed <==> old(table)@[slot as int].address == 0 || old(table)@[slot as int].state
            == SiteState::Stale,
        claimed ==> final(table)@[slot as int].state == SiteState::Installing
            && final(table)@[slot as int].hook == old(table)@[slot as int].hook && final(table)@[
            slot as int
        ].trap_count == old(table)@[slot as int].trap_count && final(table)@[
            slot as int
        ].hook_count == old(table)@[slot as int].hook_count,
        !claimed ==> final(table)@ == old(table)@,
        0 <= other < old(table)@.len() && other != slot ==> final(table)@[other]
            == old(table)@[other],
{
    claims_take_one_slot(old(table)@, address);
}

/// An address is found exactly where a slot holds it.
pub proof fn addresses_are_found_where_they_are(
    table: SiteTable,
    address: u64,
    found: Option<usize>,
    slot: int,
)
    requires
        address != 0,
        0 <= slot < table@.len(),
        call_ensures(SiteTable::find_site, (&table, address), found),
    ensures
        found matches Some(index) ==> index < table@.len() && table@[index as int].address
            == address,
        table@[slot].address == address <==> (found matches Some(index) && index == slot),
{
    match_is_inside(table@, address, 0);
}

/// A new table has room and nothing else.
pub proof fn new_tables_are_free(
    len: usize,
    table: SiteTable,
    size: usize,
    index: usize,
    site: Site,
)
    requires
        index < len,
        call_ensures(SiteTable::new, (len,), table),
        call_ensures(SiteTable::len, (&table,), size),
        call_ensures(SiteTable::site, (&table, index), site),
    ensures
        size == len,
        site.address == 0,
        site.state == SiteState::Empty,
        site.hook == 0,
        site.trap_count == 0,
        site.hook_count == 0,
{
}

/// A range that is mapped anew makes exactly the sites stale that lie in it and were settled;
/// those that are being installed stay so, and learn the new end.
pub proof fn exactly_the_range_is_staled(
    table: &mut SiteTable,
    start: u64,
    len: u64,
    replacement_end: u64,
    slot: int,
)
    requires
        0 <= slot < old(table)@.len(),
        call_ensures(
            SiteTable::mark_site_range_stale,
            (table, start, len, replacement_end),
            (),
        ),
    ensures
        final(table)@.len() == old(table)@.len(),
        ({
            let before = old(table)@[slot];
            let after = final(table)@[slot];
            let inside = start + len <= u64::MAX && start <= before.address < start + len;
            &&& !inside ==> after == before
            &&& inside ==> after.mapping_end == replacement_end
            &&& inside && (before.state == SiteState::Active || before.state == SiteState::Fallback)
                ==> after.state == SiteState::Stale
            &&& !(before.state == SiteState::Active || before.state == SiteState::Fallback)
                ==> after.state == before.state
            &&& after == (Site {
                state: after.state,
                mapping_end: after.mapping_end,
                ..before
            })
        }),
{
}

/// Only a change of the mappings that succeeded is followed, and only where it took effect.
pub proof fn mappings_are_followed_where_they_changed(
    table: &mut SiteTable,
    number: i64,
    args: [u64; 6],
    result: i64,
    slot: int,
)
    requires
        0 <= slot < old(table)@.len(),
        call_ensures(
            SiteTable::observe_mapping_generation,
            (table, number, &args, result),
            (),
        ),
    ensures
        final(table)@.len() == old(table)@.len(),
        ({
            let before = old(table)@[slot];
            let after = final(table)@[slot];
            let at = before.address;
            let settled = before.state == SiteState::Active || before.state == SiteState::Fallback;
            let mapped = number == 9 && result <= at < result + args@[1] && result + args@[1]
                <= u64::MAX;
            let unmapped = number == 11 && args@[0] <= at < args@[0] + args@[1] && args@[0]
                + args@[1] <= u64::MAX;
            let moved_from = number == 25 && args@[0] <= at < args@[0] + args@[1] && args@[0]
                + args@[1] <= u64::MAX;
            let moved_to = number == 25 && result <= at < result + args@[2] && result + args@[2]
                <= u64::MAX;
            &&& result < 0 ==> after == before
            &&& result >= 0 && !mapped && !unmapped && !moved_from && !moved_to ==> after == before
            &&& result >= 0 && settled && (mapped || unmapped || moved_from || moved_to)
                ==> after.state == SiteState::Stale
            &&& !settled ==> after.state == before.state
            &&& result >= 0 && mapped ==> after.mapping_end == result + args@[1]
            &&& result >= 0 && unmapped ==> after.mapping_end == 0
            &&& result >= 0 && moved_from && !moved_to ==> after.mapping_end == 0
            &&& result >= 0 && moved_to ==> after.mapping_end == result + args@[2]
            &&& after.address == before.address
            &&& after.hook == before.hook
            &&& after.trap_count == before.trap_count
            &&& after.hook_count == before.hook_count
        }),
{
    let raw = result as u64;
    assert(result >= 0i64 ==> raw == result);
}

/// Counting a trap counts one, at its slot, and changes nothing else.
pub proof fn traps_count_one(table: &mut SiteTable, index: usize, other: int)
    requires
        index < old(table)@.len(),
        0 <= other < old(table)@.len(),
        call_ensures(SiteTable::record_trap, (table, index), ()),
    ensures
        (final(table)@[index as int].trap_count - old(table)@[index as int].trap_count - 1)
            % 0x1_0000_0000_0000_0000 == 0,
        final(table)@[index as int] == (Site {
            trap_count: final(table)@[index as int].trap_count,
            ..old(table)@[index as int]
        }),
        other != index ==> final(table)@[other] == old(table)@[other],
{
}

/// A run of a hook counts one at the site of its address, and nowhere else.
pub proof fn hooks_count_one_at_their_address(
    table: &mut SiteTable,
    address: u64,
    slot: int,
)
    requires
        well_formed(old(table)@),
        address != 0,
        0 <= slot < old(table)@.len(),
        call_ensures(SiteTable::record_fork_child_direct_hook, (table, address), ()),
    ensures
        old(table)@[slot].address != address ==> final(table)@[slot] == old(table)@[slot],
        old(table)@[slot].address == address ==> (final(table)@[slot].hook_count
            - old(table)@[slot].hook_count - 1) % 0x1_0000_0000_0000_0000 == 0,
        final(table)@[slot] == (Site {
            hook_count: final(table)@[slot].hook_count,
            ..old(table)@[slot]
        }),
        final(table)@.len() == old(table)@.len(),
{
    let before = old(table)@;
    let found = lookup(before, address);
    match_is_inside(before, address, 0);
    assert(before[slot].address == address ==> found == Some(slot));
    runs_count_one_where_found(before, final(table)@, found, slot);
}

proof fn runs_count_one_where_found(
    before: Seq<Site>,
    after: Seq<Site>,
    found: Option<int>,
    slot: int,
)
    requires
        0 <= slot < before.len(),
        found matches Some(at) ==> 0 <= at < before.len(),
        after == match found {
            Some(at) => before.update(
                at,
                Site { hook_count: counted(before[at].hook_count), ..before[at] },
            ),
            None => before,
        },
    ensures
        found != Some(slot) ==> after[slot] == before[slot],
        found == Some(slot) ==> (after[slot].hook_count - before[slot].hook_count - 1)
            % 0x1_0000_0000_0000_0000 == 0,
        after[slot] == (Site { hook_count: after[slot].hook_count, ..before[slot] }),
        after.len() == before.len(),
{
}

/// The counts of a site are those of its slot; an address without one was never reached.
pub proof fn counts_are_those_of_the_site(
    table: SiteTable,
    address: u64,
    counts: (u64, u64),
    slot: int,
)
    requires
        well_formed(table@),
        address != 0,
        0 <= slot < table@.len(),
        call_ensures(SiteTable::site_counts, (&table, address), counts),
    ensures
        table@[slot].address == address ==> counts.0 == table@[slot].trap_count && counts.1
            == table@[slot].hook_count,
        (forall|i: int| 0 <= i < table@.len() ==> (#[trigger] table@[i]).address != address)
            ==> counts == (0u64, 0u64),
{
    match_is_inside(table@, address, 0);
}

/// What is found out about a claimed site is kept with it, and each finding changes only
/// what it is about.
pub proof fn findings_are_kept_with_their_site(
    ended: &mut SiteTable,
    coded: &mut SiteTable,
    activated: &mut SiteTable,
    failed: &mut SiteTable,
    index: usize,
    mapping_end: u64,
    instruction_len: u8,
    straddle_prefix: u8,
    hook: u64,
    other: int,
)
    requires
        index < old(ended)@.len(),
        old(coded)@ == old(ended)@,
        old(activated)@ == old(ended)@,
        old(failed)@ == old(ended)@,
        0 <= other < old(ended)@.len(),
        call_ensures(SiteTable::record_mapping_end, (ended, index, mapping_end), ()),
        call_ensures(
            SiteTable::record_code,
            (coded, index, instruction_len, straddle_prefix),
            (),
        ),
        call_ensures(SiteTable::activate, (activated, index, hook), ()),
        call_ensures(SiteTable::fail, (failed, index), ()),
    ensures
        ({
            let before = old(ended)@[index as int];
            &&& final(ended)@[index as int] == (Site { mapping_end, ..before })
            &&& final(coded)@[index as int].instruction_len == instruction_len
            &&& final(coded)@[index as int].straddle_prefix == straddle_prefix
            &&& final(coded)@[index as int].state == before.state
            &&& final(activated)@[index as int].state == SiteState::Active
            &&& final(activated)@[index as int].hook == hook
            &&& final(activated)@[index as int].address == before.address
            &&& final(failed)@[index as int].state == SiteState::Fallback
            &&& final(failed)@[index as int].address == before.address
            &&& final(failed)@[index as int].hook == before.hook
        }),
        other != index ==> final(ended)@[other] == old(ended)@[other] && final(coded)@[other]
            == old(ended)@[other] && final(activated)@[other] == old(ended)@[other]
            && final(failed)@[other] == old(ended)@[other],
{
}

/// A forked child starts every count over and keeps what is installed.
pub proof fn children_count_from_zero(table: &mut SiteTable, slot: int)
    requires
        0 <= slot < old(table)@.len(),
        call_ensures(SiteTable::reset_site_observability, (table,), ()),
    ensures
        final(table)@.len() == old(table)@.len(),
        final(table)@[slot].trap_count == 0,
        final(table)@[slot].hook_count == 0,
        final(table)@[slot].address == old(table)@[slot].address,
        final(table)@[slot].state == old(table)@[slot].state,
        final(table)@[slot].hook == old(table)@[slot].hook,
        final(table)@[slot].mapping_end == old(table)@[slot].mapping_end,
{
}

proof fn reports_name_reached_sites(sites: Seq<Site>, slot: int, reported: int)
    ensures
        0 <= slot < sites.len() && (sites[slot].trap_count != 0 || sites[slot].hook_count != 0)
            ==> exists|i: int|
            0 <= i < reported_sites(sites).len() && is_report_of(
                #[trigger] reported_sites(sites)[i],
                sites[slot],
            ),
        0 <= reported < reported_sites(sites).len() ==> exists|i: int|
            0 <= i < sites.len() && (sites[i].trap_count != 0 || sites[i].hook_count != 0)
                && is_report_of(reported_sites(sites)[reported], #[trigger] sites[i]),
        reported_sites(sites).len() <= sites.len(),
    decreases sites.len(),
{
    if sites.len() > 0 {
        let before = sites.drop_last();
        reports_name_reached_sites(before, slot, reported);
        let all = reported_sites(sites);
        let some = reported_sites(before);
        assert(forall|i: int| 0 <= i < some.len() ==> all[i] == some[i]);
        assert(forall|i: int| 0 <= i < before.len() ==> before[i] == sites[i]);
        if 0 <= slot < before.len() && (sites[slot].trap_count != 0 || sites[slot].hook_count
            != 0) {
            let i = choose|i: int|
                0 <= i < some.len() && is_report_of(#[trigger] some[i], before[slot]);
            assert(is_report_of(all[i], sites[slot]));
        }
        let last = sites.last();
        if slot == before.len() && (last.trap_count != 0 || last.hook_count != 0) {
            assert(is_report_of(all[all.len() - 1], sites[slot]));
        }
        if 0 <= reported < some.len() {
            let i = choose|i: int|
                0 <= i < before.len() && (before[i].trap_count != 0 || before[i].hook_count != 0)
                    && is_report_of(some[reported], #[trigger] before[i]);
            assert(is_report_of(all[reported], sites[i]));
        } else if reported == some.len() && reported < all.len() {
            assert(is_report_of(all[reported], sites[sites.len() - 1]));
        }
    }
}

/// A report says of a site where it is, whether it is patched, and what its code is like.
pub open spec fn is_report_of(report: SiteStats, site: Site) -> bool {
    &&& report.rip == site.address
    &&& report.patched <==> site.state == SiteState::Active
    &&& report.instruction_length == site.instruction_len
    &&& report.straddle_after == site.straddle_prefix
}

/// Exactly the sites that were reached are reported.
pub proof fn reached_sites_are_reported(
    table: SiteTable,
    stats: (u64, Vec<SiteStats>),
    slot: int,
    reported: int,
)
    requires
        call_ensures(SiteTable::submit_process_stats, (&table,), stats),
    ensures
        0 <= slot < table@.len() && (table@[slot].trap_count != 0 || table@[slot].hook_count != 0)
            ==> exists|i: int|
            0 <= i < stats.1@.len() && is_report_of(#[trigger] stats.1@[i], table@[slot]),
        0 <= reported < stats.1@.len() ==> exists|i: int|
            0 <= i < table@.len() && (table@[i].trap_count != 0 || table@[i].hook_count != 0)
                && is_report_of(stats.1@[reported], #[trigger] table@[i]),
        table@.len() == 0 ==> stats.0 == 0,
{
    reports_name_reached_sites(table@, slot, reported);
}

/// The runs of hooks add up: one more run anywhere is one more in all.
pub proof fn hook_runs_add_up(sites: Seq<Site>, slot: int, runs: u64)
    requires
        0 <= slot < sites.len(),
    ensures
        total_hooks(sites.update(slot, Site { hook_count: runs, ..sites[slot] }))
            + sites[slot].hook_count == total_hooks(sites) + runs,
        total_hooks(Seq::<Site>::empty()) == 0,
    decreases sites.len(),
{
    let changed = sites.update(slot, Site { hook_count: runs, ..sites[slot] });
    if slot == sites.len() - 1 {
        assert(changed.drop_last() =~= sites.drop_last());
    } else {
        hook_runs_add_up(sites.drop_last(), slot, runs);
        assert(changed.drop_last() =~= sites.drop_last().update(
            slot,
            Site { hook_count: runs, ..sites[slot] },
        ));
    }
}

} // verus!
