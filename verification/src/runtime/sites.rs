//! The table of instruction sites: which of them are patched, and how often each was
//! reached.

use vstd::prelude::*;

pub mod laws;

use crate::syscall_mode::counted;
use crate::sys::SYS_MMAP;
use crate::sys::SYS_MREMAP;
use crate::sys::SYS_MUNMAP;

verus! {

/// Sites that a process can have.
pub const MAX_PATCH_SITES: usize = 4096;

/// The odd multiplier that spreads addresses over the table.
pub const HASH_MULTIPLIER: u64 = 0x9E37_79B9_7F4A_7C15;

#[derive(Clone, Copy, Debug, PartialEq, Eq, Structural)]
pub enum SiteState {
    /// The slot is free.
    Empty,
    /// The claimant is installing a hook.
    Installing,
    /// The hook is installed.
    Active,
    /// No hook could be installed.
    Fallback,
    /// The code was mapped anew since the site was claimed.
    Stale,
}

#[derive(Clone, Copy, Debug, PartialEq, Eq, Structural)]
pub struct Site {
    /// The address of the instruction, zero in a free slot.
    pub address: u64,
    pub state: SiteState,
    /// The address of the installed trampoline, zero without one.
    pub hook: u64,
    pub mapping_end: u64,
    pub trap_count: u64,
    pub hook_count: u64,
    pub instruction_len: u8,
    pub straddle_prefix: u8,
}

pub open spec fn empty_site() -> Site {
    Site {
        address: 0,
        state: SiteState::Empty,
        hook: 0,
        mapping_end: 0,
        trap_count: 0,
        hook_count: 0,
        instruction_len: 0,
        straddle_prefix: 0,
    }
}

/// Where the search for an address starts.
pub open spec fn hash_of(address: u64, len: nat) -> int {
    ((address / 2) as int * HASH_MULTIPLIER % 0x1_0000_0000_0000_0000) as u64 as usize as int
        % len as int
}

/// The slot that is looked at in a given step of the search.
pub open spec fn slot_of(address: u64, offset: int, len: nat) -> int {
    (hash_of(address, len) + offset) % (len as int)
}

/// The first slot, from a given step of the search on, that holds the address or is
/// free.
pub open spec fn first_match(sites: Seq<Site>, address: u64, offset: int) -> Option<int>
    decreases sites.len() - offset,
{
    if offset >= sites.len() {
        None
    } else {
        let slot = slot_of(address, offset, sites.len());
        if sites[slot].address == address || sites[slot].address == 0 {
            Some(slot)
        } else {
            first_match(sites, address, offset + 1)
        }
    }
}

/// The slot that holds an address.
pub open spec fn lookup(sites: Seq<Site>, address: u64) -> Option<int> {
    match first_match(sites, address, 0) {
        Some(slot) => if sites[slot].address == address {
            Some(slot)
        } else {
            None
        },
        None => None,
    }
}

/// Every site is found where its search leads, and a slot has a state exactly when it
/// holds a site.
pub open spec fn well_formed(sites: Seq<Site>) -> bool {
    &&& forall|i: int|
        0 <= i < sites.len() && #[trigger] sites[i].address != 0 ==> lookup(
            sites,
            sites[i].address,
        ) == Some(i)
    &&& forall|i: int|
        0 <= i < sites.len() ==> ((#[trigger] sites[i]).address == 0 <==> sites[i].state
            == SiteState::Empty)
}

/// The table after a claim, the slot, and whether the claimant has to install a hook.
/// A new site is claimed by the first to ask, a stale one is claimed anew.
pub open spec fn claim(sites: Seq<Site>, address: u64) -> (Seq<Site>, Option<(int, bool)>) {
    match first_match(sites, address, 0) {
        None => (sites, None),
        Some(slot) => if sites[slot].address == 0 {
            (
                sites.update(
                    slot,
                    Site { address, state: SiteState::Installing, ..sites[slot] },
                ),
                Some((slot, true)),
            )
        } else if sites[slot].state == SiteState::Stale {
            (
                sites.update(slot, Site { state: SiteState::Installing, ..sites[slot] }),
                Some((slot, true)),
            )
        } else {
            (sites, Some((slot, false)))
        },
    }
}

/// A site whose code was mapped anew, if it lies in `start..end`.
pub open spec fn staled(site: Site, start: u64, end: int, replacement_end: u64) -> Site {
    if start <= site.address < end {
        Site {
            mapping_end: replacement_end,
            state: if site.state == SiteState::Active || site.state == SiteState::Fallback {
                SiteState::Stale
            } else {
                site.state
            },
            ..site
        }
    } else {
        site
    }
}

/// All the sites, those in the range staled. A range that does not end changes none.
pub open spec fn range_staled(
    sites: Seq<Site>,
    start: u64,
    len: u64,
    replacement_end: u64,
) -> Seq<Site> {
    if start + len > u64::MAX {
        sites
    } else {
        sites.map_values(|site: Site| staled(site, start, start + len, replacement_end))
    }
}

pub open spec fn end_of(start: u64, len: u64) -> u64 {
    if start + len > u64::MAX {
        u64::MAX
    } else {
        (start + len) as u64
    }
}

/// What a successful change of the mappings does to the sites.
pub open spec fn mapping_observed(
    sites: Seq<Site>,
    number: i64,
    args: Seq<u64>,
    result: i64,
) -> Seq<Site> {
    if result < 0 {
        sites
    } else if number == SYS_MMAP {
        range_staled(sites, result as u64, args[1], end_of(result as u64, args[1]))
    } else if number == SYS_MUNMAP {
        range_staled(sites, args[0], args[1], 0)
    } else if number == SYS_MREMAP {
        range_staled(
            range_staled(sites, args[0], args[1], 0),
            result as u64,
            args[2],
            end_of(result as u64, args[2]),
        )
    } else {
        sites
    }
}

/// A site whose counts start over; what is installed stays.
pub open spec fn uncounted(site: Site) -> Site {
    Site { trap_count: 0, hook_count: 0, ..site }
}

pub open spec fn total_hooks(sites: Seq<Site>) -> nat
    decreases sites.len(),
{
    if sites.len() == 0 {
        0
    } else {
        total_hooks(sites.drop_last()) + sites.last().hook_count as nat
    }
}

/// What is reported of one site.
#[derive(Clone, Copy, Debug, PartialEq, Eq, Structural)]
pub struct SiteStats {
    pub rip: u64,
    pub patched: bool,
    pub instruction_length: u8,
    pub straddle_after: u8,
}

/// Of each site that was reached, in the order of the table.
pub open spec fn reported_sites(sites: Seq<Site>) -> Seq<SiteStats>
    decreases sites.len(),
{
    if sites.len() == 0 {
        Seq::empty()
    } else {
        let site = sites.last();
        let before = reported_sites(sites.drop_last());
        if site.trap_count != 0 || site.hook_count != 0 {
            before.push(
                SiteStats {
                    rip: site.address,
                    patched: site.state == SiteState::Active,
                    instruction_length: site.instruction_len,
                    straddle_after: site.straddle_prefix,
                },
            )
        } else {
            before
        }
    }
}

// ---------------------------------------------------------------------------
// The table
// ---------------------------------------------------------------------------

pub fn site_hash(address: u64, len: usize) -> (hash: usize)
    requires
        len > 0,
    ensures
        hash == hash_of(address, len as nat),
        hash < len,
{
    (address / 2).wrapping_mul(HASH_MULTIPLIER) as usize % len
}

#[derive(Debug)]
pub struct SiteTable {
    slots: Vec<Site>,
}

impl View for SiteTable {
    type V = Seq<Site>;

    closed spec fn view(&self) -> Seq<Site> {
        self.slots@
    }
}

proof fn step_wraps(start: int, offset: int, len: int)
    requires
        0 <= start < len,
        0 <= offset < len,
    ensures
        (start + offset) % len == if start + offset < len {
            start + offset
        } else {
            start + offset - len
        },
{
    if start + offset < len {
        vstd::arithmetic::div_mod::lemma_small_mod((start + offset) as nat, len as nat);
    } else {
        vstd::arithmetic::div_mod::lemma_mod_sub_multiples_vanish(start + offset, len);
        vstd::arithmetic::div_mod::lemma_small_mod((start + offset - len) as nat, len as nat);
    }
}

fn search(slots: &Vec<Site>, address: u64) -> (result: Option<usize>)
    ensures
        match first_match(slots@, address, 0) {
            Some(slot) => result == Some(slot as usize) && 0 <= slot < slots.len()
                && slot <= usize::MAX,
            None => result is None,
        },
{
    let len: usize = slots.len();
    if len == 0 {
        return None;
    }
    let start: usize = site_hash(address, len);
    let mut offset: usize = 0;
    while offset < len
        invariant
            offset <= len,
            len == slots.len(),
            start < len,
            start == hash_of(address, len as nat),
            first_match(slots@, address, 0) == first_match(slots@, address, offset as int),
        decreases len - offset,
    {
        proof {
            step_wraps(start as int, offset as int, len as int);
        }
        let slot: usize = if offset < len - start {
            start + offset
        } else {
            offset - (len - start)
        };
        assert(slot == slot_of(address, offset as int, slots@.len()));
        let observed: u64 = slots[slot].address;
        if observed == address || observed == 0 {
            return Some(slot);
        }
        offset = offset + 1;
    }
    None
}

proof fn slots_are_inside(address: u64, offset: int, len: nat)
    requires
        len > 0,
    ensures
        0 <= slot_of(address, offset, len) < len,
{
    vstd::arithmetic::div_mod::lemma_mod_bound(hash_of(address, len) + offset, len as int);
}

pub(crate) proof fn match_is_inside(sites: Seq<Site>, address: u64, offset: int)
    requires
        0 <= offset,
    ensures
        first_match(sites, address, offset) matches Some(slot) ==> 0 <= slot < sites.len() && (
        sites[slot].address == address || sites[slot].address == 0),
    decreases sites.len() - offset,
{
    if offset < sites.len() {
        slots_are_inside(address, offset, sites.len());
        match_is_inside(sites, address, offset + 1);
    }
}

/// A change that keeps every address keeps every search.
proof fn match_ignores_other_fields(
    sites: Seq<Site>,
    changed: Seq<Site>,
    address: u64,
    offset: int,
)
    requires
        0 <= offset,
        sites.len() == changed.len(),
        forall|i: int|
            0 <= i < sites.len() ==> (#[trigger] changed[i]).address == sites[i].address,
    ensures
        first_match(changed, address, offset) == first_match(sites, address, offset),
    decreases sites.len() - offset,
{
    if offset < sites.len() {
        slots_are_inside(address, offset, sites.len());
        match_ignores_other_fields(sites, changed, address, offset + 1);
    }
}

proof fn wf_ignores_other_fields(sites: Seq<Site>, changed: Seq<Site>)
    requires
        well_formed(sites),
        sites.len() == changed.len(),
        forall|i: int|
            0 <= i < sites.len() ==> (#[trigger] changed[i]).address == sites[i].address && (
            changed[i].state == SiteState::Empty <==> sites[i].state == SiteState::Empty),
    ensures
        well_formed(changed),
{
    assert forall|i: int|
        0 <= i < changed.len() && #[trigger] changed[i].address != 0 implies lookup(
        changed,
        changed[i].address,
    ) == Some(i) by {
        assert(sites[i].address == changed[i].address);
        match_ignores_other_fields(sites, changed, changed[i].address, 0);
        match_is_inside(sites, changed[i].address, 0);
    }
}

/// Taking a free slot disturbs no search that succeeded before.
proof fn taken_slot_disturbs_nothing(
    sites: Seq<Site>,
    slot: int,
    site: Site,
    address: u64,
    offset: int,
    found: int,
)
    requires
        0 <= offset,
        0 <= slot < sites.len(),
        sites[slot].address == 0,
        address != 0,
        first_match(sites, address, offset) == Some(found),
        sites[found].address == address,
    ensures
        first_match(sites.update(slot, site), address, offset) == Some(found),
        found != slot,
    decreases sites.len() - offset,
{
    let here = slot_of(address, offset, sites.len());
    slots_are_inside(address, offset, sites.len());
    if sites[here].address != address && sites[here].address != 0 {
        taken_slot_disturbs_nothing(sites, slot, site, address, offset + 1, found);
    }
}

/// The address that takes the free slot at the end of its search is found there.
proof fn taken_slot_is_found(sites: Seq<Site>, slot: int, site: Site, address: u64, offset: int)
    requires
        0 <= offset,
        first_match(sites, address, offset) == Some(slot),
        sites[slot].address == 0,
        site.address == address,
    ensures
        0 <= slot < sites.len(),
        first_match(sites.update(slot, site), address, offset) == Some(slot),
    decreases sites.len() - offset,
{
    let here = slot_of(address, offset, sites.len());
    slots_are_inside(address, offset, sites.len());
    if sites[here].address != address && sites[here].address != 0 {
        taken_slot_is_found(sites, slot, site, address, offset + 1);
    }
}

/// A claim keeps the table well formed.
pub proof fn claims_keep_the_table(sites: Seq<Site>, address: u64)
    requires
        well_formed(sites),
        address != 0,
    ensures
        well_formed(claim(sites, address).0),
{
    match_is_inside(sites, address, 0);
    let after = claim(sites, address).0;
    match first_match(sites, address, 0) {
        None => {},
        Some(slot) => {
            if sites[slot].address == 0 {
                let site = after[slot];
                taken_slot_is_found(sites, slot, site, address, 0);
                assert forall|i: int|
                    0 <= i < after.len() && #[trigger] after[i].address != 0 implies lookup(
                    after,
                    after[i].address,
                ) == Some(i) by {
                    if i != slot {
                        assert(sites[i].address == after[i].address);
                        taken_slot_disturbs_nothing(sites, slot, site, sites[i].address, 0, i);
                    }
                }
            } else {
                wf_ignores_other_fields(sites, after);
            }
        },
    }
}

proof fn staling_keeps_the_table(sites: Seq<Site>, start: u64, len: u64, replacement_end: u64)
    requires
        well_formed(sites),
    ensures
        well_formed(range_staled(sites, start, len, replacement_end)),
{
    wf_ignores_other_fields(sites, range_staled(sites, start, len, replacement_end));
}

impl SiteTable {
    #[verifier::type_invariant]
    spec fn sound(self) -> bool {
        well_formed(self.slots@)
    }

    /// A table of free slots.
    pub fn new(len: usize) -> (table: Self)
        ensures
            table@ == Seq::new(len as nat, |i: int| empty_site()),
            well_formed(table@),
    {
        let mut slots: Vec<Site> = Vec::new();
        let mut index: usize = 0;
        while index < len
            invariant
                index <= len,
                slots@ == Seq::new(index as nat, |i: int| empty_site()),
            decreases len - index,
        {
            slots.push(
                Site {
                    address: 0,
                    state: SiteState::Empty,
                    hook: 0,
                    mapping_end: 0,
                    trap_count: 0,
                    hook_count: 0,
                    instruction_len: 0,
                    straddle_prefix: 0,
                },
            );
            index = index + 1;
            assert(slots@ =~= Seq::new(index as nat, |i: int| empty_site()));
        }
        SiteTable { slots }
    }

    pub fn len(&self) -> (len: usize)
        ensures
            len == self@.len(),
    {
        self.slots.len()
    }

    pub fn site(&self, index: usize) -> (site: Site)
        requires
            index < self@.len(),
        ensures
            site == self@[index as int],
    {
        self.slots[index]
    }

    pub fn find_site(&self, address: u64) -> (result: Option<usize>)
        ensures
            match lookup(self@, address) {
                Some(slot) => result == Some(slot as usize) && 0 <= slot < self@.len() && slot
                    <= usize::MAX,
                None => result is None,
            },
            well_formed(self@),
    {
        proof {
            use_type_invariant(self);
        }
        match search(&self.slots, address) {
            Some(slot) => if self.slots[slot].address == address {
                Some(slot)
            } else {
                None
            },
            None => None,
        }
    }

    /// Claims a site. The claimant of a new or a stale one has to install its hook.
    pub fn claim_site(&mut self, address: u64) -> (result: Option<(usize, bool)>)
        requires
            address != 0,
        ensures
            final(self)@ == claim(old(self)@, address).0,
            well_formed(old(self)@),
            match claim(old(self)@, address).1 {
                Some((slot, claimed)) => result == Some((slot as usize, claimed)) && 0 <= slot
                    < final(self)@.len() && slot <= usize::MAX,
                None => result is None,
            },
    {
        proof {
            use_type_invariant(&*self);
            claims_keep_the_table(self.slots@, address);
        }
        let mut slots: Vec<Site> = Vec::new();
        std::mem::swap(&mut slots, &mut self.slots);
        let result: Option<(usize, bool)> = match search(&slots, address) {
            None => None,
            Some(slot) => {
                let mut site: Site = slots[slot];
                if site.address == 0 {
                    site.address = address;
                    site.state = SiteState::Installing;
                    slots.set(slot, site);
                    Some((slot, true))
                } else if site.state == SiteState::Stale {
                    site.state = SiteState::Installing;
                    slots.set(slot, site);
                    Some((slot, true))
                } else {
                    Some((slot, false))
                }
            },
        };
        self.slots = slots;
        result
    }

    /// Marks the sites of a range as mapped anew.
    pub fn mark_site_range_stale(&mut self, start: u64, len: u64, replacement_end: u64)
        ensures
            final(self)@ == range_staled(old(self)@, start, len, replacement_end),
    {
        proof {
            use_type_invariant(&*self);
            staling_keeps_the_table(self.slots@, start, len, replacement_end);
        }
        let end: u64 = match start.checked_add(len) {
            Some(end) => end,
            None => return,
        };
        let ghost before = self.slots@;
        let mut slots: Vec<Site> = Vec::new();
        std::mem::swap(&mut slots, &mut self.slots);
        let mut index: usize = 0;
        while index < slots.len()
            invariant
                index <= slots.len(),
                slots.len() == before.len(),
                end == start + len,
                forall|i: int|
                    0 <= i < index ==> slots@[i] == #[trigger] staled(
                        before[i],
                        start,
                        end as int,
                        replacement_end,
                    ),
                forall|i: int| index <= i < slots.len() ==> slots@[i] == before[i],
            decreases slots.len() - index,
        {
            let mut site: Site = slots[index];
            if start <= site.address && site.address < end {
                site.mapping_end = replacement_end;
                if site.state == SiteState::Active || site.state == SiteState::Fallback {
                    site.state = SiteState::Stale;
                }
                slots.set(index, site);
            }
            assert(slots@[index as int] == staled(
                before[index as int],
                start,
                end as int,
                replacement_end,
            ));
            index = index + 1;
        }
        assert(slots@ =~= range_staled(before, start, len, replacement_end)) by {
            assert forall|i: int| 0 <= i < slots.len() implies slots@[i] == range_staled(
                before,
                start,
                len,
                replacement_end,
            )[i] by {
                assert(slots@[i] == staled(before[i], start, end as int, replacement_end));
            }
        }
        self.slots = slots;
    }

    /// Follows a change of the mappings.
    pub fn observe_mapping_generation(&mut self, number: i64, args: &[u64; 6], result: i64)
        ensures
            final(self)@ == mapping_observed(old(self)@, number, args@, result),
    {
        if result < 0 {
            return;
        }
        let start: u64 = result as u64;
        if number == SYS_MMAP {
            self.mark_site_range_stale(start, args[1], start.saturating_add(args[1]));
        } else if number == SYS_MUNMAP {
            self.mark_site_range_stale(args[0], args[1], 0);
        } else if number == SYS_MREMAP {
            self.mark_site_range_stale(args[0], args[1], 0);
            self.mark_site_range_stale(start, args[2], start.saturating_add(args[2]));
        }
    }

    /// How often a site was trapped and how often its hook ran.
    pub fn site_counts(&self, address: u64) -> (counts: (u64, u64))
        ensures
            counts == match lookup(self@, address) {
                Some(slot) => (self@[slot].trap_count, self@[slot].hook_count),
                None => (0u64, 0u64),
            },
    {
        match self.find_site(address) {
            Some(slot) => (self.slots[slot].trap_count, self.slots[slot].hook_count),
            None => (0, 0),
        }
    }

    fn replace(&mut self, index: usize, site: Site)
        requires
            index < old(self)@.len(),
            site.address == old(self)@[index as int].address,
            site.state == SiteState::Empty <==> old(self)@[index as int].state == SiteState::Empty,
        ensures
            final(self)@ == old(self)@.update(index as int, site),
    {
        proof {
            use_type_invariant(&*self);
            wf_ignores_other_fields(self.slots@, self.slots@.update(index as int, site));
        }
        let mut slots: Vec<Site> = Vec::new();
        std::mem::swap(&mut slots, &mut self.slots);
        slots.set(index, site);
        self.slots = slots;
    }

    /// Counts one trap of a site.
    pub fn record_trap(&mut self, index: usize)
        requires
            index < old(self)@.len(),
        ensures
            final(self)@ == old(self)@.update(
                index as int,
                Site {
                    trap_count: counted(old(self)@[index as int].trap_count),
                    ..old(self)@[index as int]
                },
            ),
    {
        let mut site: Site = self.slots[index];
        site.trap_count = site.trap_count.wrapping_add(1);
        self.replace(index, site);
    }

    /// Counts one run of the hook at an address, if it is a site.
    pub fn record_fork_child_direct_hook(&mut self, instruction_pointer: u64)
        ensures
            final(self)@ == match lookup(old(self)@, instruction_pointer) {
                Some(slot) => old(self)@.update(
                    slot,
                    Site {
                        hook_count: counted(old(self)@[slot].hook_count),
                        ..old(self)@[slot]
                    },
                ),
                None => old(self)@,
            },
    {
        match self.find_site(instruction_pointer) {
            Some(slot) => {
                let mut site: Site = self.slots[slot];
                site.hook_count = site.hook_count.wrapping_add(1);
                self.replace(slot, site);
            },
            None => {},
        }
    }

    /// Remembers the end of the mapping that a claimed site lies in.
    pub fn record_mapping_end(&mut self, index: usize, mapping_end: u64)
        requires
            index < old(self)@.len(),
        ensures
            final(self)@ == old(self)@.update(
                index as int,
                Site { mapping_end, ..old(self)@[index as int] },
            ),
    {
        let mut site: Site = self.slots[index];
        site.mapping_end = mapping_end;
        self.replace(index, site);
    }

    /// Remembers what was found of the code at a claimed site.
    pub fn record_code(&mut self, index: usize, instruction_len: u8, straddle_prefix: u8)
        requires
            index < old(self)@.len(),
        ensures
            final(self)@ == old(self)@.update(
                index as int,
                Site { instruction_len, straddle_prefix, ..old(self)@[index as int] },
            ),
    {
        let mut site: Site = self.slots[index];
        site.instruction_len = instruction_len;
        site.straddle_prefix = straddle_prefix;
        self.replace(index, site);
    }

    /// Publishes the hook of a claimed site.
    pub fn activate(&mut self, index: usize, hook: u64)
        requires
            index < old(self)@.len(),
            old(self)@[index as int].address != 0,
        ensures
            final(self)@ == old(self)@.update(
                index as int,
                Site { hook, state: SiteState::Active, ..old(self)@[index as int] },
            ),
    {
        proof {
            use_type_invariant(&*self);
        }
        let mut site: Site = self.slots[index];
        site.hook = hook;
        site.state = SiteState::Active;
        self.replace(index, site);
    }

    /// Gives a claimed site up.
    pub fn fail(&mut self, index: usize)
        requires
            index < old(self)@.len(),
            old(self)@[index as int].address != 0,
        ensures
            final(self)@ == old(self)@.update(
                index as int,
                Site { state: SiteState::Fallback, ..old(self)@[index as int] },
            ),
    {
        proof {
            use_type_invariant(&*self);
        }
        let mut site: Site = self.slots[index];
        site.state = SiteState::Fallback;
        self.replace(index, site);
    }

    /// Starts every count over, as in a forked child. What is installed stays.
    pub fn reset_site_observability(&mut self)
        ensures
            final(self)@ == old(self)@.map_values(|site: Site| uncounted(site)),
    {
        let ghost before = self.slots@;
        let ghost after = before.map_values(|site: Site| uncounted(site));
        proof {
            use_type_invariant(&*self);
            wf_ignores_other_fields(before, after);
        }
        let mut slots: Vec<Site> = Vec::new();
        std::mem::swap(&mut slots, &mut self.slots);
        let mut index: usize = 0;
        while index < slots.len()
            invariant
                index <= slots.len(),
                slots.len() == before.len(),
                after == before.map_values(|site: Site| uncounted(site)),
                forall|i: int| 0 <= i < index ==> slots@[i] == #[trigger] after[i],
                forall|i: int| index <= i < slots.len() ==> slots@[i] == before[i],
            decreases slots.len() - index,
        {
            let mut site: Site = slots[index];
            site.trap_count = 0;
            site.hook_count = 0;
            slots.set(index, site);
            assert(slots@[index as int] == uncounted(before[index as int]));
            index = index + 1;
        }
        assert(slots@ =~= after);
        self.slots = slots;
    }

    /// What a process reports of its sites: how often hooks ran, and the sites that were
    /// reached.
    pub fn submit_process_stats(&self) -> (stats: (u64, Vec<SiteStats>))
        requires
            total_hooks(self@) <= u64::MAX,
        ensures
            stats.0 == total_hooks(self@),
            (stats.1)@ == reported_sites(self@),
    {
        let mut direct_hooks: u64 = 0;
        let mut sites: Vec<SiteStats> = Vec::new();
        let mut index: usize = 0;
        assert(self.slots@.take(0) =~= Seq::empty());
        while index < self.slots.len()
            invariant
                index <= self.slots.len(),
                total_hooks(self.slots@) <= u64::MAX,
                direct_hooks == total_hooks(self.slots@.take(index as int)),
                sites@ == reported_sites(self.slots@.take(index as int)),
            decreases self.slots.len() - index,
        {
            let site: Site = self.slots[index];
            proof {
                let next = self.slots@.take(index + 1);
                assert(next.drop_last() =~= self.slots@.take(index as int));
                assert(next.last() == site);
                prefix_hooks_are_fewer(self.slots@, index + 1);
            }
            direct_hooks = direct_hooks + site.hook_count;
            if site.trap_count != 0 || site.hook_count != 0 {
                sites.push(
                    SiteStats {
                        rip: site.address,
                        patched: site.state == SiteState::Active,
                        instruction_length: site.instruction_len,
                        straddle_after: site.straddle_prefix,
                    },
                );
            }
            index = index + 1;
        }
        assert(self.slots@.take(index as int) =~= self.slots@);
        (direct_hooks, sites)
    }
}

proof fn prefix_hooks_are_fewer(sites: Seq<Site>, count: int)
    requires
        0 <= count <= sites.len(),
    ensures
        total_hooks(sites.take(count)) <= total_hooks(sites),
    decreases sites.len(),
{
    if count < sites.len() {
        assert(sites.drop_last().take(count) =~= sites.take(count));
        prefix_hooks_are_fewer(sites.drop_last(), count);
    } else {
        assert(sites.take(count) =~= sites);
    }
}

// ---------------------------------------------------------------------------
// Laws
// ---------------------------------------------------------------------------

/// A claimed site is found, at the slot that the claim named, and it is being
/// installed by whoever claimed it.
pub proof fn claimed_sites_are_found(sites: Seq<Site>, address: u64)
    requires
        well_formed(sites),
        address != 0,
    ensures
        claim(sites, address).1 matches Some((slot, claimed)) ==> {
            &&& lookup(claim(sites, address).0, address) == Some(slot)
            &&& claimed ==> claim(sites, address).0[slot].state == SiteState::Installing
        },
{
    claims_keep_the_table(sites, address);
    match_is_inside(sites, address, 0);
}

/// No two slots hold one address.
pub proof fn sites_are_unique(sites: Seq<Site>, left: int, right: int)
    requires
        well_formed(sites),
        0 <= left < sites.len(),
        0 <= right < sites.len(),
        sites[left].address != 0,
        sites[left].address == sites[right].address,
    ensures
        left == right,
{
}

/// A site is claimed once: whoever asks again while it is installed, patched or given
/// up is not its claimant.
pub proof fn sites_have_one_claimant(sites: Seq<Site>, address: u64)
    requires
        well_formed(sites),
        address != 0,
        claim(sites, address).1 is Some,
    ensures
        ({
            let (after, first) = claim(sites, address);
            claim(after, address) == (after, Some(((first->0).0, false)))
        }),
{
    claimed_sites_are_found(sites, address);
    match_is_inside(sites, address, 0);
}

/// An address whose code was mapped anew is claimed anew, at its old slot.
pub proof fn remapped_sites_are_claimed_again(
    sites: Seq<Site>,
    slot: int,
    start: u64,
    len: u64,
    replacement_end: u64,
)
    requires
        well_formed(sites),
        0 <= slot < sites.len(),
        sites[slot].address != 0,
        sites[slot].state == SiteState::Active || sites[slot].state == SiteState::Fallback,
        start <= sites[slot].address < start + len <= u64::MAX,
    ensures
        ({
            let remapped = range_staled(sites, start, len, replacement_end);
            &&& remapped[slot].mapping_end == replacement_end
            &&& claim(remapped, sites[slot].address).1 == Some((slot, true))
        }),
{
    let remapped = range_staled(sites, start, len, replacement_end);
    staling_keeps_the_table(sites, start, len, replacement_end);
    assert(remapped[slot] == staled(sites[slot], start, start + len, replacement_end));
    match_is_inside(remapped, sites[slot].address, 0);
}

/// Starting the counts over changes nothing that is installed.
pub proof fn reset_keeps_what_is_installed(sites: Seq<Site>, slot: int)
    requires
        0 <= slot < sites.len(),
    ensures
        ({
            let after = sites.map_values(|site: Site| uncounted(site))[slot];
            &&& after.trap_count == 0
            &&& after.hook_count == 0
            &&& after == (Site {
                trap_count: after.trap_count,
                hook_count: after.hook_count,
                ..sites[slot]
            })
        }),
{
}

} // verus!
