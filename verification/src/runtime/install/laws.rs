//! What the installation of hooks promises.

use vstd::prelude::*;

use crate::protected_fd::Memory;
use crate::runtime::install::accept_page_size;
use crate::runtime::install::check_candidate;
use crate::runtime::install::claim_vdso_site;
use crate::runtime::install::finish_installation;
use crate::runtime::install::install_site_hook;
use crate::runtime::install::is_over;
use crate::runtime::install::pages_hold_the_patch;
use crate::runtime::install::pages_start_below;
use crate::runtime::install::patch_publication;
use crate::runtime::install::plan_snapshot;
use crate::runtime::install::publication_number;
use crate::runtime::install::replaced_bytes;
use crate::runtime::install::site_of;
use crate::runtime::install::text_pages;
use crate::runtime::install::vdso_callback;
use crate::runtime::install::InstallError;
use crate::runtime::install::InstallLock;
use crate::runtime::install::InstallOutcome;
use crate::runtime::install::InstallStep;
use crate::runtime::install::Installation;
use crate::runtime::install::InstallationBusy;
use crate::runtime::install::PatchPublication;
use crate::runtime::install::ProtectionError;
use crate::runtime::install::Snapshot;
use crate::runtime::install::VdsoHook;
use crate::runtime::install::VdsoSiteError;
use crate::runtime::sites::Site;
use crate::runtime::sites::SiteState;
use crate::runtime::sites::SiteTable;
use crate::runtime::sites::laws::claims_take_one_slot;
use crate::syscall_mode::ModeState;
use crate::syscall_mode::SyscallModeStats;

verus! {

/// A publication survives being stored.
pub proof fn publications_are_stored(
    publication: PatchPublication,
    stored: u8,
    again: PatchPublication,
    other: u8,
    read: PatchPublication,
)
    requires
        call_ensures(publication_number, (publication,), stored),
        call_ensures(patch_publication, (stored,), again),
        call_ensures(patch_publication, (other,), read),
    ensures
        again == publication,
        read == PatchPublication::Quiescent <==> other == 0,
{
}

/// One installation goes on at a time.
pub proof fn installations_exclude_each_other(
    lock: &mut InstallLock,
    again: &mut InstallLock,
    free: &mut InstallLock,
    first: Result<(), InstallationBusy>,
    second: Result<(), InstallationBusy>,
)
    requires
        call_ensures(InstallLock::lock_installation, (lock,), first),
        *old(again) == *final(lock),
        call_ensures(InstallLock::lock_installation, (again,), second),
        *old(free) == *final(again),
        call_ensures(InstallLock::unlock_installation, (free,), ()),
    ensures
        first is Ok <==> !old(lock).held,
        second is Err,
        !final(free).held,
{
}

/// The page sizes are one and the doubles of page sizes.
pub proof fn page_sizes_are_doubled(
    size: i64,
    result: Option<u64>,
    double: Option<u64>,
    odd: Option<u64>,
)
    requires
        call_ensures(accept_page_size, (size,), result),
        size < 0x4000_0000_0000_0000 ==> call_ensures(
            accept_page_size,
            ((2 * size) as i64,),
            double,
        ),
        size < 0x4000_0000_0000_0000 ==> call_ensures(
            accept_page_size,
            ((2 * size + 1) as i64,),
            odd,
        ),
    ensures
        result matches Some(accepted) ==> accepted == size,
        size <= 0 ==> result is None,
        size == 1 ==> result is Some,
        0 < size < 0x4000_0000_0000_0000 ==> (double is Some <==> result is Some) && odd is None,
{
    if 0 < size < 0x4000_0000_0000_0000 {
        let small = size as u64;
        let below = (size - 1) as u64;
        let twice = (2 * size) as u64;
        let under = (2 * size - 1) as u64;
        let over = (2 * size + 1) as u64;
        assert((small & below == 0) == (twice & under == 0) && over & twice != 0) by (bit_vector)
            requires
                0 < small < 0x4000_0000_0000_0000u64,
                below + 1 == small,
                twice == 2 * small,
                under + 1 == twice,
                over == twice + 1,
        ;
    }
    assert(1u64 & 0u64 == 0) by (bit_vector);
}

/// The pages of a patch are whole pages that hold all of it, and no page more.
pub proof fn patches_touch_whole_pages(
    address: u64,
    page_size: u64,
    accepted: Option<u64>,
    result: Result<(u64, u64), ProtectionError>,
)
    requires
        0 < page_size <= i64::MAX,
        call_ensures(accept_page_size, (page_size as i64,), accepted),
        accepted is Some,
        call_ensures(text_pages, (address, page_size), result),
    ensures
        result is Ok <==> address + 8 + page_size - 1 <= u64::MAX,
        result matches Ok((start, length)) ==> {
            &&& start <= address < start + page_size
            &&& address + 8 <= start + length < address + 8 + page_size
            &&& start & ((page_size - 1) as u64) == 0
            &&& ((start + length) as u64) & ((page_size - 1) as u64) == 0
        },
        result is Err ==> (result == Err::<(u64, u64), ProtectionError>(
            ProtectionError::AddressOverflow,
        ) <==> address + 8 > u64::MAX),
{
    pages_start_below(address, page_size);
    let mask = (page_size - 1) as u64;
    assert((address & !mask) & mask == 0) by (bit_vector);
    if address + 8 + page_size - 1 <= u64::MAX {
        let top = (address + 8 + page_size - 1) as u64;
        pages_start_below(top, page_size);
        pages_hold_the_patch(address, page_size);
        assert((top & !mask) & mask == 0) by (bit_vector);
    }
}

/// Without a page size no pages are known.
pub proof fn pages_need_a_size(address: u64, result: Result<(u64, u64), ProtectionError>)
    requires
        call_ensures(text_pages, (address, 0u64), result),
    ensures
        result == Err::<(u64, u64), ProtectionError>(ProtectionError::PageSizeUnknown),
{
}

/// A site is looked at only where an arena reaches it and at least a whole patch fits before
/// the end of its mapping; never beyond that end, and never more than 64 bytes.
pub proof fn snapshots_stay_in_the_mapping(
    address: u64,
    remembered: u64,
    arena_end: Option<u64>,
    result: Result<Snapshot, InstallError>,
)
    requires
        arena_end matches Some(end) ==> address < end,
        call_ensures(plan_snapshot, (address, remembered, arena_end), result),
    ensures
        arena_end is None <==> result == Err::<Snapshot, InstallError>(InstallError::NoArena),
        arena_end matches Some(end) ==> {
            let stop = if remembered > address {
                remembered
            } else {
                end
            };
            &&& result is Ok <==> stop - address >= 8
            &&& result is Err ==> result == Err::<Snapshot, InstallError>(InstallError::MappingEnd)
            &&& result matches Ok(snapshot) ==> {
                &&& snapshot.mapping_end == stop
                &&& 8 <= snapshot.available <= 64
                &&& address + snapshot.available <= stop
                &&& snapshot.available < 64 ==> address + snapshot.available == stop
            }
        },
{
}

/// A site is patched only over the instruction that was expected there; longer code does not
/// matter.
pub proof fn candidates_start_with_the_instruction(
    candidate: &[u8],
    expected: &[u8],
    result: Result<(), InstallError>,
    index: int,
)
    requires
        call_ensures(check_candidate, (candidate, expected), result),
    ensures
        result is Ok && 0 <= index < expected@.len() ==> index < candidate@.len()
            && candidate@[index] == expected@[index],
        candidate@.len() < expected@.len() ==> result is Err,
        0 <= index < expected@.len() && index < candidate@.len() && candidate@[index]
            != expected@[index] ==> result is Err,
        candidate@ == expected@ ==> result is Ok,
        result is Err ==> result == Err::<(), InstallError>(InstallError::OtherInstruction),
{
    if candidate@ == expected@ {
        assert(candidate@.take(expected@.len() as int) =~= expected@);
    }
}

/// A jump replaces at most its own five bytes of the first instruction.
pub proof fn jumps_replace_at_most_themselves(instruction_len: u64, bytes: u64)
    requires
        call_ensures(replaced_bytes, (instruction_len,), bytes),
    ensures
        bytes <= 5,
        bytes <= instruction_len,
        bytes == 5 || bytes == instruction_len,
{
}

/// An installation starts only where patching is allowed and no other goes on; the attempt is
/// counted either way. It holds the lock exactly if it starts, and changes nothing of its
/// site but the remembered end of the mapping.
pub proof fn installations_start_alone(
    modes: &mut ModeState,
    lock: &mut InstallLock,
    table: &mut SiteTable,
    slot: usize,
    arena_end: Option<u64>,
    publication: PatchPublication,
    manage_protection: bool,
    snapshot: Result<Snapshot, InstallError>,
    result: Result<(Installation, Snapshot), InstallError>,
    other: int,
)
    requires
        slot < old(table)@.len(),
        0 <= other < old(table)@.len(),
        arena_end matches Some(end) ==> old(table)@[slot as int].address < end,
        call_ensures(
            plan_snapshot,
            (old(table)@[slot as int].address, old(table)@[slot as int].mapping_end, arena_end),
            snapshot,
        ),
        call_ensures(
            install_site_hook,
            (modes, lock, table, slot, arena_end, publication, manage_protection),
            result,
        ),
    ensures
        result is Ok <==> !old(modes).sud_only && !old(lock).held && snapshot is Ok,
        result matches Ok((installation, planned)) ==> {
            &&& installation.publication == publication
            &&& installation.manage_protection == manage_protection
            &&& installation.step == InstallStep::Inspect
            &&& snapshot == Ok::<Snapshot, InstallError>(planned)
            &&& final(table)@[slot as int].mapping_end == planned.mapping_end
        },
        result is Ok ==> final(lock).held,
        result is Err && !old(lock).held ==> !final(lock).held,
        old(lock).held ==> final(lock).held,
        old(modes).sud_only ==> result == Err::<(Installation, Snapshot), InstallError>(
            InstallError::PatchingDisabled,
        ),
        !old(modes).sud_only && old(lock).held ==> result == Err::<
            (Installation, Snapshot),
            InstallError,
        >(InstallError::Busy),
        (final(modes).stats.patch_attempts - old(modes).stats.patch_attempts - 1)
            % 0x1_0000_0000_0000_0000 == 0,
        final(modes).sud_only == old(modes).sud_only,
        final(modes).stats.installed_patches == old(modes).stats.installed_patches,
        final(table)@.len() == old(table)@.len(),
        final(table)@[slot as int] == (Site {
            mapping_end: final(table)@[slot as int].mapping_end,
            ..old(table)@[slot as int]
        }),
        other != slot ==> final(table)@[other] == old(table)@[other],
{
}

/// What succeeds goes on to the next step: the code is inspected, the delay of other threads
/// found out where there are any, the protection lifted where it is managed, a trampoline
/// tried, the patch published and the protection put back.
pub proof fn successful_steps_lead_to_the_hook(installation: &mut Installation)
    requires
        call_ensures(Installation::advance, (installation, InstallOutcome::Succeeded), ()),
    ensures
        ({
            let before = old(installation).step;
            let after = final(installation).step;
            let concurrent = old(installation).publication == PatchPublication::Concurrent;
            let managed = old(installation).manage_protection;
            &&& before == InstallStep::Inspect && concurrent ==> after == InstallStep::Budget
            &&& (before == InstallStep::Inspect && !concurrent) || before == InstallStep::Budget
                ==> (if managed {
                after == InstallStep::Unprotect
            } else {
                after == InstallStep::Attempt(1u32)
            })
            &&& before == InstallStep::Unprotect ==> after == InstallStep::Attempt(1u32)
            &&& before is Attempt ==> after == InstallStep::Activate
            &&& before == InstallStep::Activate ==> (if managed {
                after == InstallStep::Protect
            } else {
                after == InstallStep::Installed
            })
            &&& before == InstallStep::Protect ==> after == InstallStep::Installed
            &&& before == InstallStep::Abandon ==> after == InstallStep::Failed
            &&& before == InstallStep::Installed || before == InstallStep::Failed ==> after
                == before
        }),
        *final(installation) == (Installation {
            step: final(installation).step,
            ..*old(installation)
        }),
{
}

/// What fails never leads to a hook: the protection that was lifted is put back first. Only a
/// trampoline that conflicts with the guard is followed by another, up to the sixteenth.
pub proof fn failed_steps_lead_to_no_hook(
    installation: &mut Installation,
    outcome: InstallOutcome,
)
    requires
        outcome != InstallOutcome::Succeeded,
        call_ensures(Installation::advance, (installation, outcome), ()),
    ensures
        ({
            let before = old(installation).step;
            let after = final(installation).step;
            let managed = old(installation).manage_protection;
            &&& after == InstallStep::Installed ==> before == InstallStep::Installed
            &&& before == InstallStep::Inspect || before == InstallStep::Budget || before
                == InstallStep::Unprotect || before == InstallStep::Protect || before
                == InstallStep::Abandon ==> after == InstallStep::Failed
            &&& before == InstallStep::Activate ==> (if managed {
                after == InstallStep::Abandon
            } else {
                after == InstallStep::Failed
            })
            &&& before matches InstallStep::Attempt(number) ==> (if outcome
                == InstallOutcome::GuardConflict && number < 16 {
                after matches InstallStep::Attempt(next) && next == number + 1
            } else if managed {
                after == InstallStep::Abandon
            } else {
                after == InstallStep::Failed
            })
        }),
        final(installation).publication == old(installation).publication,
        final(installation).manage_protection == old(installation).manage_protection,
{
}

/// An installation that is over frees the lock. Its site is active with its hook exactly if
/// it succeeded, and only then it is counted; no other site changes.
pub proof fn finished_installations_settle_their_site(
    installation: Installation,
    modes: &mut ModeState,
    lock: &mut InstallLock,
    table: &mut SiteTable,
    slot: usize,
    hook: u64,
    installed: bool,
    other: int,
)
    requires
        is_over(installation.step),
        slot < old(table)@.len(),
        0 <= other < old(table)@.len(),
        call_ensures(
            finish_installation,
            (installation, modes, lock, table, slot, hook),
            installed,
        ),
    ensures
        !final(lock).held,
        installed <==> installation.step == InstallStep::Installed,
        installed ==> final(table)@[slot as int].state == SiteState::Active && final(table)@[
            slot as int
        ].hook == hook && (final(modes).stats.installed_patches
            - old(modes).stats.installed_patches - 1) % 0x1_0000_0000_0000_0000 == 0,
        !installed ==> final(table)@[slot as int].state == SiteState::Fallback && final(table)@[
            slot as int
        ].hook == old(table)@[slot as int].hook && *final(modes) == *old(modes),
        final(table)@[slot as int].address == old(table)@[slot as int].address,
        final(table)@[slot as int].trap_count == old(table)@[slot as int].trap_count,
        other != slot ==> final(table)@[other] == old(table)@[other],
        final(modes).stats == (SyscallModeStats {
            installed_patches: final(modes).stats.installed_patches,
            ..old(modes).stats
        }),
{
}

/// Five calls of the vDSO have a hook, each its own: time, clock_gettime, getcpu,
/// gettimeofday and clock_getres. Any other is told by its number.
pub proof fn five_vdso_calls_have_hooks(number: i64, result: Result<VdsoHook, i64>)
    requires
        call_ensures(vdso_callback, (number,), result),
    ensures
        number == 96 <==> result == Ok::<VdsoHook, i64>(VdsoHook::Gettimeofday),
        number == 201 <==> result == Ok::<VdsoHook, i64>(VdsoHook::Time),
        number == 228 <==> result == Ok::<VdsoHook, i64>(VdsoHook::ClockGettime),
        number == 229 <==> result == Ok::<VdsoHook, i64>(VdsoHook::ClockGetres),
        number == 309 <==> result == Ok::<VdsoHook, i64>(VdsoHook::Getcpu),
        result matches Err(kept) ==> kept == number,
{
}

/// The site of a vDSO call is claimed by its installer or by nobody.
pub proof fn vdso_sites_are_claimed_once(
    table: &mut SiteTable,
    address: u64,
    result: Result<usize, VdsoSiteError>,
    slot: int,
)
    requires
        address != 0,
        0 <= slot < old(table)@.len(),
        call_ensures(claim_vdso_site, (table, address), result),
    ensures
        result matches Ok(claimed) ==> (claimed == slot ==> final(table)@[slot].address == address
            && final(table)@[slot].state == SiteState::Installing && (old(table)@[slot].address == 0
            || old(table)@[slot].state == SiteState::Stale)),
        result is Err ==> final(table)@ == old(table)@,
        result matches Ok(claimed) ==> (claimed != slot ==> final(table)@[slot]
            == old(table)@[slot]),
{
    claims_take_one_slot(old(table)@, address);
}

/// The site of a system call is two bytes before where it goes on, or right there; either way
/// the instruction stands there, whole, in its mapping. The one before is preferred.
pub proof fn system_calls_are_located(
    memory: Memory,
    resume: u64,
    before_end: Option<u64>,
    at_end: Option<u64>,
)
    ensures
        ({
            let site = site_of(memory, resume, before_end, at_end);
            let earlier = (resume - 2) as u64;
            let stands_before = resume >= 2 && (before_end matches Some(end) && resume <= end)
                && memory(earlier, 2).len() == 2 && memory(earlier, 2)[0] == 0x0f && memory(
                earlier,
                2,
            )[1] == 0x05;
            let stands_at = (at_end matches Some(end) && resume + 2 <= end) && memory(
                resume,
                2,
            ).len() == 2 && memory(resume, 2)[0] == 0x0f && memory(resume, 2)[1] == 0x05;
            &&& stands_before ==> (site matches Some(address) && address + 2 == resume)
            &&& !stands_before && stands_at ==> site == Some(resume)
            &&& !stands_before && !stands_at ==> site is None
        }),
{
    let call = seq![0x0fu8, 0x05u8];
    let earlier = memory((resume - 2) as u64, 2);
    let there = memory(resume, 2);
    if earlier.len() == 2 && earlier[0] == 0x0f && earlier[1] == 0x05 {
        assert(earlier =~= call);
    }
    if there.len() == 2 && there[0] == 0x0f && there[1] == 0x05 {
        assert(there =~= call);
    }
    assert(call[0] == 0x0f && call[1] == 0x05 && call.len() == 2);
}

} // verus!
