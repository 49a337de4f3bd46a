//! Installing hooks: which code can be patched, and in which order things happen.

use vstd::prelude::*;

pub mod laws;

use crate::protected_fd::reads;
use crate::protected_fd::total;
use crate::protected_fd::Memory;
use crate::runtime::sites::claim;
use crate::runtime::sites::Site;
use crate::runtime::sites::SiteState;
use crate::runtime::sites::SiteTable;
use crate::sys::SYS_CLOCK_GETRES;
use crate::sys::SYS_CLOCK_GETTIME;
use crate::sys::SYS_GETCPU;
use crate::sys::SYS_GETTIMEOFDAY;
use crate::sys::SYS_TIME;
use crate::syscall_mode::patch_attempted;
use crate::syscall_mode::patch_recorded;
use crate::syscall_mode::ModeState;

verus! {

/// Bytes of code that are looked at around a site.
pub const PATCH_SNAPSHOT_BYTES: u64 = 64;

/// Bytes that a patch replaces at once.
pub const WORD_PATCH_BYTES: u64 = 8;

/// Bytes of the jump that a patch writes.
pub const NEAR_JUMP_BYTES: u64 = 5;

/// Trampolines that are tried for one site.
pub const MAX_ATTEMPTS: u32 = 16;

/// Whether other threads can reach the code that is patched.
#[derive(Clone, Copy, Debug, PartialEq, Eq, Structural)]
pub enum PatchPublication {
    /// The caller prevents every other thread from reaching live code.
    Quiescent,
    /// Other application threads may fetch the site during publication.
    Concurrent,
}

/// The publication that a stored number stands for: zero is the quiescent one.
pub fn patch_publication(stored: u8) -> (publication: PatchPublication)
    ensures
        publication == if stored == 0 {
            PatchPublication::Quiescent
        } else {
            PatchPublication::Concurrent
        },
{
    if stored == 0 {
        PatchPublication::Quiescent
    } else {
        PatchPublication::Concurrent
    }
}

/// The number under which a publication is stored.
pub fn publication_number(publication: PatchPublication) -> (stored: u8)
    ensures
        stored == if publication == PatchPublication::Quiescent {
            0u8
        } else {
            1u8
        },
{
    match publication {
        PatchPublication::Quiescent => 0,
        PatchPublication::Concurrent => 1,
    }
}

/// The lock that one installation holds at a time.
#[derive(Clone, Copy, Debug, PartialEq, Eq, Structural)]
pub struct InstallLock {
    pub held: bool,
}

/// Another installation is going on.
#[derive(Clone, Copy, Debug, PartialEq, Eq, Structural)]
pub struct InstallationBusy;

impl InstallLock {
    pub fn lock_installation(&mut self) -> (result: Result<(), InstallationBusy>)
        ensures
            final(self).held,
            result == if old(self).held {
                Err::<(), InstallationBusy>(InstallationBusy)
            } else {
                Ok(())
            },
    {
        if self.held {
            return Err(InstallationBusy);
        }
        self.held = true;
        Ok(())
    }

    pub fn unlock_installation(&mut self)
        ensures
            !final(self).held,
    {
        self.held = false;
    }
}

// ---------------------------------------------------------------------------
// Pages
// ---------------------------------------------------------------------------

#[derive(Clone, Copy, Debug, PartialEq, Eq, Structural)]
pub enum ProtectionError {
    PageSizeUnknown,
    AddressOverflow,
    RangeOverflow,
}

impl ProtectionError {
    pub fn text(self) -> (text: &'static str)
        ensures
            text == match self {
                ProtectionError::PageSizeUnknown => "LiteInst page size is not initialized",
                ProtectionError::AddressOverflow => "patch address overflow",
                ProtectionError::RangeOverflow => "patch page range overflow",
            },
    {
        match self {
            ProtectionError::PageSizeUnknown => "LiteInst page size is not initialized",
            ProtectionError::AddressOverflow => "patch address overflow",
            ProtectionError::RangeOverflow => "patch page range overflow",
        }
    }
}

/// A page size is a power of two.
pub fn accept_page_size(size: i64) -> (result: Option<u64>)
    ensures
        result == if size > 0 && (size as u64) & ((size - 1) as u64) == 0 {
            Some(size as u64)
        } else {
            None
        },
{
    if size > 0 && (size as u64) & ((size - 1) as u64) == 0 {
        Some(size as u64)
    } else {
        None
    }
}

/// The start of the page that an address lies in.
pub open spec fn page_start(address: u64, page_size: u64) -> u64 {
    address & !((page_size - 1) as u64)
}

/// The pages that a patch touches: where they start and how many bytes they are.
pub open spec fn patched_pages(address: u64, page_size: u64) -> Result<(u64, u64), ProtectionError> {
    let start = page_start(address, page_size);
    let end = page_start((address + WORD_PATCH_BYTES + page_size - 1) as u64, page_size);
    if page_size == 0 {
        Err(ProtectionError::PageSizeUnknown)
    } else if address + WORD_PATCH_BYTES > u64::MAX {
        Err(ProtectionError::AddressOverflow)
    } else if address + WORD_PATCH_BYTES + page_size - 1 > u64::MAX {
        Err(ProtectionError::RangeOverflow)
    } else {
        Ok((start, (end - start) as u64))
    }
}

proof fn pages_start_below(address: u64, page_size: u64)
    requires
        page_size > 0,
    ensures
        page_start(address, page_size) <= address < page_start(address, page_size) + page_size,
{
    let within = (page_size - 1) as u64;
    assert(address & !within <= address && address - (address & !within) <= within)
        by (bit_vector);
}

/// The pages whose protection a patch changes.
pub fn text_pages(address: u64, page_size: u64) -> (result: Result<(u64, u64), ProtectionError>)
    ensures
        result == patched_pages(address, page_size),
{
    if page_size == 0 {
        return Err(ProtectionError::PageSizeUnknown);
    }
    let patch_end: u64 = match address.checked_add(WORD_PATCH_BYTES) {
        Some(patch_end) => patch_end,
        None => return Err(ProtectionError::AddressOverflow),
    };
    let rounded: u64 = match patch_end.checked_add(page_size - 1) {
        Some(rounded) => rounded,
        None => return Err(ProtectionError::RangeOverflow),
    };
    proof {
        pages_start_below(address, page_size);
        pages_start_below(rounded, page_size);
    }
    let start: u64 = address & !(page_size - 1);
    let end: u64 = rounded & !(page_size - 1);
    Ok((start, end - start))
}

/// The pages hold every byte of the patch.
pub proof fn pages_hold_the_patch(address: u64, page_size: u64)
    requires
        patched_pages(address, page_size) is Ok,
    ensures
        ({
            let (start, length) = patched_pages(address, page_size)->Ok_0;
            &&& start <= address
            &&& address + WORD_PATCH_BYTES <= start + length
        }),
{
    pages_start_below(address, page_size);
    pages_start_below((address + WORD_PATCH_BYTES + page_size - 1) as u64, page_size);
}

// ---------------------------------------------------------------------------
// Sites
// ---------------------------------------------------------------------------

#[derive(Clone, Copy, Debug, PartialEq, Eq, Structural)]
pub enum InstallError {
    /// Patching is disabled.
    PatchingDisabled,
    /// Another installation is going on.
    Busy,
    /// No arena reaches the site.
    NoArena,
    /// The site ends too close to the end of its mapping.
    MappingEnd,
    /// The site holds another instruction.
    OtherInstruction,
}

impl InstallError {
    pub fn text(self) -> (text: &'static str)
        ensures
            text == match self {
                InstallError::PatchingDisabled => "guest patching is disabled in SUD-only mode",
                InstallError::Busy => "LiteInst installation is busy",
                InstallError::NoArena => "no reachable LiteInst arena for syscall site",
                InstallError::MappingEnd => {
                    "syscall site is too close to its executable mapping end"
                },
                InstallError::OtherInstruction => {
                    "fault site does not contain the expected x86-64 instruction"
                },
            },
    {
        match self {
            InstallError::PatchingDisabled => "guest patching is disabled in SUD-only mode",
            InstallError::Busy => "LiteInst installation is busy",
            InstallError::NoArena => "no reachable LiteInst arena for syscall site",
            InstallError::MappingEnd => "syscall site is too close to its executable mapping end",
            InstallError::OtherInstruction => {
                "fault site does not contain the expected x86-64 instruction"
            },
        }
    }
}

/// What is known of the code at a site before it is read.
#[derive(Clone, Copy, Debug, PartialEq, Eq, Structural)]
pub struct Snapshot {
    /// The end of the mapping that the site lies in.
    pub mapping_end: u64,
    /// Bytes of it that are looked at.
    pub available: u64,
}

/// The end of the mapping: the remembered one, unless the site lies beyond it.
pub open spec fn mapping_end_of(address: u64, remembered: u64, arena_end: u64) -> u64 {
    if remembered <= address {
        arena_end
    } else {
        remembered
    }
}

pub open spec fn snapshot_of(address: u64, remembered: u64, arena_end: Option<u64>) -> Result<
    Snapshot,
    InstallError,
> {
    match arena_end {
        None => Err(InstallError::NoArena),
        Some(arena_end) => {
            let mapping_end = mapping_end_of(address, remembered, arena_end);
            let available = if mapping_end - address < PATCH_SNAPSHOT_BYTES {
                (mapping_end - address) as u64
            } else {
                PATCH_SNAPSHOT_BYTES
            };
            if available < WORD_PATCH_BYTES {
                Err(InstallError::MappingEnd)
            } else {
                Ok(Snapshot { mapping_end, available })
            }
        },
    }
}

/// How much of the code at a site is looked at.
pub fn plan_snapshot(address: u64, remembered: u64, arena_end: Option<u64>) -> (result: Result<
    Snapshot,
    InstallError,
>)
    requires
        arena_end matches Some(end) ==> address < end,
    ensures
        result == snapshot_of(address, remembered, arena_end),
{
    let arena_end: u64 = match arena_end {
        Some(arena_end) => arena_end,
        None => return Err(InstallError::NoArena),
    };
    let mapping_end: u64 = if remembered <= address {
        arena_end
    } else {
        remembered
    };
    let rest: u64 = mapping_end - address;
    let available: u64 = if rest < PATCH_SNAPSHOT_BYTES {
        rest
    } else {
        PATCH_SNAPSHOT_BYTES
    };
    if available < WORD_PATCH_BYTES {
        return Err(InstallError::MappingEnd);
    }
    Ok(Snapshot { mapping_end, available })
}

/// Whether the code at a site starts with the instruction that is expected there.
pub fn check_candidate(candidate: &[u8], expected: &[u8]) -> (result: Result<(), InstallError>)
    ensures
        result == if expected@.is_prefix_of(candidate@) {
            Ok::<(), InstallError>(())
        } else {
            Err(InstallError::OtherInstruction)
        },
{
    if candidate.len() < expected.len() {
        return Err(InstallError::OtherInstruction);
    }
    let mut index: usize = 0;
    while index < expected.len()
        invariant
            index <= expected.len() <= candidate.len(),
            forall|i: int| 0 <= i < index ==> expected@[i] == candidate@[i],
        decreases expected.len() - index,
    {
        if candidate[index] != expected[index] {
            assert(expected@[index as int] != candidate@.subrange(
                0,
                expected@.len() as int,
            )[index as int]);
            return Err(InstallError::OtherInstruction);
        }
        index = index + 1;
    }
    assert(expected@ =~= candidate@.subrange(0, expected@.len() as int));
    Ok(())
}

/// The bytes of the first instruction that the jump of a patch replaces.
pub fn replaced_bytes(instruction_len: u64) -> (bytes: u64)
    ensures
        bytes == if instruction_len < NEAR_JUMP_BYTES {
            instruction_len
        } else {
            NEAR_JUMP_BYTES
        },
{
    if instruction_len < NEAR_JUMP_BYTES {
        instruction_len
    } else {
        NEAR_JUMP_BYTES
    }
}

// ---------------------------------------------------------------------------
// Installation
// ---------------------------------------------------------------------------

/// What is done next to install a hook.
#[derive(Clone, Copy, Debug, PartialEq, Eq, Structural)]
pub enum InstallStep {
    /// Look at the code of the site and scan its instructions.
    Inspect,
    /// Find out how long a core may still see the old code.
    Budget,
    /// Make the code writable.
    Unprotect,
    /// Try the trampoline of this number.
    Attempt(u32),
    /// Publish the patch.
    Activate,
    /// Put the protection back; the hook is installed only if that succeeds.
    Protect,
    /// Put the protection back after a failure, as far as that is possible.
    Abandon,
    /// The hook is installed.
    Installed,
    /// It is not.
    Failed,
}

/// What came of a step.
#[derive(Clone, Copy, Debug, PartialEq, Eq, Structural)]
pub enum InstallOutcome {
    Succeeded,
    /// The displacement of the trampoline holds the guard byte.
    GuardConflict,
    Failed,
}

/// How a hook is installed.
#[derive(Clone, Copy, Debug, PartialEq, Eq, Structural)]
pub struct Installation {
    pub publication: PatchPublication,
    /// The protection of the code is changed around the patch.
    pub manage_protection: bool,
    pub step: InstallStep,
}

pub open spec fn after_budget(manage_protection: bool) -> InstallStep {
    if manage_protection {
        InstallStep::Unprotect
    } else {
        InstallStep::Attempt(1)
    }
}

pub open spec fn after_failure(manage_protection: bool) -> InstallStep {
    if manage_protection {
        InstallStep::Abandon
    } else {
        InstallStep::Failed
    }
}

/// The step after another. A trampoline whose displacement conflicts with the guard
/// byte is followed by a fresh one, a bounded number of times.
pub open spec fn next_step(
    publication: PatchPublication,
    manage_protection: bool,
    step: InstallStep,
    outcome: InstallOutcome,
) -> InstallStep {
    let succeeded = outcome == InstallOutcome::Succeeded;
    match step {
        InstallStep::Inspect => if !succeeded {
            InstallStep::Failed
        } else if publication == PatchPublication::Concurrent {
            InstallStep::Budget
        } else {
            after_budget(manage_protection)
        },
        InstallStep::Budget => if succeeded {
            after_budget(manage_protection)
        } else {
            InstallStep::Failed
        },
        InstallStep::Unprotect => if succeeded {
            InstallStep::Attempt(1)
        } else {
            InstallStep::Failed
        },
        InstallStep::Attempt(attempts) => if succeeded {
            InstallStep::Activate
        } else if outcome == InstallOutcome::GuardConflict && attempts < MAX_ATTEMPTS {
            InstallStep::Attempt((attempts + 1) as u32)
        } else {
            after_failure(manage_protection)
        },
        InstallStep::Activate => if !succeeded {
            after_failure(manage_protection)
        } else if manage_protection {
            InstallStep::Protect
        } else {
            InstallStep::Installed
        },
        InstallStep::Protect => if succeeded {
            InstallStep::Installed
        } else {
            InstallStep::Failed
        },
        InstallStep::Abandon => InstallStep::Failed,
        InstallStep::Installed => InstallStep::Installed,
        InstallStep::Failed => InstallStep::Failed,
    }
}

/// Starts to install the hook of a claimed site: patching is allowed, no other
/// installation is going on, an arena reaches the site and its mapping holds a whole
/// patch. The lock is held only by an installation that started. The end of the mapping
/// is remembered.
pub fn install_site_hook(
    modes: &mut ModeState,
    lock: &mut InstallLock,
    table: &mut SiteTable,
    slot: usize,
    arena_end: Option<u64>,
    publication: PatchPublication,
    manage_protection: bool,
) -> (result: Result<(Installation, Snapshot), InstallError>)
    requires
        slot < old(table)@.len(),
        arena_end matches Some(end) ==> old(table)@[slot as int].address < end,
    ensures
        *final(modes) == patch_attempted(*old(modes)),
        ({
            let site = old(table)@[slot as int];
            if old(modes).sud_only {
                &&& result == Err::<(Installation, Snapshot), InstallError>(
                    InstallError::PatchingDisabled,
                )
                &&& *final(lock) == *old(lock)
                &&& final(table)@ == old(table)@
            } else if old(lock).held {
                &&& result == Err::<(Installation, Snapshot), InstallError>(InstallError::Busy)
                &&& *final(lock) == *old(lock)
                &&& final(table)@ == old(table)@
            } else {
                &&& final(table)@ == match arena_end {
                    Some(end) => old(table)@.update(
                        slot as int,
                        Site {
                            mapping_end: mapping_end_of(site.address, site.mapping_end, end),
                            ..site
                        },
                    ),
                    None => old(table)@,
                }
                &&& match snapshot_of(site.address, site.mapping_end, arena_end) {
                    Err(error) => result == Err::<(Installation, Snapshot), InstallError>(error)
                        && !final(lock).held,
                    Ok(snapshot) => final(lock).held && result == Ok::<
                        (Installation, Snapshot),
                        InstallError,
                    >(
                        (
                            Installation {
                                publication,
                                manage_protection,
                                step: InstallStep::Inspect,
                            },
                            snapshot,
                        ),
                    ),
                }
            }
        }),
{
    match modes.patching() {
        Ok(()) => {},
        Err(_) => return Err(InstallError::PatchingDisabled),
    }
    match lock.lock_installation() {
        Ok(()) => {},
        Err(_) => return Err(InstallError::Busy),
    }
    let site: Site = table.site(slot);
    match arena_end {
        Some(end) => {
            let mapping_end: u64 = if site.mapping_end <= site.address {
                end
            } else {
                site.mapping_end
            };
            table.record_mapping_end(slot, mapping_end);
        },
        None => {},
    }
    match plan_snapshot(site.address, site.mapping_end, arena_end) {
        Ok(snapshot) => Ok(
            (
                Installation { publication, manage_protection, step: InstallStep::Inspect },
                snapshot,
            ),
        ),
        Err(error) => {
            lock.unlock_installation();
            Err(error)
        },
    }
}

impl Installation {
    /// Takes what came of the last step.
    pub fn advance(&mut self, outcome: InstallOutcome)
        ensures
            *final(self) == (Installation {
                step: next_step(
                    old(self).publication,
                    old(self).manage_protection,
                    old(self).step,
                    outcome,
                ),
                ..*old(self)
            }),
    {
        let succeeded: bool = outcome == InstallOutcome::Succeeded;
        let manage: bool = self.manage_protection;
        let given_up: InstallStep = if manage {
            InstallStep::Abandon
        } else {
            InstallStep::Failed
        };
        let first: InstallStep = if manage {
            InstallStep::Unprotect
        } else {
            InstallStep::Attempt(1)
        };
        self.step = match self.step {
            InstallStep::Inspect => if !succeeded {
                InstallStep::Failed
            } else if self.publication == PatchPublication::Concurrent {
                InstallStep::Budget
            } else {
                first
            },
            InstallStep::Budget => if succeeded {
                first
            } else {
                InstallStep::Failed
            },
            InstallStep::Unprotect => if succeeded {
                InstallStep::Attempt(1)
            } else {
                InstallStep::Failed
            },
            InstallStep::Attempt(attempts) => if succeeded {
                InstallStep::Activate
            } else if outcome == InstallOutcome::GuardConflict && attempts < MAX_ATTEMPTS {
                InstallStep::Attempt(attempts + 1)
            } else {
                given_up
            },
            InstallStep::Activate => if !succeeded {
                given_up
            } else if manage {
                InstallStep::Protect
            } else {
                InstallStep::Installed
            },
            InstallStep::Protect => if succeeded {
                InstallStep::Installed
            } else {
                InstallStep::Failed
            },
            InstallStep::Abandon => InstallStep::Failed,
            InstallStep::Installed => InstallStep::Installed,
            InstallStep::Failed => InstallStep::Failed,
        };
    }
}

pub open spec fn is_over(step: InstallStep) -> bool {
    step == InstallStep::Installed || step == InstallStep::Failed
}

/// Ends an installation that is over: its site is active with the hook, which is none but
/// a real one, or given up, and the lock is free.
pub fn finish_installation(
    installation: Installation,
    modes: &mut ModeState,
    lock: &mut InstallLock,
    table: &mut SiteTable,
    slot: usize,
    hook: u64,
) -> (installed: bool)
    requires
        is_over(installation.step),
        slot < old(table)@.len(),
        old(table)@[slot as int].address != 0,
        installation.step == InstallStep::Installed ==> hook != 0,
    ensures
        !final(lock).held,
        installed == (installation.step == InstallStep::Installed),
        installed ==> *final(modes) == patch_recorded(*old(modes)) && final(table)@ == old(
            table,
        )@.update(
            slot as int,
            Site { hook, state: SiteState::Active, ..old(table)@[slot as int] },
        ),
        !installed ==> *final(modes) == *old(modes) && final(table)@ == old(table)@.update(
            slot as int,
            Site { state: SiteState::Fallback, ..old(table)@[slot as int] },
        ),
{
    let installed: bool = installation.step == InstallStep::Installed;
    if installed {
        modes.installed();
        table.activate(slot, hook);
    } else {
        table.fail(slot);
    }
    lock.unlock_installation();
    installed
}

/// How far an installation is from its end.
pub open spec fn steps_left(step: InstallStep) -> nat {
    match step {
        InstallStep::Inspect => 22,
        InstallStep::Budget => 21,
        InstallStep::Unprotect => 20,
        InstallStep::Attempt(attempts) => if attempts <= MAX_ATTEMPTS {
            (19 - attempts) as nat
        } else {
            3
        },
        InstallStep::Activate => 2,
        InstallStep::Protect => 1,
        InstallStep::Abandon => 1,
        InstallStep::Installed => 0,
        InstallStep::Failed => 0,
    }
}

/// Whatever comes of its steps, an installation ends.
pub proof fn installations_end(
    publication: PatchPublication,
    manage_protection: bool,
    step: InstallStep,
    outcome: InstallOutcome,
)
    requires
        !is_over(step),
    ensures
        steps_left(next_step(publication, manage_protection, step, outcome)) < steps_left(step),
{
}

/// Once the code was made writable, an installation does not end before it tries to put
/// the protection back: in `Protect` over a patch that was published, else in `Abandon`.
pub proof fn protection_is_put_back(
    publication: PatchPublication,
    step: InstallStep,
    outcome: InstallOutcome,
)
    requires
        step is Attempt || step == InstallStep::Activate,
    ensures
        ({
            let next = next_step(publication, true, step, outcome);
            &&& next is Attempt || next == InstallStep::Activate || next == InstallStep::Protect
                || next == InstallStep::Abandon
            &&& next == InstallStep::Protect <==> step == InstallStep::Activate && outcome
                == InstallOutcome::Succeeded
        }),
{
}

/// A hook is installed only by a patch that was published, with its protection put back
/// where that is managed.
pub proof fn only_published_patches_are_installed(
    publication: PatchPublication,
    manage_protection: bool,
    step: InstallStep,
    outcome: InstallOutcome,
)
    requires
        !is_over(step),
        next_step(publication, manage_protection, step, outcome) == InstallStep::Installed,
    ensures
        outcome == InstallOutcome::Succeeded,
        step == InstallStep::Protect || (!manage_protection && step == InstallStep::Activate),
{
}

// ---------------------------------------------------------------------------
// The vDSO
// ---------------------------------------------------------------------------

/// The calls of the vDSO that have a hook.
#[derive(Clone, Copy, Debug, PartialEq, Eq, Structural)]
pub enum VdsoHook {
    Time,
    ClockGettime,
    Getcpu,
    Gettimeofday,
    ClockGetres,
}

/// The hook of a vDSO call, or its number where it has none.
pub fn vdso_callback(number: i64) -> (result: Result<VdsoHook, i64>)
    ensures
        result == if number == SYS_TIME {
            Ok::<VdsoHook, i64>(VdsoHook::Time)
        } else if number == SYS_CLOCK_GETTIME {
            Ok(VdsoHook::ClockGettime)
        } else if number == SYS_GETCPU {
            Ok(VdsoHook::Getcpu)
        } else if number == SYS_GETTIMEOFDAY {
            Ok(VdsoHook::Gettimeofday)
        } else if number == SYS_CLOCK_GETRES {
            Ok(VdsoHook::ClockGetres)
        } else {
            Err(number)
        },
{
    if number == SYS_TIME {
        Ok(VdsoHook::Time)
    } else if number == SYS_CLOCK_GETTIME {
        Ok(VdsoHook::ClockGettime)
    } else if number == SYS_GETCPU {
        Ok(VdsoHook::Getcpu)
    } else if number == SYS_GETTIMEOFDAY {
        Ok(VdsoHook::Gettimeofday)
    } else if number == SYS_CLOCK_GETRES {
        Ok(VdsoHook::ClockGetres)
    } else {
        Err(number)
    }
}

#[derive(Clone, Copy, Debug, PartialEq, Eq, Structural)]
pub enum VdsoSiteError {
    TableFull,
    ClaimedTwice,
}

/// Claims the site of a vDSO call, which nobody else may have claimed.
pub fn claim_vdso_site(table: &mut SiteTable, address: u64) -> (result: Result<
    usize,
    VdsoSiteError,
>)
    requires
        address != 0,
    ensures
        final(table)@ == claim(old(table)@, address).0,
        match claim(old(table)@, address).1 {
            None => result == Err::<usize, VdsoSiteError>(VdsoSiteError::TableFull),
            Some((slot, claimed)) => if claimed {
                result == Ok::<usize, VdsoSiteError>(slot as usize) && 0 <= slot
                    < final(table)@.len() && slot <= usize::MAX
            } else {
                result == Err::<usize, VdsoSiteError>(VdsoSiteError::ClaimedTwice)
            },
        },
{
    match table.claim_site(address) {
        None => Err(VdsoSiteError::TableFull),
        Some((slot, claimed)) => if claimed {
            Ok(slot)
        } else {
            Err(VdsoSiteError::ClaimedTwice)
        },
    }
}

// ---------------------------------------------------------------------------
// Locating system calls
// ---------------------------------------------------------------------------

/// The instruction of a system call stands at an address, before the end of its
/// mapping.
pub open spec fn is_syscall_at(memory: Memory, address: u64, mapping_end: Option<u64>) -> bool {
    match mapping_end {
        None => false,
        Some(end) => address + 2 <= end && memory(address, 2) == seq![0x0fu8, 0x05u8],
    }
}

/// Where the system call stands that goes on at an address: before it, or at it.
/// `before_end` and `at_end` are the ends of the mappings that arenas serve there.
pub open spec fn site_of(
    memory: Memory,
    resume: u64,
    before_end: Option<u64>,
    at_end: Option<u64>,
) -> Option<u64> {
    if resume >= 2 && is_syscall_at(memory, (resume - 2) as u64, before_end) {
        Some((resume - 2) as u64)
    } else if is_syscall_at(memory, resume, at_end) {
        Some(resume)
    } else {
        None
    }
}

fn syscall_at<F: Fn(u64, usize) -> Vec<u8>>(read: &F, address: u64, mapping_end: Option<u64>) -> (
    result: bool)
    requires
        total(*read),
    ensures
        forall|memory: Memory| #[trigger]
            reads(*read, memory) ==> result == is_syscall_at(memory, address, mapping_end),
{
    let end: u64 = match mapping_end {
        Some(end) => end,
        None => return false,
    };
    match address.checked_add(2) {
        None => return false,
        Some(behind) => {
            if behind > end {
                return false;
            }
        },
    }
    let bytes: Vec<u8> = read(address, 2);
    let result: bool = bytes.len() == 2 && bytes[0] == 0x0f && bytes[1] == 0x05;
    proof {
        let syscall = seq![0x0fu8, 0x05u8];
        if result {
            assert(bytes@ =~= syscall);
        } else if bytes@ == syscall {
            assert(syscall.len() == 2 && syscall[0] == 0x0f && syscall[1] == 0x05);
        }
    }
    result
}

pub fn locate_syscall_site<F: Fn(u64, usize) -> Vec<u8>>(
    resume: u64,
    before_end: Option<u64>,
    at_end: Option<u64>,
    read: &F,
) -> (site: Option<u64>)
    requires
        total(*read),
    ensures
        forall|memory: Memory| #[trigger]
            reads(*read, memory) ==> site == site_of(memory, resume, before_end, at_end),
        site matches Some(address) ==> address == resume || address + 2 == resume,
{
    if resume >= 2 && syscall_at(read, resume - 2, before_end) {
        return Some(resume - 2);
    }
    if syscall_at(read, resume, at_end) {
        return Some(resume);
    }
    None
}

} // verus!
