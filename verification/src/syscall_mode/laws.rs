//! What selecting a mode and counting promise.

use vstd::prelude::*;

use crate::syscall_mode::syscall_mode_stats;
use crate::syscall_mode::ModeState;
use crate::syscall_mode::PatchingDisabled;
use crate::syscall_mode::SyscallMode;
use crate::syscall_mode::SyscallModeStats;

verus! {

/// A counter went up by one, around its end.
pub open spec fn counts_one(before: u64, after: u64) -> bool {
    (after - before - 1) % 0x1_0000_0000_0000_0000 == 0
}

/// Only user dispatch forbids patching; selecting a mode keeps the counts.
pub proof fn modes_are_selected(
    state: &mut ModeState,
    mode: SyscallMode,
    patched: bool,
    stats: SyscallModeStats,
)
    requires
        call_ensures(ModeState::select, (state, mode), ()),
        call_ensures(ModeState::sud_only, (&*final(state),), patched),
        call_ensures(syscall_mode_stats, (&*final(state),), stats),
    ensures
        patched <==> mode == SyscallMode::UserDispatchWithoutPatching,
        stats == old(state).stats,
{
}

/// Every attempt is counted, in its own counter and in no other, and refused exactly where
/// nothing may be patched.
pub proof fn attempts_are_counted_and_judged(
    planned: &mut ModeState,
    patched: &mut ModeState,
    rewritten: &mut ModeState,
    plan: Result<(), PatchingDisabled>,
    patch: Result<(), PatchingDisabled>,
    rewrite: Result<(), PatchingDisabled>,
)
    requires
        *old(patched) == *old(planned),
        *old(rewritten) == *old(planned),
        call_ensures(ModeState::planning, (planned,), plan),
        call_ensures(ModeState::patching, (patched,), patch),
        call_ensures(ModeState::vdso_rewrite, (rewritten,), rewrite),
    ensures
        plan is Ok <==> !old(planned).sud_only,
        patch is Ok <==> !old(planned).sud_only,
        rewrite is Ok <==> !old(planned).sud_only,
        counts_one(old(planned).stats.planning_attempts, final(planned).stats.planning_attempts),
        counts_one(old(planned).stats.patch_attempts, final(patched).stats.patch_attempts),
        counts_one(
            old(planned).stats.vdso_rewrite_attempts,
            final(rewritten).stats.vdso_rewrite_attempts,
        ),
        *final(planned) == (ModeState {
            stats: SyscallModeStats {
                planning_attempts: final(planned).stats.planning_attempts,
                ..old(planned).stats
            },
            ..*old(planned)
        }),
        *final(patched) == (ModeState {
            stats: SyscallModeStats {
                patch_attempts: final(patched).stats.patch_attempts,
                ..old(planned).stats
            },
            ..*old(planned)
        }),
        *final(rewritten) == (ModeState {
            stats: SyscallModeStats {
                vdso_rewrite_attempts: final(rewritten).stats.vdso_rewrite_attempts,
                ..old(planned).stats
            },
            ..*old(planned)
        }),
{
}

/// What happened is counted once, in its own counter and in no other.
pub proof fn happenings_are_counted(
    validated: &mut ModeState,
    deferred: &mut ModeState,
    installed: &mut ModeState,
)
    requires
        *old(deferred) == *old(validated),
        *old(installed) == *old(validated),
        call_ensures(ModeState::record_sud, (validated,), ()),
        call_ensures(ModeState::record_deferred, (deferred,), ()),
        call_ensures(ModeState::installed, (installed,), ()),
    ensures
        counts_one(old(validated).stats.validated_sud, final(validated).stats.validated_sud),
        counts_one(old(validated).stats.deferred_sud, final(deferred).stats.deferred_sud),
        counts_one(
            old(validated).stats.installed_patches,
            final(installed).stats.installed_patches,
        ),
        *final(validated) == (ModeState {
            stats: SyscallModeStats {
                validated_sud: final(validated).stats.validated_sud,
                ..old(validated).stats
            },
            ..*old(validated)
        }),
        *final(deferred) == (ModeState {
            stats: SyscallModeStats {
                deferred_sud: final(deferred).stats.deferred_sud,
                ..old(validated).stats
            },
            ..*old(validated)
        }),
        *final(installed) == (ModeState {
            stats: SyscallModeStats {
                installed_patches: final(installed).stats.installed_patches,
                ..old(validated).stats
            },
            ..*old(validated)
        }),
{
}

} // verus!
