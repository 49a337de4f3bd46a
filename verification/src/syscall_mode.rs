//! How system calls are intercepted, and counts of what was attempted.

use vstd::prelude::*;

pub mod laws;

verus! {

/// System call interception for an explicitly installed in-process tool.
#[derive(Clone, Copy, Debug, PartialEq, Eq, Structural)]
pub enum SyscallMode {
    /// Seccomp interception with optional-site instrumentation.
    SeccompWithPatching,
    /// Native x86-64 user dispatch without guest rewriting.
    UserDispatchWithoutPatching,
}

impl Default for SyscallMode {
    fn default() -> (mode: Self)
        ensures
            mode == SyscallMode::SeccompWithPatching,
    {
        SyscallMode::SeccompWithPatching
    }
}

/// Process counters, including attempted work, not only success. They wrap.
#[derive(Clone, Copy, Debug, PartialEq, Eq, Structural)]
pub struct SyscallModeStats {
    pub validated_sud: u64,
    pub deferred_sud: u64,
    pub planning_attempts: u64,
    pub patch_attempts: u64,
    pub installed_patches: u64,
    pub vdso_rewrite_attempts: u64,
}

/// Guest patching is disabled.
#[derive(Clone, Copy, Debug, PartialEq, Eq, Structural)]
pub struct PatchingDisabled;

impl PatchingDisabled {
    pub fn text(self) -> (text: &'static str)
        ensures
            text == "guest patching is disabled in SUD-only mode",
    {
        "guest patching is disabled in SUD-only mode"
    }
}

/// The selected mode and the counters.
#[derive(Clone, Copy, Debug, PartialEq, Eq, Structural)]
pub struct ModeState {
    pub sud_only: bool,
    pub stats: SyscallModeStats,
}

pub open spec fn counted(count: u64) -> u64 {
    if count == u64::MAX {
        0
    } else {
        (count + 1) as u64
    }
}

pub open spec fn zero_stats() -> SyscallModeStats {
    SyscallModeStats {
        validated_sud: 0,
        deferred_sud: 0,
        planning_attempts: 0,
        patch_attempts: 0,
        installed_patches: 0,
        vdso_rewrite_attempts: 0,
    }
}

pub open spec fn attempt_result(sud_only: bool) -> Result<(), PatchingDisabled> {
    if sud_only {
        Err(PatchingDisabled)
    } else {
        Ok(())
    }
}

pub open spec fn sud_recorded(state: ModeState) -> ModeState {
    ModeState {
        stats: SyscallModeStats {
            validated_sud: counted(state.stats.validated_sud),
            ..state.stats
        },
        ..state
    }
}

pub open spec fn deferral_recorded(state: ModeState) -> ModeState {
    ModeState {
        stats: SyscallModeStats { deferred_sud: counted(state.stats.deferred_sud), ..state.stats },
        ..state
    }
}

pub open spec fn plan_attempted(state: ModeState) -> ModeState {
    ModeState {
        stats: SyscallModeStats {
            planning_attempts: counted(state.stats.planning_attempts),
            ..state.stats
        },
        ..state
    }
}

pub open spec fn patch_attempted(state: ModeState) -> ModeState {
    ModeState {
        stats: SyscallModeStats {
            patch_attempts: counted(state.stats.patch_attempts),
            ..state.stats
        },
        ..state
    }
}

pub open spec fn rewrite_attempted(state: ModeState) -> ModeState {
    ModeState {
        stats: SyscallModeStats {
            vdso_rewrite_attempts: counted(state.stats.vdso_rewrite_attempts),
            ..state.stats
        },
        ..state
    }
}

pub open spec fn patch_recorded(state: ModeState) -> ModeState {
    ModeState {
        stats: SyscallModeStats {
            installed_patches: counted(state.stats.installed_patches),
            ..state.stats
        },
        ..state
    }
}

impl Default for ModeState {
    fn default() -> (state: Self)
        ensures
            state == (ModeState { sud_only: false, stats: zero_stats() }),
    {
        ModeState {
            sud_only: false,
            stats: SyscallModeStats {
                validated_sud: 0,
                deferred_sud: 0,
                planning_attempts: 0,
                patch_attempts: 0,
                installed_patches: 0,
                vdso_rewrite_attempts: 0,
            },
        }
    }
}

/// The counters as they stand.
pub fn syscall_mode_stats(state: &ModeState) -> (stats: SyscallModeStats)
    ensures
        stats == state.stats,
{
    state.stats
}

fn attempt(counter: &mut u64, sud_only: bool) -> (result: Result<(), PatchingDisabled>)
    ensures
        *final(counter) == counted(*old(counter)),
        result == attempt_result(sud_only),
{
    *counter = counter.wrapping_add(1);
    if sud_only {
        Err(PatchingDisabled)
    } else {
        Ok(())
    }
}

impl ModeState {
    pub fn select(&mut self, mode: SyscallMode)
        ensures
            *final(self) == (ModeState {
                sud_only: mode == SyscallMode::UserDispatchWithoutPatching,
                ..*old(self)
            }),
    {
        self.sud_only = mode == SyscallMode::UserDispatchWithoutPatching;
    }

    pub fn sud_only(&self) -> (result: bool)
        ensures
            result == self.sud_only,
    {
        self.sud_only
    }

    pub fn record_sud(&mut self)
        ensures
            *final(self) == sud_recorded(*old(self)),
    {
        self.stats.validated_sud = self.stats.validated_sud.wrapping_add(1);
    }

    pub fn record_deferred(&mut self)
        ensures
            *final(self) == deferral_recorded(*old(self)),
    {
        self.stats.deferred_sud = self.stats.deferred_sud.wrapping_add(1);
    }

    /// Counts an attempt to plan, and refuses it where nothing may be patched.
    pub fn planning(&mut self) -> (result: Result<(), PatchingDisabled>)
        ensures
            result == attempt_result(old(self).sud_only),
            *final(self) == plan_attempted(*old(self)),
    {
        let sud_only: bool = self.sud_only;
        attempt(&mut self.stats.planning_attempts, sud_only)
    }

    /// Counts an attempt to patch, and refuses it where nothing may be patched.
    pub fn patching(&mut self) -> (result: Result<(), PatchingDisabled>)
        ensures
            result == attempt_result(old(self).sud_only),
            *final(self) == patch_attempted(*old(self)),
    {
        let sud_only: bool = self.sud_only;
        attempt(&mut self.stats.patch_attempts, sud_only)
    }

    /// Counts an attempt to rewrite the vDSO, and refuses it where nothing may be
    /// patched.
    pub fn vdso_rewrite(&mut self) -> (result: Result<(), PatchingDisabled>)
        ensures
            result == attempt_result(old(self).sud_only),
            *final(self) == rewrite_attempted(*old(self)),
    {
        let sud_only: bool = self.sud_only;
        attempt(&mut self.stats.vdso_rewrite_attempts, sud_only)
    }

    pub fn installed(&mut self)
        ensures
            *final(self) == patch_recorded(*old(self)),
    {
        self.stats.installed_patches = self.stats.installed_patches.wrapping_add(1);
    }
}

} // verus!
