use vstd::prelude::*;

verus! {

/// Optimization intent: one selector that maps to the concrete knobs.
#[derive(Clone, Copy, Debug, PartialEq, Eq, Structural)]
pub enum OptimizationMode {
    /// Prefer faster builds: link with the fast linker, no binary rewrite.
    BuildFast,
    /// Prefer faster runtime: run the binary rewrite, no fast linker.
    RunFast,
    /// Caller-chosen knobs, still subject to the flag invariant.
    Custom,
}

/// Concrete optimization knobs of one build.
#[derive(Clone, Copy, Debug, PartialEq, Eq, Structural)]
pub struct OptimizationFlags {
    pub use_mold: bool,
    pub use_bolt: bool,
}

/// The rewrite tool cannot process output of the fast linker.
pub open spec fn flags_consistent(f: OptimizationFlags) -> bool {
    f.use_bolt ==> !f.use_mold
}

/// Flags a mode asks for, given the tools that are available, before the
/// invariant is enforced.
pub open spec fn mode_flags(mode: OptimizationMode, has_mold: bool, has_bolt: bool) -> OptimizationFlags {
    match mode {
        OptimizationMode::BuildFast => OptimizationFlags { use_mold: has_mold, use_bolt: false },
        OptimizationMode::RunFast => OptimizationFlags { use_mold: false, use_bolt: has_bolt },
        OptimizationMode::Custom => OptimizationFlags { use_mold: has_mold, use_bolt: has_bolt },
    }
}

/// The flags after the invariant has been enforced: the rewrite wins.
pub open spec fn enforced(f: OptimizationFlags) -> OptimizationFlags {
    OptimizationFlags { use_mold: f.use_mold && !f.use_bolt, use_bolt: f.use_bolt }
}

impl OptimizationFlags {
    /// The flags a mode derives from the available tools, passed through the
    /// invariant enforcement.
    pub fn from_mode(mode: OptimizationMode, has_mold: bool, has_bolt: bool) -> (r: Self)
        ensures
            r == enforced(mode_flags(mode, has_mold, has_bolt)),
            flags_consistent(r),
    {
        let mut f = match mode {
            OptimizationMode::BuildFast => OptimizationFlags { use_mold: has_mold, use_bolt: false },
            OptimizationMode::RunFast => OptimizationFlags { use_mold: false, use_bolt: has_bolt },
            OptimizationMode::Custom => OptimizationFlags { use_mold: has_mold, use_bolt: has_bolt },
        };
        f.enforce_invariants();
        f
    }

    pub fn enforce_invariants(&mut self)
        ensures
            *final(self) == enforced(*old(self)),
            flags_consistent(*final(self)),
    {
        if self.use_bolt {
            self.use_mold = false;
        }
    }
}

/// Whatever the knobs were set to, enforcing the invariant leaves the rewrite
/// pass and the fast linker never enabled together.
pub proof fn lemma_enforced_consistent(f: OptimizationFlags)
    ensures
        flags_consistent(enforced(f)),
        flags_consistent(f) ==> enforced(f) == f,
{
}

/// A mode never enables a feature whose backing tool is unavailable, and after
/// enforcement the derived flags are consistent.
pub proof fn lemma_mode_respects_availability(mode: OptimizationMode, has_mold: bool, has_bolt: bool)
    ensures
        mode_flags(mode, has_mold, has_bolt).use_mold ==> has_mold,
        mode_flags(mode, has_mold, has_bolt).use_bolt ==> has_bolt,
        enforced(mode_flags(mode, has_mold, has_bolt)).use_mold ==> has_mold,
        enforced(mode_flags(mode, has_mold, has_bolt)).use_bolt ==> has_bolt,
        flags_consistent(enforced(mode_flags(mode, has_mold, has_bolt))),
        mode != OptimizationMode::Custom ==> flags_consistent(mode_flags(mode, has_mold, has_bolt)),
{
}

} // verus!
