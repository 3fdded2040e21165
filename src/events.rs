use vstd::prelude::*;

verus! {

/// High-level build phase, used for labels and progress bands.
#[derive(Clone, Copy, Debug, PartialEq, Eq, Structural)]
pub enum Phase {
    Patching,
    Compiling,
    Optimizing,
    Testing,
    Installing,
}

/// Position of a phase in the pipeline; phases never go backward.
pub open spec fn phase_rank(p: Phase) -> int {
    match p {
        Phase::Patching => 0,
        Phase::Compiling => 1,
        Phase::Optimizing => 2,
        Phase::Testing => 3,
        Phase::Installing => 4,
    }
}

/// One structured progress report of a build run.
///
/// `Progress` carries a fraction in units of `PROGRESS_SCALE`.
#[derive(Clone, Debug)]
pub enum Event {
    Phase(Phase),
    Progress(u32),
    CurrentItem(String),
    Log(String),
    PatchFileApplied(String),
    PatchFileSkipped { name: String, reason: String },
    Complete { binary_path: String, elapsed_secs: u64 },
    Error { message: String },
}

pub open spec fn is_terminal(e: Event) -> bool {
    e is Complete || e is Error
}

} // verus!
