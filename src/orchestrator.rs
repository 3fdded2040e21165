use vstd::prelude::*;
use crate::events::{Event, Phase, phase_rank, is_terminal};
use crate::flags::{OptimizationFlags, flags_consistent};
use crate::git::CherryPickOutcome;
use crate::patching::{FileReport, patch_file_events, file_outcome, file_progress, clone_event};
use crate::text::{join, push_text};

verus! {

/// Progress reached when the checkout is done.
pub const CHECKOUT_DONE: u32 = 200;
/// Progress reached when patching is done and compiling starts.
pub const PATCHING_DONE: u32 = 500;
/// Progress reached when the compiler has produced the program.
pub const COMPILE_DONE: u32 = 9800;
/// Progress of a finished run.
pub const RUN_DONE: u32 = 10000;

/// User choices for one build.
#[derive(Clone, Debug)]
pub struct BuildOptions {
    /// Named compiler optimization profile.
    pub profile: String,
    pub cpu_target: Option<String>,
    pub optimization: OptimizationFlags,
    pub strip_symbols: bool,
    pub run_tests: bool,
    pub setup_alias: bool,
    /// Cap on the build tool's parallel jobs; `None` leaves the tool's default.
    pub cargo_jobs: Option<usize>,
}

/// The complete, immutable input of one build run.
#[derive(Clone, Debug)]
pub struct BuildRequest {
    pub repo: String,
    pub workspace: String,
    pub revision: String,
    /// Commits to cherry-pick after checkout, in order.
    pub cherry_picks: Vec<String>,
    /// Patch-definition files to apply, in order.
    pub patch_files: Vec<String>,
    pub options: BuildOptions,
}

/// The next piece of outside work the caller performs for the run.
#[derive(Clone, Debug, PartialEq, Eq)]
pub enum Action {
    /// Report whether the working tree has uncommitted changes.
    InspectTree,
    /// Stash the working tree's changes under a recognizable message.
    Stash,
    /// Check out the requested revision.
    Checkout,
    /// Cherry-pick the requested commits, skipping conflicting ones.
    CherryPick,
    /// Load and apply the patch file at this index.
    ApplyPatchFile(usize),
    /// Add the chosen compiler profile to the workspace if it is missing.
    InjectProfile,
    /// Run the compile-with-auto-fix loop.
    Compile,
    /// Run the rewrite pipeline on this program.
    Optimize(String),
    /// Strip symbols from this program.
    Strip(String),
    /// Run the verification tests.
    Test,
    /// Alias the shell command to this program.
    Install(String),
    /// Nothing is left to do.
    Finish,
}

/// The result of one test command.
#[derive(Clone, Debug)]
pub struct TestRun {
    pub name: String,
    pub passed: bool,
}

/// What the caller reports back after performing an action.
#[derive(Debug)]
pub enum Outcome {
    TreeInspected { dirty: bool },
    Stashed(Result<(), String>),
    CheckedOut(Result<(), String>),
    CherryPicked(Result<CherryPickOutcome, String>),
    PatchFileDone { name: String, report: FileReport },
    ProfileInjected(Result<(), String>),
    Compiled(Result<String, String>),
    Optimized(Result<String, String>),
    Stripped(Result<(), String>),
    Tested(Vec<TestRun>),
    /// The alias was written to this rc file, or the shell has none.
    Installed(Result<Option<String>, String>),
}

/// A well-formed stretch of events: a terminal event only at its end, the
/// run done exactly when one was emitted, and phase events strictly rising
/// above the phase level the stretch started from.
pub open spec fn stretch_ok(evs: Seq<Event>, start: int, level: int, done: bool) -> bool {
    &&& forall|i: int| 0 <= i < evs.len() - 1 ==> !is_terminal(#[trigger] evs[i])
    &&& done <==> (evs.len() > 0 && is_terminal(evs.last()))
    &&& start <= level
    &&& forall|i: int| 0 <= i < evs.len() && (#[trigger] evs[i]) is Phase ==>
            start < phase_rank(evs[i]->Phase_0) + 1 <= level
    &&& forall|i: int, j: int| 0 <= i < j < evs.len() && (#[trigger] evs[i]) is Phase && (#[trigger] evs[j]) is Phase ==>
            phase_rank(evs[i]->Phase_0) < phase_rank(evs[j]->Phase_0)
}

/// No event from index `from` on reports a fatal error.
pub open spec fn no_error_from(evs: Seq<Event>, from: int) -> bool {
    forall|i: int| from <= i < evs.len() ==> !(#[trigger] evs[i] is Error)
}

/// The action once the program is built and, if asked, optimized: strip,
/// test, alias, then finish, each only if chosen. `from` 0 starts at
/// stripping, 1 at testing, 2 at aliasing.
pub open spec fn finishing_action(o: BuildOptions, binary: String, from: int) -> Action {
    if from <= 0 && o.strip_symbols {
        Action::Strip(binary)
    } else if from <= 1 && o.run_tests {
        Action::Test
    } else if from <= 2 && o.setup_alias {
        Action::Install(binary)
    } else {
        Action::Finish
    }
}

/// The first action of the patching step.
pub open spec fn patching_action(r: BuildRequest) -> Action {
    if r.patch_files.len() > 0 { Action::ApplyPatchFile(0) } else { Action::InjectProfile }
}

/// A stretch of events that ends the run successfully: full progress, then
/// `Complete` naming the program.
pub open spec fn ends_complete(evs: Seq<Event>, binary: String, elapsed_secs: u64) -> bool {
    &&& evs.len() >= 2
    &&& evs[evs.len() - 2] == Event::Progress(RUN_DONE)
    &&& evs.last() == (Event::Complete { binary_path: binary, elapsed_secs })
}

/// Number of events one patch file produces.
pub open spec fn patch_segment_len(name: Seq<char>, report: FileReport) -> int {
    if file_outcome(name, report).1 == 0 { 1 } else { 2 }
}

/// The events one patch file produces: its outcome, if any, then the
/// progress reached.
pub open spec fn patch_segment(evs: Seq<Event>, name: String, report: FileReport, progress: u32) -> bool {
    let o = file_outcome(name@, report);
    &&& evs.len() == patch_segment_len(name@, report)
    &&& evs.last() == Event::Progress(progress)
    &&& o.1 == 1 ==> evs[0] == Event::PatchFileApplied(name)
    &&& o.1 == 2 ==> (evs[0] matches Event::PatchFileSkipped { name: n, reason } && n == name && reason@ == o.2)
}

/// Actions of the phases before compiling.
pub open spec fn early(a: Action) -> bool {
    a is InspectTree || a is Stash || a is Checkout || a is CherryPick || a is ApplyPatchFile || a is InjectProfile
}

/// The state of one build run: the request, the pending action, the best
/// program so far, and how far the run has come.
#[derive(Debug)]
pub struct BuildRun {
    request: BuildRequest,
    pending: Action,
    binary: String,
    phase_level: u8,
    done: bool,
}

impl BuildRun {
    pub closed spec fn spec_request(&self) -> BuildRequest {
        self.request
    }

    pub closed spec fn spec_pending(&self) -> Action {
        self.pending
    }

    pub closed spec fn spec_done(&self) -> bool {
        self.done
    }

    /// One more than the rank of the last phase announced; 0 before any.
    pub closed spec fn spec_phase_level(&self) -> int {
        self.phase_level as int
    }

    pub closed spec fn spec_binary(&self) -> String {
        self.binary
    }

    /// The common shape of one step: the run stays well formed, the request
    /// is untouched, and the new events extend the old well-formedly.
    pub closed spec fn stepped(&self, after: BuildRun, ov: Seq<Event>, nv: Seq<Event>, start: int) -> bool {
        &&& after.wf()
        &&& stretch_ok(nv, start, after.phase_level as int, after.done)
        &&& after.request == self.request
        &&& ov.len() <= nv.len()
        &&& nv.subrange(0, ov.len() as int) == ov
    }

    pub closed spec fn wf(&self) -> bool {
        &&& self.phase_level <= 5
        &&& flags_consistent(self.request.options.optimization)
        &&& (self.done <==> self.pending is Finish)
        &&& (self.pending matches Action::ApplyPatchFile(i) ==> i < self.request.patch_files.len())
        &&& (early(self.pending) ==> self.phase_level <= 1)
        &&& (self.pending is Compile ==> self.phase_level <= 2)
        &&& (self.pending is Optimize || self.pending is Strip ==> self.phase_level <= 3)
        &&& (self.pending is Test ==> self.phase_level <= 4)
    }

    /// The pending action.
    pub fn next_action(&self) -> (r: Action)
        ensures
            r == self.spec_pending(),
    {
        match &self.pending {
            Action::InspectTree => Action::InspectTree,
            Action::Stash => Action::Stash,
            Action::Checkout => Action::Checkout,
            Action::CherryPick => Action::CherryPick,
            Action::ApplyPatchFile(i) => Action::ApplyPatchFile(*i),
            Action::InjectProfile => Action::InjectProfile,
            Action::Compile => Action::Compile,
            Action::Optimize(b) => Action::Optimize(b.clone()),
            Action::Strip(b) => Action::Strip(b.clone()),
            Action::Test => Action::Test,
            Action::Install(b) => Action::Install(b.clone()),
            Action::Finish => Action::Finish,
        }
    }

    pub fn is_done(&self) -> (r: bool)
        ensures
            r == self.spec_done(),
    {
        self.done
    }

    pub fn request(&self) -> (r: &BuildRequest)
        ensures
            *r == self.spec_request(),
    {
        &self.request
    }

    fn emit(&mut self, v: &mut Vec<Event>, e: Event, Ghost(start): Ghost<int>)
        requires
            old(self).phase_level <= 5,
            !old(self).done,
            stretch_ok(old(v)@, start, old(self).phase_level as int, false),
            e matches Event::Phase(p) ==> phase_rank(p) + 1 > old(self).phase_level,
            is_terminal(e) ==> old(self).pending is Finish,
        ensures
            final(self).phase_level <= 5,
            final(v)@ == old(v)@.push(e),
            stretch_ok(final(v)@, start, final(self).phase_level as int, final(self).done),
            final(self).done == is_terminal(e),
            final(self).request == old(self).request,
            final(self).pending == old(self).pending,
            final(self).binary == old(self).binary,
            final(self).phase_level >= old(self).phase_level,
            !(e is Phase) ==> final(self).phase_level == old(self).phase_level,
            e matches Event::Phase(p) ==> final(self).phase_level == phase_rank(p) + 1,
    {
        let ghost ov = v@;
        match &e {
            Event::Phase(p) => {
                self.phase_level = match p {
                    Phase::Patching => 1,
                    Phase::Compiling => 2,
                    Phase::Optimizing => 3,
                    Phase::Testing => 4,
                    Phase::Installing => 5,
                };
            },
            Event::Complete { .. } | Event::Error { .. } => {
                self.done = true;
            },
            _ => {},
        }
        v.push(e);
        proof {
            let nv = v@;
            assert forall|i: int| 0 <= i < nv.len() - 1 implies !is_terminal(#[trigger] nv[i]) by {
                assert(nv[i] == ov[i]);
            }
            assert forall|i: int| 0 <= i < nv.len() && (#[trigger] nv[i]) is Phase implies
                start < phase_rank(nv[i]->Phase_0) + 1 <= self.phase_level by {
                if i < ov.len() {
                    assert(nv[i] == ov[i]);
                }
            }
            assert forall|i: int, j: int| 0 <= i < j < nv.len() && (#[trigger] nv[i]) is Phase && (#[trigger] nv[j]) is Phase implies
                phase_rank(nv[i]->Phase_0) < phase_rank(nv[j]->Phase_0) by {
                assert(nv[i] == ov[i]);
                if j < ov.len() {
                    assert(nv[j] == ov[j]);
                }
            }
        }
    }

    /// Starts a run: the flag invariant is enforced on the request, the
    /// patching phase is announced, and the working tree is inspected first.
    pub fn start(request: BuildRequest) -> (r: (BuildRun, Vec<Event>))
        ensures
            r.0.wf(),
            r.0.spec_pending() == Action::InspectTree,
            !r.0.spec_done(),
            r.0.spec_request().revision == request.revision,
            r.0.spec_request().cherry_picks == request.cherry_picks,
            r.0.spec_request().patch_files == request.patch_files,
            r.0.spec_request().options.optimization == crate::flags::enforced(request.options.optimization),
            r.1@.len() == 4,
            r.1@[0] == Event::Phase(Phase::Patching),
            r.1@[1] == Event::Progress(0),
            r.1@[2] matches Event::CurrentItem(t) && t@ == "Checking out "@ + request.revision@,
            r.1@[3] matches Event::Log(t) && t@ == "git checkout "@ + request.revision@,
            stretch_ok(r.1@, 0, r.0.spec_phase_level(), false),
    {
        let mut request = request;
        request.options.optimization.enforce_invariants();
        let current = join("Checking out ", request.revision.as_str());
        let log = join("git checkout ", request.revision.as_str());
        let mut run = BuildRun {
            request,
            pending: Action::InspectTree,
            binary: String::new(),
            phase_level: 0,
            done: false,
        };
        let mut v: Vec<Event> = Vec::new();
        run.emit(&mut v, Event::Phase(Phase::Patching), Ghost(0));
        run.emit(&mut v, Event::Progress(0), Ghost(0));
        run.emit(&mut v, Event::CurrentItem(current), Ghost(0));
        run.emit(&mut v, Event::Log(log), Ghost(0));
        (run, v)
    }

    fn fail(&mut self, v: &mut Vec<Event>, message: String, Ghost(start): Ghost<int>)
        requires
            old(self).wf(),
            !old(self).done,
            stretch_ok(old(v)@, start, old(self).phase_level as int, false),
        ensures
            final(self).wf(),
            final(self).done,
            final(v)@ == old(v)@.push(Event::Error { message }),
            stretch_ok(final(v)@, start, final(self).phase_level as int, true),
            final(self).request == old(self).request,
            final(self).binary == old(self).binary,
            final(self).phase_level == old(self).phase_level,
    {
        self.pending = Action::Finish;
        self.emit(v, Event::Error { message }, Ghost(start));
    }

    fn finish(&mut self, v: &mut Vec<Event>, elapsed_secs: u64, Ghost(start): Ghost<int>)
        requires
            old(self).wf(),
            !old(self).done,
            stretch_ok(old(v)@, start, old(self).phase_level as int, false),
        ensures
            final(self).wf(),
            final(self).done,
            final(v)@ == old(v)@.push(Event::Progress(RUN_DONE)).push(
                Event::Complete { binary_path: old(self).binary, elapsed_secs }),
            stretch_ok(final(v)@, start, final(self).phase_level as int, true),
            final(self).request == old(self).request,
            final(self).binary == old(self).binary,
            final(self).pending == Action::Finish,
    {
        let b = self.binary.clone();
        self.pending = Action::Finish;
        self.emit(v, Event::Progress(RUN_DONE), Ghost(start));
        self.emit(v, Event::Complete { binary_path: b, elapsed_secs }, Ghost(start));
    }

    fn go_install(&mut self, v: &mut Vec<Event>, elapsed_secs: u64, Ghost(start): Ghost<int>)
        requires
            old(self).wf(),
            !old(self).done,
            old(self).phase_level <= 4,
            stretch_ok(old(v)@, start, old(self).phase_level as int, false),
        ensures
            final(self).wf(),
            stretch_ok(final(v)@, start, final(self).phase_level as int, final(self).done),
            final(self).request == old(self).request,
            final(self).binary == old(self).binary,
            old(v)@.len() <= final(v)@.len(),
            final(v)@.subrange(0, old(v)@.len() as int) == old(v)@,
            forall|i: int| old(v)@.len() <= i < final(v)@.len() ==> !(#[trigger] final(v)@[i] is Error),
            forall|i: int| old(v)@.len() <= i < final(v)@.len() && (#[trigger] final(v)@[i]) is Phase ==>
                phase_rank(final(v)@[i]->Phase_0) >= 3,
            final(self).done ==> final(v)@.last() == (Event::Complete { binary_path: old(self).binary, elapsed_secs }),
            final(self).pending == finishing_action(old(self).request.options, old(self).binary, 2),
            final(self).done ==> ends_complete(final(v)@, old(self).binary, elapsed_secs),
    {
        let ghost ov = v@;
        if self.request.options.setup_alias {
            self.pending = Action::Install(self.binary.clone());
            self.emit(v, Event::Phase(Phase::Installing), Ghost(start));
        } else {
            self.finish(v, elapsed_secs, Ghost(start));
        }
        assert(v@.subrange(0, ov.len() as int) =~= ov);
    }

    fn go_test(&mut self, v: &mut Vec<Event>, elapsed_secs: u64, Ghost(start): Ghost<int>)
        requires
            old(self).wf(),
            !old(self).done,
            old(self).phase_level <= 3,
            stretch_ok(old(v)@, start, old(self).phase_level as int, false),
        ensures
            final(self).wf(),
            stretch_ok(final(v)@, start, final(self).phase_level as int, final(self).done),
            final(self).request == old(self).request,
            final(self).binary == old(self).binary,
            old(v)@.len() <= final(v)@.len(),
            final(v)@.subrange(0, old(v)@.len() as int) == old(v)@,
            forall|i: int| old(v)@.len() <= i < final(v)@.len() ==> !(#[trigger] final(v)@[i] is Error),
            forall|i: int| old(v)@.len() <= i < final(v)@.len() && (#[trigger] final(v)@[i]) is Phase ==>
                phase_rank(final(v)@[i]->Phase_0) >= 3,
            final(self).done ==> final(v)@.last() == (Event::Complete { binary_path: old(self).binary, elapsed_secs }),
            final(self).pending == finishing_action(old(self).request.options, old(self).binary, 1),
            final(self).done ==> ends_complete(final(v)@, old(self).binary, elapsed_secs),
    {
        if self.request.options.run_tests {
            let ghost ov = v@;
            self.pending = Action::Test;
            self.emit(v, Event::Phase(Phase::Testing), Ghost(start));
            assert(v@.subrange(0, ov.len() as int) =~= ov);
        } else {
            self.go_install(v, elapsed_secs, Ghost(start));
        }
    }

    fn go_strip(&mut self, v: &mut Vec<Event>, elapsed_secs: u64, Ghost(start): Ghost<int>)
        requires
            old(self).wf(),
            !old(self).done,
            old(self).phase_level <= 3,
            stretch_ok(old(v)@, start, old(self).phase_level as int, false),
        ensures
            final(self).wf(),
            stretch_ok(final(v)@, start, final(self).phase_level as int, final(self).done),
            final(self).request == old(self).request,
            final(self).binary == old(self).binary,
            old(v)@.len() <= final(v)@.len(),
            final(v)@.subrange(0, old(v)@.len() as int) == old(v)@,
            forall|i: int| old(v)@.len() <= i < final(v)@.len() ==> !(#[trigger] final(v)@[i] is Error),
            forall|i: int| old(v)@.len() <= i < final(v)@.len() && (#[trigger] final(v)@[i]) is Phase ==>
                phase_rank(final(v)@[i]->Phase_0) >= 3,
            final(self).done ==> final(v)@.last() == (Event::Complete { binary_path: old(self).binary, elapsed_secs }),
            final(self).pending == finishing_action(old(self).request.options, old(self).binary, 0),
            final(self).done ==> ends_complete(final(v)@, old(self).binary, elapsed_secs),
    {
        if self.request.options.strip_symbols {
            self.pending = Action::Strip(self.binary.clone());
        } else {
            self.go_test(v, elapsed_secs, Ghost(start));
        }
    }

    fn go_inject(&mut self)
        requires
            old(self).wf(),
            !old(self).done,
            old(self).phase_level <= 1,
        ensures
            final(self).wf(),
            !final(self).done,
            final(self).pending == Action::InjectProfile,
            final(self).request == old(self).request,
            final(self).binary == old(self).binary,
            final(self).phase_level == old(self).phase_level,
    {
        self.pending = Action::InjectProfile;
    }

    fn go_patches(&mut self, v: &mut Vec<Event>, Ghost(start): Ghost<int>)
        requires
            old(self).wf(),
            !old(self).done,
            old(self).phase_level <= 1,
            stretch_ok(old(v)@, start, old(self).phase_level as int, false),
        ensures
            final(self).wf(),
            !final(self).done,
            stretch_ok(final(v)@, start, final(self).phase_level as int, false),
            final(self).request == old(self).request,
            final(self).binary == old(self).binary,
            final(v)@.subrange(0, old(v)@.len() as int) == old(v)@,
            old(v)@.len() <= final(v)@.len(),
            forall|i: int| old(v)@.len() <= i < final(v)@.len() ==> !(#[trigger] final(v)@[i] is Error),
            old(self).request.patch_files.len() == 0 ==> final(self).pending == Action::InjectProfile,
            old(self).request.patch_files.len() > 0 ==> final(self).pending == Action::ApplyPatchFile(0),
    {
        let ghost ov = v@;
        if self.request.patch_files.len() > 0 {
            let item = join("Applying patch file: ", self.request.patch_files[0].as_str());
            self.emit(v, Event::CurrentItem(item), Ghost(start));
            self.pending = Action::ApplyPatchFile(0);
        } else {
            self.go_inject();
        }
        assert(v@.subrange(0, ov.len() as int) =~= ov);
    }

    fn on_checked_out(&mut self, v: &mut Vec<Event>, r: Result<(), String>, Ghost(start): Ghost<int>)
        requires
            old(self).wf(),
            !old(self).done,
            old(self).pending is Checkout,
            stretch_ok(old(v)@, start, old(self).phase_level as int, false),
        ensures
            final(self).wf(),
            stretch_ok(final(v)@, start, final(self).phase_level as int, final(self).done),
            final(self).request == old(self).request,
            final(v)@.subrange(0, old(v)@.len() as int) == old(v)@,
            old(v)@.len() <= final(v)@.len(),
            r matches Err(e) ==> final(v)@.len() == old(v)@.len() + 1 && final(self).done
                && (final(v)@.last() matches Event::Error { message } && message@ == "Checkout failed: "@ + e@),
            r is Ok ==> !final(self).done,
            r is Ok ==> final(self).pending == if old(self).request.cherry_picks.len() > 0 { Action::CherryPick } else { patching_action(old(self).request) },
            final(self).done ==> final(v)@.len() > 0 && final(v)@.last() is Error,
    {
        let ghost ov = v@;
        match r {
            Ok(()) => {
                self.emit(v, Event::Progress(CHECKOUT_DONE), Ghost(start));
                self.emit(v, Event::Log(String::from_str("Checkout complete")), Ghost(start));
                if self.request.cherry_picks.len() > 0 {
                    self.pending = Action::CherryPick;
                } else {
                    self.go_patches(v, Ghost(start));
                }
            },
            Err(e) => {
                let m = join("Checkout failed: ", e.as_str());
                self.fail(v, m, Ghost(start));
            },
        }
        assert(v@.subrange(0, ov.len() as int) =~= ov);
    }

    fn on_tree(&mut self, v: &mut Vec<Event>, dirty: bool, Ghost(start): Ghost<int>)
        requires
            old(self).wf(),
            !old(self).done,
            old(self).pending is InspectTree,
            stretch_ok(old(v)@, start, old(self).phase_level as int, false),
        ensures
            old(self).stepped(*final(self), old(v)@, final(v)@, start),
            dirty ==> final(self).pending == Action::Stash,
            !dirty ==> final(self).pending == Action::Checkout,
            !final(self).done,
            no_error_from(final(v)@, old(v)@.len() as int),
            final(self).done ==> final(v)@.len() > 0 && final(v)@.last() is Error,
    {
        let ghost ov = v@;
        if dirty {
            self.emit(v, Event::Log(String::from_str("Stashing uncommitted changes")), Ghost(start));
            self.pending = Action::Stash;
        } else {
            self.pending = Action::Checkout;
        }
        assert(v@.subrange(0, ov.len() as int) =~= ov);
    }

    fn on_stashed(&mut self, v: &mut Vec<Event>, r: Result<(), String>, Ghost(start): Ghost<int>)
        requires
            old(self).wf(),
            !old(self).done,
            old(self).pending is Stash,
            stretch_ok(old(v)@, start, old(self).phase_level as int, false),
        ensures
            old(self).stepped(*final(self), old(v)@, final(v)@, start),
            r is Ok ==> final(self).pending == Action::Checkout && final(v)@ == old(v)@,
            r matches Err(e) ==> final(v)@.len() == old(v)@.len() + 1 && final(self).done
                && (final(v)@.last() matches Event::Error { message } && message@ == "Checkout failed: "@ + e@),
            final(self).done ==> final(v)@.len() > 0 && final(v)@.last() is Error,
    {
        let ghost ov = v@;
        match r {
            Ok(()) => {
                self.pending = Action::Checkout;
            },
            Err(e) => {
                let m = join("Checkout failed: ", e.as_str());
                self.fail(v, m, Ghost(start));
            },
        }
        assert(v@.subrange(0, ov.len() as int) =~= ov);
    }

    fn on_cherry_picked(&mut self, v: &mut Vec<Event>, r: Result<CherryPickOutcome, String>, Ghost(start): Ghost<int>)
        requires
            old(self).wf(),
            !old(self).done,
            old(self).pending is CherryPick,
            stretch_ok(old(v)@, start, old(self).phase_level as int, false),
        ensures
            old(self).stepped(*final(self), old(v)@, final(v)@, start),
            r is Ok ==> !final(self).done && no_error_from(final(v)@, old(v)@.len() as int),
            r matches Err(e) ==> final(v)@.len() == old(v)@.len() + 1 && final(self).done
                && (final(v)@.last() matches Event::Error { message } && message@ == "Cherry-pick failed: "@ + e@),
            r is Ok ==> final(self).pending == patching_action(old(self).request),
            final(self).done ==> final(v)@.len() > 0 && final(v)@.last() is Error,
    {
        let ghost ov = v@;
        match r {
            Ok(o) => {
                let mut i: usize = 0;
                while i < o.skipped.len()
                    invariant
                        self.wf(),
                        !self.done,
                        self.pending is CherryPick,
                        self.request == old(self).request,
                        self.phase_level == old(self).phase_level,
                        i <= o.skipped.len(),
                        stretch_ok(v@, start, self.phase_level as int, false),
                        ov.len() <= v@.len(),
                        v@.subrange(0, ov.len() as int) == ov,
                        no_error_from(v@, ov.len() as int),
                    decreases o.skipped.len() - i,
                {
                    let ghost pv = v@;
                    let m = join("Skipped conflicting commit ", o.skipped[i].as_str());
                    self.emit(v, Event::Log(m), Ghost(start));
                    assert(v@.subrange(0, ov.len() as int) =~= pv.subrange(0, ov.len() as int));
                    i = i + 1;
                }
                self.go_patches(v, Ghost(start));
            },
            Err(e) => {
                let m = join("Cherry-pick failed: ", e.as_str());
                self.fail(v, m, Ghost(start));
            },
        }
        assert(v@.subrange(0, ov.len() as int) =~= ov);
    }

    fn on_patch_file(&mut self, v: &mut Vec<Event>, idx: usize, name: &String, report: &FileReport, Ghost(start): Ghost<int>)
        requires
            old(self).wf(),
            !old(self).done,
            old(self).pending == Action::ApplyPatchFile(idx),
            stretch_ok(old(v)@, start, old(self).phase_level as int, false),
        ensures
            old(self).stepped(*final(self), old(v)@, final(v)@, start),
            !final(self).done,
            no_error_from(final(v)@, old(v)@.len() as int),
            idx + 1 < old(self).request.patch_files.len() ==> final(self).pending == Action::ApplyPatchFile((idx + 1) as usize),
            idx + 1 == old(self).request.patch_files.len() ==> final(self).pending == Action::InjectProfile,
            final(self).done ==> final(v)@.len() > 0 && final(v)@.last() is Error,
            final(v)@.len() >= old(v)@.len() + patch_segment_len(name@, *report),
            patch_segment(final(v)@.subrange(old(v)@.len() as int, old(v)@.len() + patch_segment_len(name@, *report)),
                *name, *report, file_progress(CHECKOUT_DONE as int, PATCHING_DONE as int, idx + 1,
                old(self).request.patch_files.len() as int) as u32),
    {
        let ghost ov = v@;
        let n = self.request.patch_files.len();
        let evs = patch_file_events(idx, n, CHECKOUT_DONE, PATCHING_DONE, name, report);
        let mut i: usize = 0;
        while i < evs.len()
            invariant
                v@ == ov + evs@.subrange(0, i as int),
                self.wf(),
                !self.done,
                self.pending == Action::ApplyPatchFile(idx),
                self.request == old(self).request,
                self.phase_level == old(self).phase_level,
                i <= evs.len(),
                evs@.len() <= 2,
                forall|k: int| 0 <= k < evs@.len() ==> !(#[trigger] evs@[k] is Error) && !(evs@[k] is Complete) && !(evs@[k] is Phase),
                stretch_ok(v@, start, self.phase_level as int, false),
                ov.len() <= v@.len(),
                v@.subrange(0, ov.len() as int) == ov,
                no_error_from(v@, ov.len() as int),
            decreases evs.len() - i,
        {
            let ghost pv = v@;
            let e = clone_event(&evs[i]);
            self.emit(v, e, Ghost(start));
            assert(v@.subrange(0, ov.len() as int) =~= pv.subrange(0, ov.len() as int));
            assert(evs@.subrange(0, i + 1) =~= evs@.subrange(0, i as int).push(evs@[i as int]));
            i = i + 1;
        }
        let ghost seg = v@;
        assert(evs@.subrange(0, evs@.len() as int) == evs@);
        if idx + 1 < n {
            let item = join("Applying patch file: ", self.request.patch_files[idx + 1].as_str());
            self.emit(v, Event::CurrentItem(item), Ghost(start));
            self.pending = Action::ApplyPatchFile(idx + 1);
        } else {
            self.go_inject();
        }
        assert(v@.subrange(0, seg.len() as int) == seg);
        assert(v@.subrange(ov.len() as int, seg.len() as int) =~= evs@);
        assert(v@.subrange(0, ov.len() as int) =~= ov);
    }

    fn on_profile_injected(&mut self, v: &mut Vec<Event>, r: Result<(), String>, Ghost(start): Ghost<int>)
        requires
            old(self).wf(),
            !old(self).done,
            old(self).pending is InjectProfile,
            stretch_ok(old(v)@, start, old(self).phase_level as int, false),
        ensures
            old(self).stepped(*final(self), old(v)@, final(v)@, start),
            r is Ok ==> final(self).pending == Action::Compile && !final(self).done
                && final(v)@.len() == old(v)@.len() + 3
                && final(v)@[old(v)@.len() as int] == Event::Phase(Phase::Compiling)
                && final(v)@[old(v)@.len() + 1int] == Event::Progress(PATCHING_DONE),
            r matches Err(e) ==> final(v)@.len() == old(v)@.len() + 1 && final(self).done
                && (final(v)@.last() matches Event::Error { message } && message@ == "Failed to add the build profile: "@ + e@),
            final(self).done ==> final(v)@.len() > 0 && final(v)@.last() is Error,
    {
        let ghost ov = v@;
        match r {
            Ok(()) => {
                self.emit(v, Event::Phase(Phase::Compiling), Ghost(start));
                self.emit(v, Event::Progress(PATCHING_DONE), Ghost(start));
                self.emit(v, Event::CurrentItem(String::from_str("Building...")), Ghost(start));
                self.pending = Action::Compile;
            },
            Err(e) => {
                let m = join("Failed to add the build profile: ", e.as_str());
                self.fail(v, m, Ghost(start));
            },
        }
        assert(v@.subrange(0, ov.len() as int) =~= ov);
    }

    fn on_compiled(&mut self, v: &mut Vec<Event>, r: Result<String, String>, elapsed_secs: u64, Ghost(start): Ghost<int>)
        requires
            old(self).wf(),
            !old(self).done,
            old(self).pending is Compile,
            stretch_ok(old(v)@, start, old(self).phase_level as int, false),
        ensures
            old(self).stepped(*final(self), old(v)@, final(v)@, start),
            r matches Ok(p) ==> final(self).binary == p && no_error_from(final(v)@, old(v)@.len() as int)
                && final(v)@[old(v)@.len() as int] == Event::Progress(COMPILE_DONE),
            r matches Ok(p) ==> (old(self).request.options.optimization.use_bolt ==>
                final(self).pending == Action::Optimize(p) && final(v)@.last() == Event::Phase(Phase::Optimizing)),
            r is Ok && !old(self).request.options.optimization.use_bolt ==>
                forall|i: int| old(v)@.len() <= i < final(v)@.len() ==> final(v)@[i] != Event::Phase(Phase::Optimizing),
            r matches Ok(p) ==> (!old(self).request.options.optimization.use_bolt && final(self).done ==>
                final(v)@.last() == (Event::Complete { binary_path: p, elapsed_secs })),
            r matches Err(m) ==> final(v)@ == old(v)@.push(Event::Error { message: m }) && final(self).done,
            r matches Ok(p) ==> final(self).pending == if old(self).request.options.optimization.use_bolt { Action::Optimize(p) } else { finishing_action(old(self).request.options, p, 0) },
            final(self).done && !(final(v)@.last() is Error) ==> ends_complete(final(v)@, final(self).binary, elapsed_secs),
            r matches Ok(p) ==> (old(self).request.options.optimization.use_bolt ==>
                final(v)@ == old(v)@.push(Event::Progress(COMPILE_DONE)).push(Event::Phase(Phase::Optimizing))),
    {
        let ghost ov = v@;
        match r {
            Ok(p) => {
                self.binary = p;
                self.emit(v, Event::Progress(COMPILE_DONE), Ghost(start));
                if self.request.options.optimization.use_bolt {
                    self.emit(v, Event::Phase(Phase::Optimizing), Ghost(start));
                    self.pending = Action::Optimize(self.binary.clone());
                } else {
                    let ghost mid = v@;
                    self.go_strip(v, elapsed_secs, Ghost(start));
                    proof {
                        assert forall|i: int| ov.len() <= i < v@.len() implies v@[i] != Event::Phase(Phase::Optimizing) by {
                            if i >= mid.len() {
                                if v@[i] == Event::Phase(Phase::Optimizing) {
                                    assert(phase_rank(v@[i]->Phase_0) >= 3);
                                }
                            } else {
                                assert(v@[i] == v@.subrange(0, mid.len() as int)[i]);
                            }
                        }
                    }
                }
            },
            Err(m) => {
                self.fail(v, m, Ghost(start));
            },
        }
        assert(v@.subrange(0, ov.len() as int) =~= ov);
    }

    fn on_optimized(&mut self, v: &mut Vec<Event>, r: Result<String, String>, elapsed_secs: u64, Ghost(start): Ghost<int>)
        requires
            old(self).wf(),
            !old(self).done,
            old(self).pending is Optimize,
            stretch_ok(old(v)@, start, old(self).phase_level as int, false),
        ensures
            old(self).stepped(*final(self), old(v)@, final(v)@, start),
            no_error_from(final(v)@, old(v)@.len() as int),
            r matches Ok(p) ==> final(self).binary == p,
            r is Err ==> final(self).binary == old(self).binary,
            r is Err ==> final(v)@.len() > old(v)@.len() && final(v)@[old(v)@.len() as int] is Log,
            final(self).pending == finishing_action(old(self).request.options, final(self).binary, 0),
            final(self).done && !(final(v)@.last() is Error) ==> ends_complete(final(v)@, final(self).binary, elapsed_secs),
            r matches Err(e) ==> (final(v)@[old(v)@.len() as int] matches Event::Log(t)
                && t@ == "Binary optimization failed; continuing with the unoptimized binary: "@ + e@),
    {
        let ghost ov = v@;
        match r {
            Ok(p) => {
                let m = join("Optimized binary: ", p.as_str());
                self.binary = p;
                self.emit(v, Event::Log(m), Ghost(start));
            },
            Err(e) => {
                let m = join("Binary optimization failed; continuing with the unoptimized binary: ", e.as_str());
                self.emit(v, Event::Log(m), Ghost(start));
            },
        }
        let ghost mid = v@;
        self.go_strip(v, elapsed_secs, Ghost(start));
        assert(v@.subrange(0, mid.len() as int) == mid);
        assert(v@[ov.len() as int] == mid[ov.len() as int]);
        assert(v@.subrange(0, ov.len() as int) =~= ov);
    }

    fn on_stripped(&mut self, v: &mut Vec<Event>, r: Result<(), String>, elapsed_secs: u64, Ghost(start): Ghost<int>)
        requires
            old(self).wf(),
            !old(self).done,
            old(self).pending is Strip,
            stretch_ok(old(v)@, start, old(self).phase_level as int, false),
        ensures
            old(self).stepped(*final(self), old(v)@, final(v)@, start),
            no_error_from(final(v)@, old(v)@.len() as int),
            final(self).binary == old(self).binary,
            final(self).pending == finishing_action(old(self).request.options, old(self).binary, 1),
            final(self).done && !(final(v)@.last() is Error) ==> ends_complete(final(v)@, final(self).binary, elapsed_secs),
    {
        let ghost ov = v@;
        match r {
            Ok(()) => {
                self.emit(v, Event::Log(String::from_str("Stripped symbols")), Ghost(start));
            },
            Err(e) => {
                let m = join("Strip failed: ", e.as_str());
                self.emit(v, Event::Log(m), Ghost(start));
            },
        }
        self.go_test(v, elapsed_secs, Ghost(start));
        assert(v@.subrange(0, ov.len() as int) =~= ov);
    }

    fn on_tested(&mut self, v: &mut Vec<Event>, runs: &Vec<TestRun>, elapsed_secs: u64, Ghost(start): Ghost<int>)
        requires
            old(self).wf(),
            !old(self).done,
            old(self).pending is Test,
            stretch_ok(old(v)@, start, old(self).phase_level as int, false),
        ensures
            old(self).stepped(*final(self), old(v)@, final(v)@, start),
            no_error_from(final(v)@, old(v)@.len() as int),
            final(self).binary == old(self).binary,
            final(self).pending == finishing_action(old(self).request.options, old(self).binary, 2),
            final(self).done && !(final(v)@.last() is Error) ==> ends_complete(final(v)@, final(self).binary, elapsed_secs),
    {
        let ghost ov = v@;
        let mut i: usize = 0;
        while i < runs.len()
            invariant
                self.wf(),
                !self.done,
                self.pending is Test,
                self.request == old(self).request,
                self.binary == old(self).binary,
                self.phase_level == old(self).phase_level,
                i <= runs.len(),
                stretch_ok(v@, start, self.phase_level as int, false),
                ov.len() <= v@.len(),
                v@.subrange(0, ov.len() as int) == ov,
                no_error_from(v@, ov.len() as int),
            decreases runs.len() - i,
        {
            let ghost pv = v@;
            let m = if runs[i].passed {
                join("  passed: ", runs[i].name.as_str())
            } else {
                join("  FAILED: ", runs[i].name.as_str())
            };
            self.emit(v, Event::Log(m), Ghost(start));
            assert(v@.subrange(0, ov.len() as int) =~= pv.subrange(0, ov.len() as int));
            i = i + 1;
        }
        let ghost mid = v@;
        self.go_install(v, elapsed_secs, Ghost(start));
        assert(v@.subrange(0, mid.len() as int) == mid);
        assert(v@.subrange(0, ov.len() as int) =~= mid.subrange(0, ov.len() as int));
    }

    fn on_installed(&mut self, v: &mut Vec<Event>, r: Result<Option<String>, String>, elapsed_secs: u64, Ghost(start): Ghost<int>)
        requires
            old(self).wf(),
            !old(self).done,
            old(self).pending is Install,
            stretch_ok(old(v)@, start, old(self).phase_level as int, false),
        ensures
            old(self).stepped(*final(self), old(v)@, final(v)@, start),
            no_error_from(final(v)@, old(v)@.len() as int),
            final(self).done,
            final(v)@.last() == (Event::Complete { binary_path: old(self).binary, elapsed_secs }),
            final(self).pending == Action::Finish,
            final(self).done && !(final(v)@.last() is Error) ==> ends_complete(final(v)@, final(self).binary, elapsed_secs),
    {
        let ghost ov = v@;
        match r {
            Ok(Some(rc)) => {
                let m = join("Alias set in ", rc.as_str());
                self.emit(v, Event::Log(m), Ghost(start));
            },
            Ok(None) => {
                self.emit(v, Event::Log(String::from_str("This shell has no rc file to alias in; add the alias by hand")), Ghost(start));
            },
            Err(e) => {
                let m = join("Alias setup failed: ", e.as_str());
                self.emit(v, Event::Log(m), Ghost(start));
                let mut manual = join("  Add by hand: alias codex=\"", self.binary.as_str());
                push_text(&mut manual, "\"");
                self.emit(v, Event::Log(manual), Ghost(start));
            },
        }
        let ghost mid = v@;
        self.finish(v, elapsed_secs, Ghost(start));
        assert(v@.subrange(0, ov.len() as int) =~= ov);
    }

    /// Feeds the outcome of the pending action to the run and returns the
    /// events it produces, in order. The next action is then `next_action()`.
    ///
    /// An outcome that does not answer the pending action, or any outcome
    /// once the run is done, changes nothing and produces nothing. Failures
    /// before compiling and of compiling end the run with one `Error` event;
    /// failures of optimizing, stripping, testing and installing are logged
    /// and the run goes on to `Complete`.
    pub fn advance(&mut self, outcome: Outcome, elapsed_secs: u64) -> (r: Vec<Event>)
        requires
            old(self).wf(),
        ensures
            final(self).wf(),
            final(self).spec_request() == old(self).spec_request(),
            old(self).spec_done() ==> r@.len() == 0 && final(self).spec_done(),
            stretch_ok(r@, old(self).spec_phase_level(), final(self).spec_phase_level(), final(self).spec_done() && !old(self).spec_done()),
            final(self).spec_done() ==> final(self).spec_pending() is Finish,
            old(self).spec_pending() is Checkout ==> (outcome matches Outcome::CheckedOut(Err(e)) ==>
                final(self).spec_done() && r@.len() == 1 && (r@[0] matches Event::Error { message } && message@ == "Checkout failed: "@ + e@)),
            old(self).spec_pending() is Stash ==> (outcome matches Outcome::Stashed(Err(e)) ==>
                final(self).spec_done() && r@.len() == 1 && (r@[0] matches Event::Error { message } && message@ == "Checkout failed: "@ + e@)),
            old(self).spec_pending() is CherryPick ==> (outcome matches Outcome::CherryPicked(Err(e)) ==>
                final(self).spec_done() && r@.len() == 1 && (r@[0] matches Event::Error { message } && message@ == "Cherry-pick failed: "@ + e@)),
            old(self).spec_pending() is CherryPick ==> (outcome matches Outcome::CherryPicked(Ok(_)) ==>
                !final(self).spec_done() && no_error_from(r@, 0)),
            old(self).spec_pending() is ApplyPatchFile ==> (outcome is PatchFileDone ==> !final(self).spec_done() && no_error_from(r@, 0)),
            old(self).spec_pending() is Compile ==> (outcome matches Outcome::Compiled(Err(m)) ==>
                final(self).spec_done() && r@ == seq![Event::Error { message: m }]),
            old(self).spec_pending() is Compile ==> (outcome matches Outcome::Compiled(Ok(p)) ==>
                no_error_from(r@, 0) && final(self).spec_binary() == p),
            old(self).spec_pending() is Compile && !old(self).spec_request().options.optimization.use_bolt ==>
                (outcome is Compiled ==> forall|i: int| 0 <= i < r@.len() ==> r@[i] != Event::Phase(Phase::Optimizing)),
            old(self).spec_pending() is Optimize || old(self).spec_pending() is Strip || old(self).spec_pending() is Test
                || old(self).spec_pending() is Install ==> no_error_from(r@, 0),
            old(self).spec_pending() is Install ==> (outcome is Installed ==> final(self).spec_done()
                && r@.last() == (Event::Complete { binary_path: old(self).spec_binary(), elapsed_secs })),
            old(self).spec_pending() is InspectTree ==> (outcome matches Outcome::TreeInspected { dirty } ==>
                final(self).spec_pending() == if dirty { Action::Stash } else { Action::Checkout }),
            old(self).spec_pending() is Stash ==> (outcome matches Outcome::Stashed(Ok(_)) ==> final(self).spec_pending() == Action::Checkout),
            old(self).spec_pending() is Checkout ==> (outcome matches Outcome::CheckedOut(Ok(_)) ==> final(self).spec_pending()
                == if old(self).spec_request().cherry_picks.len() > 0 { Action::CherryPick } else { patching_action(old(self).spec_request()) }),
            old(self).spec_pending() is CherryPick ==> (outcome matches Outcome::CherryPicked(Ok(_)) ==>
                final(self).spec_pending() == patching_action(old(self).spec_request())),
            old(self).spec_pending() matches Action::ApplyPatchFile(i) ==> (outcome is PatchFileDone ==> final(self).spec_pending()
                == if i + 1 < old(self).spec_request().patch_files.len() { Action::ApplyPatchFile((i + 1) as usize) } else { Action::InjectProfile }),
            old(self).spec_pending() is InjectProfile ==> (outcome matches Outcome::ProfileInjected(Ok(_)) ==>
                final(self).spec_pending() == Action::Compile),
            old(self).spec_pending() is Compile ==> (outcome matches Outcome::Compiled(Ok(p)) ==> final(self).spec_pending()
                == if old(self).spec_request().options.optimization.use_bolt { Action::Optimize(p) } else { finishing_action(old(self).spec_request().options, p, 0) }),
            old(self).spec_pending() is Optimize ==> (outcome matches Outcome::Optimized(Ok(p)) ==>
                final(self).spec_pending() == finishing_action(old(self).spec_request().options, p, 0)),
            old(self).spec_pending() is Optimize ==> (outcome matches Outcome::Optimized(Err(_)) ==>
                final(self).spec_pending() == finishing_action(old(self).spec_request().options, old(self).spec_binary(), 0)),
            old(self).spec_pending() is Strip ==> (outcome is Stripped ==>
                final(self).spec_pending() == finishing_action(old(self).spec_request().options, old(self).spec_binary(), 1)),
            old(self).spec_pending() is Test ==> (outcome is Tested ==>
                final(self).spec_pending() == finishing_action(old(self).spec_request().options, old(self).spec_binary(), 2)),
            final(self).spec_done() <==> final(self).spec_pending() is Finish,
            !old(self).spec_done() && final(self).spec_done() ==> r@.len() > 0 && is_terminal(r@.last()),
            !old(self).spec_done() && final(self).spec_done() && !(r@.last() is Error) ==>
                ends_complete(r@, final(self).spec_binary(), elapsed_secs),
            old(self).spec_pending() is Compile ==> (outcome matches Outcome::Compiled(Ok(p)) ==>
                (old(self).spec_request().options.optimization.use_bolt ==>
                    r@ == seq![Event::Progress(COMPILE_DONE), Event::Phase(Phase::Optimizing)])),
            old(self).spec_pending() is Optimize ==> (outcome matches Outcome::Optimized(Err(e)) ==>
                r@.len() > 0 && (r@[0] matches Event::Log(t)
                    && t@ == "Binary optimization failed; continuing with the unoptimized binary: "@ + e@)),
            old(self).spec_pending() matches Action::ApplyPatchFile(i) ==> (outcome matches Outcome::PatchFileDone { name, report } ==>
                r@.len() >= patch_segment_len(name@, report)
                && patch_segment(r@.subrange(0, patch_segment_len(name@, report)), name, report,
                    file_progress(CHECKOUT_DONE as int, PATCHING_DONE as int, i + 1,
                        old(self).spec_request().patch_files.len() as int) as u32)),
    {
        let mut v: Vec<Event> = Vec::new();
        if self.done {
            return v;
        }
        let start = Ghost(self.phase_level as int);
        let pending = self.next_action();
        match (pending, outcome) {
            (Action::InspectTree, Outcome::TreeInspected { dirty }) => self.on_tree(&mut v, dirty, start),
            (Action::Stash, Outcome::Stashed(r)) => self.on_stashed(&mut v, r, start),
            (Action::Checkout, Outcome::CheckedOut(r)) => self.on_checked_out(&mut v, r, start),
            (Action::CherryPick, Outcome::CherryPicked(r)) => self.on_cherry_picked(&mut v, r, start),
            (Action::ApplyPatchFile(i), Outcome::PatchFileDone { name, report }) =>
                self.on_patch_file(&mut v, i, &name, &report, start),
            (Action::InjectProfile, Outcome::ProfileInjected(r)) => self.on_profile_injected(&mut v, r, start),
            (Action::Compile, Outcome::Compiled(r)) => self.on_compiled(&mut v, r, elapsed_secs, start),
            (Action::Optimize(_), Outcome::Optimized(r)) => self.on_optimized(&mut v, r, elapsed_secs, start),
            (Action::Strip(_), Outcome::Stripped(r)) => self.on_stripped(&mut v, r, elapsed_secs, start),
            (Action::Test, Outcome::Tested(runs)) => self.on_tested(&mut v, &runs, elapsed_secs, start),
            (Action::Install(_), Outcome::Installed(r)) => self.on_installed(&mut v, r, elapsed_secs, start),
            _ => {},
        }
        v
    }
}

} // verus!
