use vstd::prelude::*;
use crate::frame::{frame_after, next_frame};
use crate::progress::PROGRESS_SCALE;

verus! {

/// State of one start-up check.
#[derive(Clone, Copy, Debug, PartialEq, Eq, Structural)]
pub enum CheckStatus {
    Pending,
    Checking,
    Passed,
    Warning,
    Error,
}

/// Frames between two steps of the check animation.
pub const CHECK_STEP_FRAMES: u64 = 20;

pub open spec fn spinner_glyph(k: u64) -> Seq<char> {
    if k == 0 { "⠋"@ } else if k == 1 { "⠙"@ } else if k == 2 { "⠹"@ } else if k == 3 { "⠸"@ }
    else if k == 4 { "⠼"@ } else if k == 5 { "⠴"@ } else if k == 6 { "⠦"@ } else if k == 7 { "⠧"@ }
    else if k == 8 { "⠇"@ } else { "⠏"@ }
}

pub open spec fn is_finished_status(s: CheckStatus) -> bool {
    s == CheckStatus::Passed || s == CheckStatus::Warning || s == CheckStatus::Error
}

impl CheckStatus {
    /// The glyph shown for the status; a running check spins, one glyph
    /// every four frames.
    pub fn indicator(&self, frame: u64) -> (r: &'static str)
        ensures
            *self == CheckStatus::Pending ==> r@ == "○"@,
            *self == CheckStatus::Checking ==> r@ == spinner_glyph((frame / 4) % 10),
            *self == CheckStatus::Passed ==> r@ == "✓"@,
            *self == CheckStatus::Warning ==> r@ == "!"@,
            *self == CheckStatus::Error ==> r@ == "✗"@,
    {
        match self {
            CheckStatus::Pending => "○",
            CheckStatus::Checking => {
                let k = (frame / 4) % 10;
                if k == 0 { "⠋" } else if k == 1 { "⠙" } else if k == 2 { "⠹" } else if k == 3 { "⠸" }
                else if k == 4 { "⠼" } else if k == 5 { "⠴" } else if k == 6 { "⠦" } else if k == 7 { "⠧" }
                else if k == 8 { "⠇" } else { "⠏" }
            },
            CheckStatus::Passed => "✓",
            CheckStatus::Warning => "!",
            CheckStatus::Error => "✗",
        }
    }
}

/// One start-up check.
#[derive(Clone, Debug)]
pub struct SystemCheck {
    pub name: String,
    pub status: CheckStatus,
    pub detail: Option<String>,
}

/// How one animation step moves the checks: a pending check starts, a
/// running one finishes and the next becomes current.
pub open spec fn animate(checks: Seq<SystemCheck>, current: int) -> (Seq<SystemCheck>, int) {
    let c = checks[current];
    if c.status == CheckStatus::Pending {
        (checks.update(current, SystemCheck { status: CheckStatus::Checking, ..c }), current)
    } else if c.status == CheckStatus::Checking {
        (checks.update(current, SystemCheck { status: CheckStatus::Passed, ..c }), current + 1)
    } else {
        (checks, current)
    }
}

/// Number of finished checks.
pub open spec fn finished_count(checks: Seq<SystemCheck>) -> nat
    decreases checks.len(),
{
    if checks.len() == 0 {
        0
    } else {
        finished_count(checks.drop_last()) + if is_finished_status(checks.last().status) { 1nat } else { 0nat }
    }
}

proof fn lemma_finished_count_bound(checks: Seq<SystemCheck>)
    ensures
        finished_count(checks) <= checks.len(),
    decreases checks.len(),
{
    if checks.len() > 0 {
        lemma_finished_count_bound(checks.drop_last());
    }
}

/// Seconds left on the start-up countdown: 3, 2, 1, then 0.
pub open spec fn boot_countdown(complete: bool, complete_frames: u64) -> u8 {
    if !complete {
        0
    } else if complete_frames / 60 == 0 {
        3
    } else if complete_frames / 60 == 1 {
        2
    } else if complete_frames / 60 == 2 {
        1
    } else {
        0
    }
}

/// Start-up screen with the system checks.
#[derive(Debug)]
pub struct BootScreen {
    frame: u64,
    checks: Vec<SystemCheck>,
    current_check: usize,
    complete: bool,
    dev_mode: bool,
    /// Frames since completion, for the countdown.
    complete_frames: u64,
}

impl BootScreen {
    pub closed spec fn spec_frame(&self) -> u64 {
        self.frame
    }

    pub closed spec fn spec_checks(&self) -> Seq<SystemCheck> {
        self.checks@
    }

    pub closed spec fn spec_current(&self) -> usize {
        self.current_check
    }

    pub closed spec fn spec_complete(&self) -> bool {
        self.complete
    }

    pub closed spec fn spec_complete_frames(&self) -> u64 {
        self.complete_frames
    }

    pub closed spec fn spec_dev_mode(&self) -> bool {
        self.dev_mode
    }

    pub fn new(dev_mode: bool) -> (r: Self)
        ensures
            r.spec_frame() == 0,
            r.spec_checks().len() == 0,
            r.spec_current() == 0,
            !r.spec_complete(),
            r.spec_complete_frames() == 0,
            r.spec_dev_mode() == dev_mode,
    {
        BootScreen { frame: 0, checks: Vec::new(), current_check: 0, complete: false, dev_mode, complete_frames: 0 }
    }

    /// Adds a check still to run.
    pub fn add_check(&mut self, name: String)
        ensures
            final(self).spec_checks() == old(self).spec_checks().push(SystemCheck { name, status: CheckStatus::Pending, detail: None }),
            final(self).spec_current() == old(self).spec_current(),
            final(self).spec_complete() == old(self).spec_complete(),
            final(self).spec_frame() == old(self).spec_frame(),
    {
        self.checks.push(SystemCheck { name, status: CheckStatus::Pending, detail: None });
    }

    /// Adds a check whose result is already known; it counts as finished.
    pub fn add_check_with_detail(&mut self, name: String, detail: String)
        ensures
            final(self).spec_checks() == old(self).spec_checks().push(SystemCheck { name, status: CheckStatus::Passed, detail: Some(detail) }),
            final(self).spec_current() == final(self).spec_checks().len(),
            final(self).spec_complete() == old(self).spec_complete(),
            final(self).spec_frame() == old(self).spec_frame(),
    {
        self.checks.push(SystemCheck { name, status: CheckStatus::Passed, detail: Some(detail) });
        self.current_check = self.checks.len();
    }

    fn set_status_at(&mut self, idx: usize, status: CheckStatus)
        requires
            idx < old(self).checks.len(),
        ensures
            final(self).checks@ == old(self).checks@.update(idx as int, SystemCheck { status, ..old(self).checks@[idx as int] }),
            final(self).frame == old(self).frame,
            final(self).current_check == old(self).current_check,
            final(self).complete == old(self).complete,
            final(self).complete_frames == old(self).complete_frames,
            final(self).dev_mode == old(self).dev_mode,
    {
        let mut c = self.checks.remove(idx);
        c.status = status;
        self.checks.insert(idx, c);
        assert(self.checks@ =~= old(self).checks@.update(idx as int, SystemCheck { status, ..old(self).checks@[idx as int] }));
    }

    /// Advances one frame: every twentieth frame the current check moves
    /// on; once every check has finished the screen is complete and its
    /// countdown runs.
    pub fn tick(&mut self)
        ensures
            final(self).spec_frame() == frame_after(old(self).spec_frame()),
            ({
                let stepping = !old(self).spec_complete() && frame_after(old(self).spec_frame()) % CHECK_STEP_FRAMES == 0
                    && old(self).spec_current() < old(self).spec_checks().len();
                let (cs, cur) = if stepping {
                    animate(old(self).spec_checks(), old(self).spec_current() as int)
                } else {
                    (old(self).spec_checks(), old(self).spec_current() as int)
                };
                &&& final(self).spec_checks() == cs
                &&& final(self).spec_current() == cur
                &&& if cur >= cs.len() && cs.len() > 0 {
                        if !old(self).spec_complete() {
                            final(self).spec_complete() && final(self).spec_complete_frames() == 0
                        } else {
                            final(self).spec_complete() && final(self).spec_complete_frames() == frame_after(old(self).spec_complete_frames())
                        }
                    } else {
                        final(self).spec_complete() == old(self).spec_complete()
                            && final(self).spec_complete_frames() == old(self).spec_complete_frames()
                    }
            }),
    {
        self.frame = next_frame(self.frame);
        if !self.complete && self.frame % CHECK_STEP_FRAMES == 0 && self.current_check < self.checks.len() {
            let i = self.current_check;
            let st = self.checks[i].status;
            if st == CheckStatus::Pending {
                self.set_status_at(i, CheckStatus::Checking);
            } else if st == CheckStatus::Checking {
                self.set_status_at(i, CheckStatus::Passed);
                self.current_check = i + 1;
            }
        }
        if self.current_check >= self.checks.len() && self.checks.len() > 0 {
            if !self.complete {
                self.complete = true;
                self.complete_frames = 0;
            } else {
                self.complete_frames = next_frame(self.complete_frames);
            }
        }
    }

    pub fn countdown(&self) -> (r: u8)
        ensures
            r == boot_countdown(self.spec_complete(), self.spec_complete_frames()),
    {
        if !self.complete {
            return 0;
        }
        let seconds = self.complete_frames / 60;
        if seconds == 0 {
            3
        } else if seconds == 1 {
            2
        } else if seconds == 2 {
            1
        } else {
            0
        }
    }

    /// True once the countdown after completion has run out.
    pub fn should_auto_advance(&self) -> (r: bool)
        ensures
            r == (self.spec_complete() && boot_countdown(self.spec_complete(), self.spec_complete_frames()) == 0),
    {
        self.complete && self.countdown() == 0
    }

    /// Sets a check's status and detail; a finished status moves the current
    /// check past it.
    pub fn set_check_status(&mut self, idx: usize, status: CheckStatus, detail: Option<String>)
        ensures
            idx >= old(self).spec_checks().len() ==> final(self).spec_checks() == old(self).spec_checks()
                && final(self).spec_current() == old(self).spec_current(),
            idx < old(self).spec_checks().len() ==> final(self).spec_checks() == old(self).spec_checks().update(idx as int,
                SystemCheck { status, detail, ..old(self).spec_checks()[idx as int] }),
            idx < old(self).spec_checks().len() && is_finished_status(status) ==>
                final(self).spec_current() == if old(self).spec_current() > idx { old(self).spec_current() } else { (idx + 1) as usize },
            !(idx < old(self).spec_checks().len() && is_finished_status(status)) ==> final(self).spec_current() == old(self).spec_current(),
            final(self).spec_complete() == old(self).spec_complete(),
    {
        if idx < self.checks.len() {
            let mut c = self.checks.remove(idx);
            c.status = status;
            c.detail = detail;
            self.checks.insert(idx, c);
            if status == CheckStatus::Passed || status == CheckStatus::Warning || status == CheckStatus::Error {
                if self.current_check <= idx {
                    self.current_check = idx + 1;
                }
            }
            assert(self.checks@ =~= old(self).checks@.update(idx as int,
                SystemCheck { status, detail, ..old(self).checks@[idx as int] }));
        }
    }

    pub fn is_complete(&self) -> (r: bool)
        ensures
            r == self.spec_complete(),
    {
        self.complete
    }

    /// Finishes every check that has not finished and marks the screen
    /// complete.
    pub fn complete(&mut self)
        ensures
            final(self).spec_complete(),
            final(self).spec_checks().len() == old(self).spec_checks().len(),
            forall|i: int| 0 <= i < old(self).spec_checks().len() ==> {
                let c = #[trigger] old(self).spec_checks()[i];
                final(self).spec_checks()[i] == if c.status == CheckStatus::Pending || c.status == CheckStatus::Checking {
                    SystemCheck { status: CheckStatus::Passed, ..c }
                } else {
                    c
                }
            },
            final(self).spec_frame() == old(self).spec_frame(),
            final(self).spec_current() == old(self).spec_current(),
    {
        let mut i: usize = 0;
        while i < self.checks.len()
            invariant
                i <= self.checks.len(),
                self.checks@.len() == old(self).checks@.len(),
                self.frame == old(self).frame,
                self.current_check == old(self).current_check,
                forall|k: int| 0 <= k < i ==> {
                    let c = #[trigger] old(self).checks@[k];
                    self.checks@[k] == if c.status == CheckStatus::Pending || c.status == CheckStatus::Checking {
                        SystemCheck { status: CheckStatus::Passed, ..c }
                    } else {
                        c
                    }
                },
                forall|k: int| i <= k < self.checks@.len() ==> self.checks@[k] == old(self).checks@[k],
            decreases self.checks.len() - i,
        {
            let st = self.checks[i].status;
            if st == CheckStatus::Pending || st == CheckStatus::Checking {
                self.set_status_at(i, CheckStatus::Passed);
            }
            i = i + 1;
        }
        self.complete = true;
    }

    pub fn frame(&self) -> (r: u64)
        ensures
            r == self.spec_frame(),
    {
        self.frame
    }

    /// Share of finished checks, in units of `PROGRESS_SCALE`; no checks
    /// count as all done.
    pub fn progress(&self) -> (r: u32)
        ensures
            self.spec_checks().len() == 0 ==> r == PROGRESS_SCALE,
            self.spec_checks().len() > 0 ==> r == finished_count(self.spec_checks()) * (PROGRESS_SCALE as int) / (self.spec_checks().len() as int),
            r <= PROGRESS_SCALE,
    {
        if self.checks.len() == 0 {
            return PROGRESS_SCALE;
        }
        let mut done: usize = 0;
        let mut i: usize = 0;
        while i < self.checks.len()
            invariant
                i <= self.checks.len(),
                done == finished_count(self.checks@.subrange(0, i as int)),
                done <= i,
            decreases self.checks.len() - i,
        {
            proof {
                let pre = self.checks@.subrange(0, i + 1);
                assert(pre.drop_last() =~= self.checks@.subrange(0, i as int));
            }
            let st = self.checks[i].status;
            if st == CheckStatus::Passed || st == CheckStatus::Warning || st == CheckStatus::Error {
                done = done + 1;
            }
            i = i + 1;
        }
        assert(self.checks@.subrange(0, self.checks.len() as int) == self.checks@);
        let n = self.checks.len() as u128;
        proof {
            assert((done as u128) * 10000 <= n * 10000) by (nonlinear_arith)
                requires done <= n;
            vstd::arithmetic::div_mod::lemma_div_is_ordered((done as int) * 10000, (n as int) * 10000, n as int);
            vstd::arithmetic::div_mod::lemma_div_multiples_vanish(10000, n as int);
            assert((n as int) * 10000 == 10000 * (n as int)) by (nonlinear_arith);
        }
        ((done as u128) * 10000 / n) as u32
    }
}

} // verus!
