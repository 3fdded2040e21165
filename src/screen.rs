use vstd::prelude::*;
use crate::boot::BootScreen;
use crate::bridge::RunView;
use crate::build_config::BuildConfigScreen;
use crate::clone::CloneScreen;
use crate::frame::frame_after;
use crate::input::InputScreen;
use crate::patch_select::PatchSelectScreen;
use crate::repo_select::RepoSelectScreen;
use crate::version_select::VersionSelectScreen;

verus! {

/// The screen the wizard shows.
#[derive(Debug)]
pub enum Screen {
    Boot(BootScreen),
    RepoSelect(RepoSelectScreen),
    CloneInput(InputScreen),
    Cloning(CloneScreen),
    VersionSelect(VersionSelectScreen),
    PatchSelect(PatchSelectScreen),
    BuildConfig(BuildConfigScreen),
    Build(RunView),
}

pub open spec fn screen_frame(s: Screen) -> u64 {
    match s {
        Screen::Boot(b) => b.spec_frame(),
        Screen::RepoSelect(b) => b.spec_frame(),
        Screen::CloneInput(b) => b.spec_frame(),
        Screen::Cloning(b) => b.spec_frame(),
        Screen::VersionSelect(b) => b.spec_frame(),
        Screen::PatchSelect(b) => b.spec_frame(),
        Screen::BuildConfig(b) => b.spec_frame(),
        Screen::Build(_) => 0,
    }
}

/// Which screen is shown, as a number in wizard order.
pub open spec fn screen_kind(s: Screen) -> int {
    match s {
        Screen::Boot(_) => 0,
        Screen::RepoSelect(_) => 1,
        Screen::CloneInput(_) => 2,
        Screen::Cloning(_) => 3,
        Screen::VersionSelect(_) => 4,
        Screen::PatchSelect(_) => 5,
        Screen::BuildConfig(_) => 6,
        Screen::Build(_) => 7,
    }
}

pub open spec fn screen_wf(s: Screen) -> bool {
    match s {
        Screen::BuildConfig(b) => b.wf(),
        Screen::CloneInput(b) => b.wf(),
        _ => true,
    }
}

impl Screen {
    /// Advances the shown screen by one frame.
    pub fn tick(&mut self)
        requires
            screen_wf(*old(self)),
        ensures
            screen_wf(*final(self)),
            !(*old(self) is Build) ==> screen_frame(*final(self)) == frame_after(screen_frame(*old(self))),
            *old(self) is Build ==> *final(self) == *old(self),
            screen_kind(*final(self)) == screen_kind(*old(self)),
    {
        match self {
            Screen::Boot(s) => s.tick(),
            Screen::RepoSelect(s) => s.tick(),
            Screen::CloneInput(s) => s.tick(),
            Screen::Cloning(s) => s.tick(),
            Screen::VersionSelect(s) => s.tick(),
            Screen::PatchSelect(s) => s.tick(),
            Screen::BuildConfig(s) => s.tick(),
            Screen::Build(_) => {},
        }
    }
}

} // verus!
