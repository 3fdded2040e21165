use vstd::prelude::*;
use crate::boot::{BootScreen, boot_countdown};
use crate::frame::frame_after;
use crate::bridge::{RunView, view_finished};
use crate::build_config::BuildConfigScreen;
use crate::clone::{CloneScreen, CloneStatus};
use crate::events::Event;
use crate::input::InputScreen;
use crate::patch_select::{PatchInfo, PatchSelectScreen};
use crate::repo_select::{RepoInfo, RepoSelectScreen};
use crate::screen::{Screen, screen_wf, screen_kind, screen_frame};
use crate::version_select::{VersionInfo, VersionSelectScreen};

verus! {

/// A key press, as the interface reads it.
#[derive(Clone, Copy, Debug, PartialEq, Eq, Structural)]
pub enum Key {
    Char(char),
    Enter,
    Esc,
    Up,
    Down,
    Left,
    Right,
    Home,
    End,
    Backspace,
    Delete,
    Other,
}

/// Outside work the wizard needs before it can show its next screen.
#[derive(Clone, Debug, PartialEq, Eq)]
pub enum Request {
    /// Find local repositories, then call `show_repos`.
    ShowRepos,
    /// Work out the default clone destination, then call `show_clone_input`.
    ShowCloneInput,
    /// Expand the destination, then call `show_cloning`.
    StartClone(String),
    /// Clone into the destination, then call `clone_finished`.
    RunClone(String),
    /// Fetch the repository's releases, then call `show_versions`.
    ShowVersions(String),
    /// Load the patch files for the version, then call `show_patches`.
    ShowPatches(String),
    /// Resolve the named patches to files, then call `show_build_config`.
    ShowBuildConfig(Vec<String>),
    /// Start a build from the selections, then call `show_build`.
    StartBuild,
}

/// The interactive wizard: the shown screen and what has been chosen.
#[derive(Debug)]
pub struct Wizard {
    pub screen: Screen,
    pub should_quit: bool,
    pub dev_mode: bool,
    pub selected_repo: Option<String>,
    pub selected_version: Option<String>,
    pub selected_patches: Vec<String>,
}

pub open spec fn is_quit_key(k: Key) -> bool {
    k == Key::Char('q') || k == Key::Char('Q')
}

/// Where going back from a screen leads.
pub open spec fn back_matches(w: Wizard, r: Option<Request>) -> bool {
    match w.screen {
        Screen::CloneInput(_) => r == Some(Request::ShowRepos),
        Screen::Cloning(c) => r == if c.spec_status() == CloneStatus::Error { Some(Request::ShowRepos) } else { None },
        Screen::VersionSelect(_) => r == Some(Request::ShowRepos),
        Screen::PatchSelect(_) => r == match w.selected_repo {
            Some(x) => Some(Request::ShowVersions(x)),
            None => None,
        },
        Screen::BuildConfig(_) => r matches Some(Request::ShowPatches(v)) && match w.selected_version {
            Some(x) => v == x,
            None => v@.len() == 0,
        },
        _ => r is None,
    }
}

impl Wizard {
    pub open spec fn wf(&self) -> bool {
        screen_wf(self.screen)
    }

    /// Starts on the boot screen, with its checks already filled in.
    pub fn new(dev_mode: bool, boot: BootScreen) -> (r: Self)
        ensures
            r.wf(),
            r.screen == Screen::Boot(boot),
            !r.should_quit,
            r.selected_repo is None,
            r.selected_version is None,
            r.selected_patches@.len() == 0,
    {
        Wizard {
            screen: Screen::Boot(boot),
            should_quit: false,
            dev_mode,
            selected_repo: None,
            selected_version: None,
            selected_patches: Vec::new(),
        }
    }

    fn back(&mut self) -> (r: Option<Request>)
        requires
            old(self).wf(),
        ensures
            final(self).wf(),
            final(self).screen == old(self).screen,
            final(self).selected_repo == old(self).selected_repo,
            final(self).selected_version == old(self).selected_version,
            (old(self).screen matches Screen::Build(v) && view_finished(v)) ==> final(self).should_quit && r is None,
            !(old(self).screen matches Screen::Build(v) && view_finished(v)) ==>
                back_matches(*old(self), r) && final(self).should_quit == old(self).should_quit,
    {
        match &self.screen {
            Screen::CloneInput(_) => Some(Request::ShowRepos),
            Screen::Cloning(c) => if c.is_error() { Some(Request::ShowRepos) } else { None },
            Screen::VersionSelect(_) => Some(Request::ShowRepos),
            Screen::PatchSelect(_) => match &self.selected_repo {
                Some(r) => Some(Request::ShowVersions(r.clone())),
                None => None,
            },
            Screen::BuildConfig(_) => Some(Request::ShowPatches(match &self.selected_version {
                Some(v) => v.clone(),
                None => String::new(),
            })),
            Screen::Build(v) => {
                if v.is_finished() {
                    self.should_quit = true;
                }
                None
            },
            _ => None,
        }
    }

    /// Handles a key press: `q` quits, Esc goes back, other keys act on the
    /// shown screen. Returns the outside work the next screen needs, if any.
    pub fn handle_key(&mut self, key: Key) -> (r: Option<Request>)
        requires
            old(self).wf(),
        ensures
            final(self).wf(),
            is_quit_key(key) ==> final(self).should_quit && r is None && final(self).screen == old(self).screen,
            key == Key::Esc ==> final(self).screen == old(self).screen,
            key == Key::Esc && !(old(self).screen is Build) ==> back_matches(*old(self), r),
            !is_quit_key(key) && key != Key::Esc ==> screen_kind(final(self).screen) == screen_kind(old(self).screen),
            (old(self).screen is RepoSelect && key == Key::Enter) ==> (r is None || r == Some(Request::ShowCloneInput)
                || (r matches Some(Request::ShowVersions(p)) && final(self).selected_repo == Some(p))),
            (old(self).screen is VersionSelect && key == Key::Enter) ==> (r is None
                || (r matches Some(Request::ShowPatches(t)) && final(self).selected_version == Some(t))),
            (old(self).screen is BuildConfig && key == Key::Enter) ==> r == Some(Request::StartBuild),
            (old(self).screen is PatchSelect && key == Key::Enter) ==> r is Some && r->Some_0 is ShowBuildConfig,
    {
        if key == Key::Char('q') || key == Key::Char('Q') {
            self.should_quit = true;
            return None;
        }
        if key == Key::Esc {
            return self.back();
        }
        let ghost kind = screen_kind(self.screen);
        let mut request: Option<Request> = None;
        let mut choose_repo: Option<String> = None;
        let mut choose_version: Option<String> = None;
        match &mut self.screen {
            Screen::Boot(boot) => {
                if key == Key::Enter || key == Key::Char(' ') {
                    boot.complete();
                }
            },
            Screen::RepoSelect(s) => {
                if key == Key::Up {
                    s.select_prev();
                } else if key == Key::Down {
                    s.select_next();
                } else if key == Key::Enter {
                    if s.is_clone_selected() {
                        request = Some(Request::ShowCloneInput);
                    } else {
                        match s.selected_repo() {
                            Some(repo) => {
                                choose_repo = Some(repo.path.clone());
                                request = Some(Request::ShowVersions(repo.path.clone()));
                            },
                            None => {},
                        }
                    }
                }
            },
            Screen::CloneInput(s) => {
                match key {
                    Key::Char(c) => s.insert_char(c),
                    Key::Backspace => s.delete_char(),
                    Key::Delete => s.delete_forward(),
                    Key::Left => s.move_left(),
                    Key::Right => s.move_right(),
                    Key::Home => s.move_home(),
                    Key::End => s.move_end(),
                    Key::Enter => {
                        let v = s.value();
                        if v.len() > 0 {
                            request = Some(Request::StartClone(String::from_str(v)));
                        }
                    },
                    _ => {},
                }
            },
            Screen::Cloning(s) => {
                if key == Key::Enter && s.is_complete() {
                    let d = String::from_str(s.destination());
                    choose_repo = Some(d.clone());
                    request = Some(Request::ShowVersions(d));
                } else if (key == Key::Char('r') || key == Key::Char('R')) && s.is_error() {
                    request = Some(Request::StartClone(String::from_str(s.destination())));
                }
            },
            Screen::VersionSelect(s) => {
                if key == Key::Up {
                    s.select_prev();
                } else if key == Key::Down {
                    s.select_next();
                } else if key == Key::Enter {
                    match s.selected_version() {
                        Some(v) => {
                            choose_version = Some(v.tag.clone());
                            request = Some(Request::ShowPatches(v.tag.clone()));
                        },
                        None => {},
                    }
                }
            },
            Screen::PatchSelect(s) => {
                if key == Key::Up {
                    s.select_prev();
                } else if key == Key::Down {
                    s.select_next();
                } else if key == Key::Char(' ') {
                    s.toggle_current();
                } else if key == Key::Char('a') || key == Key::Char('A') {
                    s.select_all();
                } else if key == Key::Char('n') || key == Key::Char('N') {
                    s.select_none();
                } else if key == Key::Enter {
                    let chosen = s.selected_patches();
                    let mut names: Vec<String> = Vec::new();
                    let mut i: usize = 0;
                    while i < chosen.len()
                        invariant
                            i <= chosen.len(),
                        decreases chosen.len() - i,
                    {
                        names.push(chosen[i].name.clone());
                        i = i + 1;
                    }
                    request = Some(Request::ShowBuildConfig(names));
                }
            },
            Screen::BuildConfig(s) => {
                if key == Key::Up {
                    s.select_prev();
                } else if key == Key::Down {
                    s.select_next();
                } else if key == Key::Char(' ') {
                    s.toggle_current();
                } else if key == Key::Enter {
                    request = Some(Request::StartBuild);
                }
            },
            Screen::Build(v) => {
                if (key == Key::Char('r') || key == Key::Char('R')) && v.error.is_some() {
                    request = Some(Request::StartBuild);
                } else if v.is_finished() {
                    self.should_quit = true;
                }
            },
        }
        match choose_repo {
            Some(r) => {
                self.selected_repo = Some(r);
            },
            None => {},
        }
        match choose_version {
            Some(v) => {
                self.selected_version = Some(v);
            },
            None => {},
        }
        request
    }

    /// Advances one frame. The boot screen moves on when its countdown ends;
    /// the clone screen starts the clone on its fifth frame and moves on when
    /// the clone has completed.
    pub fn tick(&mut self) -> (r: Option<Request>)
        requires
            old(self).wf(),
        ensures
            final(self).wf(),
            screen_kind(final(self).screen) == screen_kind(old(self).screen),
            r matches Some(q) ==> (q == Request::ShowRepos || q is RunClone || q is ShowVersions),
            r matches Some(Request::ShowVersions(d)) ==> final(self).selected_repo == Some(d),
            !(old(self).screen is Build) ==> screen_frame(final(self).screen) == frame_after(screen_frame(old(self).screen)),
            old(self).screen is Build ==> final(self).screen == old(self).screen,
            old(self).screen is Boot ==> (r == Some(Request::ShowRepos) <==> (final(self).screen matches Screen::Boot(b)
                && b.spec_complete() && boot_countdown(b.spec_complete(), b.spec_complete_frames()) == 0)),
            old(self).screen is Boot ==> (r is None || r == Some(Request::ShowRepos)),
            r matches Some(Request::RunClone(d)) ==> (final(self).screen matches Screen::Cloning(c) && c.spec_frame() == 5
                && c.spec_status() == CloneStatus::Cloning && d@ == c.spec_destination()),
            r matches Some(Request::ShowVersions(d)) ==> (final(self).screen matches Screen::Cloning(c)
                && c.spec_status() == CloneStatus::Complete && c.spec_complete_frames() > 120 && d@ == c.spec_destination()),
            !(old(self).screen is Boot) && !(old(self).screen is Cloning) ==> r is None,
    {
        self.screen.tick();
        let mut request: Option<Request> = None;
        let mut choose_repo: Option<String> = None;
        match &mut self.screen {
            Screen::Boot(b) => {
                if b.should_auto_advance() {
                    request = Some(Request::ShowRepos);
                }
            },
            Screen::Cloning(c) => {
                if c.frame() == 5 && !c.is_complete() && !c.is_error() {
                    c.set_progress(String::from_str("Cloning repository..."));
                    request = Some(Request::RunClone(String::from_str(c.destination())));
                } else if c.should_auto_advance() {
                    let d = String::from_str(c.destination());
                    choose_repo = Some(d.clone());
                    request = Some(Request::ShowVersions(d));
                }
            },
            _ => {},
        }
        match choose_repo {
            Some(r) => {
                self.selected_repo = Some(r);
            },
            None => {},
        }
        request
    }

    pub fn show_repos(&mut self, repos: Vec<RepoInfo>)
        ensures
            final(self).wf(),
            final(self).screen is RepoSelect,
            final(self).selected_repo == old(self).selected_repo,
    {
        self.screen = Screen::RepoSelect(RepoSelectScreen::new(repos));
    }

    pub fn show_clone_input(&mut self, default_destination: String)
        ensures
            final(self).wf(),
            final(self).screen matches Screen::CloneInput(s) && s.spec_text() == default_destination@,
    {
        let s = InputScreen::new(String::from_str("Clone destination"))
            .placeholder(String::from_str("Enter path (e.g., ~/dev/codex)"))
            .initial_value(default_destination);
        self.screen = Screen::CloneInput(s);
    }

    pub fn show_cloning(&mut self, destination: String)
        ensures
            final(self).wf(),
            final(self).screen matches Screen::Cloning(c) && c.spec_destination() == destination@
                && c.spec_status() == CloneStatus::Cloning,
    {
        let mut c = CloneScreen::new(destination);
        c.set_progress(String::from_str("Starting git clone..."));
        self.screen = Screen::Cloning(c);
    }

    /// Records how the clone ended.
    pub fn clone_finished(&mut self, result: Result<(), String>)
        requires
            old(self).wf(),
        ensures
            final(self).wf(),
            screen_kind(final(self).screen) == screen_kind(old(self).screen),
            old(self).screen is Cloning ==> (final(self).screen matches Screen::Cloning(c) && (result is Ok ==>
                c.spec_status() == CloneStatus::Complete) && (result is Err ==> c.spec_status() == CloneStatus::Error)),
    {
        match &mut self.screen {
            Screen::Cloning(c) => match result {
                Ok(()) => c.set_complete(),
                Err(e) => c.set_error(e),
            },
            _ => {},
        }
    }

    pub fn show_versions(&mut self, versions: Vec<VersionInfo>)
        ensures
            final(self).wf(),
            final(self).screen matches Screen::VersionSelect(s) && s.spec_versions() == versions@,
    {
        self.screen = Screen::VersionSelect(VersionSelectScreen::new(versions));
    }

    /// Shows the patches with the selection the caller chose for them.
    pub fn show_patches(&mut self, patches: Vec<PatchInfo>, target_version: String)
        ensures
            final(self).wf(),
            final(self).screen matches Screen::PatchSelect(s) && s.spec_patches() == patches@,
    {
        self.screen = Screen::PatchSelect(PatchSelectScreen::new(patches, target_version));
    }

    pub fn show_build_config(&mut self, patch_paths: Vec<String>, cpu: String, detected_by: String, has_mold: bool, has_bolt: bool)
        ensures
            final(self).wf(),
            final(self).screen is BuildConfig,
            final(self).selected_patches == patch_paths,
    {
        self.selected_patches = patch_paths;
        self.screen = Screen::BuildConfig(BuildConfigScreen::new(cpu, detected_by, has_mold, has_bolt));
    }

    pub fn show_build(&mut self)
        ensures
            final(self).wf(),
            final(self).screen matches Screen::Build(v) && !view_finished(v),
    {
        self.screen = Screen::Build(RunView::new());
    }

    /// Hands the events drained this tick to the build screen; true once
    /// the run has ended.
    pub fn build_events(&mut self, batch: &Vec<Event>) -> (done: bool)
        requires
            old(self).wf(),
        ensures
            final(self).wf(),
            screen_kind(final(self).screen) == screen_kind(old(self).screen),
            old(self).screen is Build ==> (done <==> (final(self).screen matches Screen::Build(v) && view_finished(v))),
            !(old(self).screen is Build) ==> !done,
    {
        match &mut self.screen {
            Screen::Build(v) => v.apply_batch(batch),
            _ => false,
        }
    }
}

} // verus!
