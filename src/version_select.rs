use vstd::prelude::*;
use crate::frame::{frame_after, next_frame};
use crate::patch_select::{cursor_down, cursor_up};

verus! {

/// A release offered for selection.
#[derive(Clone, Debug)]
pub struct VersionInfo {
    pub tag: String,
    pub date: String,
    pub is_latest: bool,
    pub is_current: bool,
    pub changelog: Vec<String>,
}

/// Version selection screen.
#[derive(Debug)]
pub struct VersionSelectScreen {
    frame: u64,
    versions: Vec<VersionInfo>,
    cursor: usize,
}

impl VersionSelectScreen {
    pub closed spec fn spec_frame(&self) -> u64 {
        self.frame
    }

    pub closed spec fn spec_versions(&self) -> Seq<VersionInfo> {
        self.versions@
    }

    pub closed spec fn spec_cursor(&self) -> usize {
        self.cursor
    }

    pub fn new(versions: Vec<VersionInfo>) -> (r: Self)
        ensures
            r.spec_versions() == versions@,
            r.spec_cursor() == 0,
            r.spec_frame() == 0,
    {
        VersionSelectScreen { frame: 0, versions, cursor: 0 }
    }

    pub fn tick(&mut self)
        ensures
            final(self).spec_frame() == frame_after(old(self).spec_frame()),
            final(self).spec_versions() == old(self).spec_versions(),
            final(self).spec_cursor() == old(self).spec_cursor(),
    {
        self.frame = next_frame(self.frame);
    }

    pub fn select_next(&mut self)
        ensures
            final(self).spec_cursor() == cursor_down(old(self).spec_cursor(), old(self).spec_versions().len() as int),
            final(self).spec_versions() == old(self).spec_versions(),
    {
        if self.cursor < self.versions.len() && self.cursor + 1 < self.versions.len() {
            self.cursor = self.cursor + 1;
        }
    }

    pub fn select_prev(&mut self)
        ensures
            final(self).spec_cursor() == cursor_up(old(self).spec_cursor()),
            final(self).spec_versions() == old(self).spec_versions(),
    {
        if self.cursor > 0 {
            self.cursor = self.cursor - 1;
        }
    }

    /// The release under the cursor.
    pub fn selected_version(&self) -> (r: Option<&VersionInfo>)
        ensures
            self.spec_cursor() < self.spec_versions().len() ==> r == Some(&self.spec_versions()[self.spec_cursor() as int]),
            self.spec_cursor() >= self.spec_versions().len() ==> r is None,
    {
        if self.cursor < self.versions.len() {
            Some(&self.versions[self.cursor])
        } else {
            None
        }
    }

    pub fn frame(&self) -> (r: u64)
        ensures
            r == self.spec_frame(),
    {
        self.frame
    }
}

} // verus!
