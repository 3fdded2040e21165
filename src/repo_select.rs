use vstd::prelude::*;
use crate::frame::{frame_after, next_frame};

verus! {

/// A local repository offered for selection.
#[derive(Clone, Debug)]
pub struct RepoInfo {
    pub path: String,
    pub branch: String,
    pub age: String,
    pub is_modified: bool,
}

impl RepoInfo {
    pub fn display_path(&self) -> (r: String)
        ensures
            r@ == self.path@,
    {
        self.path.clone()
    }
}

/// Repository selection screen; the entry after the repositories offers a
/// fresh clone.
#[derive(Debug)]
pub struct RepoSelectScreen {
    frame: u64,
    repos: Vec<RepoInfo>,
    cursor: usize,
    show_clone_option: bool,
}

impl RepoSelectScreen {
    pub closed spec fn spec_frame(&self) -> u64 {
        self.frame
    }

    pub closed spec fn spec_repos(&self) -> Seq<RepoInfo> {
        self.repos@
    }

    pub closed spec fn spec_cursor(&self) -> usize {
        self.cursor
    }

    pub closed spec fn spec_show_clone(&self) -> bool {
        self.show_clone_option
    }

    /// Number of entries: the repositories, plus the clone entry if shown.
    pub open spec fn entry_count(&self) -> int {
        self.spec_repos().len() + if self.spec_show_clone() { 1int } else { 0int }
    }

    pub fn new(repos: Vec<RepoInfo>) -> (r: Self)
        ensures
            r.spec_repos() == repos@,
            r.spec_cursor() == 0,
            r.spec_frame() == 0,
            r.spec_show_clone(),
    {
        RepoSelectScreen { frame: 0, repos, cursor: 0, show_clone_option: true }
    }

    pub fn tick(&mut self)
        ensures
            final(self).spec_frame() == frame_after(old(self).spec_frame()),
            final(self).spec_repos() == old(self).spec_repos(),
            final(self).spec_cursor() == old(self).spec_cursor(),
            final(self).spec_show_clone() == old(self).spec_show_clone(),
    {
        self.frame = next_frame(self.frame);
    }

    pub fn select_next(&mut self)
        ensures
            final(self).spec_cursor() == if (old(self).spec_cursor() as int) + 1 < old(self).entry_count() {
                (old(self).spec_cursor() + 1) as usize
            } else {
                old(self).spec_cursor()
            },
            final(self).spec_repos() == old(self).spec_repos(),
            final(self).spec_show_clone() == old(self).spec_show_clone(),
    {
        let n = self.repos.len();
        let below_last = if self.show_clone_option { self.cursor < n } else { self.cursor < n && self.cursor + 1 < n };
        if below_last {
            self.cursor = self.cursor + 1;
        }
    }

    pub fn select_prev(&mut self)
        ensures
            final(self).spec_cursor() == if old(self).spec_cursor() > 0 {
                (old(self).spec_cursor() - 1) as usize
            } else {
                0
            },
            final(self).spec_repos() == old(self).spec_repos(),
            final(self).spec_show_clone() == old(self).spec_show_clone(),
    {
        if self.cursor > 0 {
            self.cursor = self.cursor - 1;
        }
    }

    /// Whether the cursor is on the clone entry.
    pub fn is_clone_selected(&self) -> (r: bool)
        ensures
            r == (self.spec_show_clone() && self.spec_cursor() == self.spec_repos().len()),
    {
        self.show_clone_option && self.cursor == self.repos.len()
    }

    /// The repository under the cursor, if the cursor is on one.
    pub fn selected_repo(&self) -> (r: Option<&RepoInfo>)
        ensures
            self.spec_cursor() < self.spec_repos().len() ==> r == Some(&self.spec_repos()[self.spec_cursor() as int]),
            self.spec_cursor() >= self.spec_repos().len() ==> r is None,
    {
        if self.cursor < self.repos.len() {
            Some(&self.repos[self.cursor])
        } else {
            None
        }
    }

    pub fn frame(&self) -> (r: u64)
        ensures
            r == self.spec_frame(),
    {
        self.frame
    }
}

} // verus!
