use vstd::prelude::*;
use crate::frame::{frame_after, next_frame};

verus! {

/// A patch-definition file offered for selection.
#[derive(Clone, Debug)]
pub struct PatchInfo {
    pub path: String,
    pub name: String,
    pub description: String,
    pub patch_count: usize,
    pub selected: bool,
    pub compatible: bool,
}

/// The patches that are selected, in list order.
pub open spec fn selected_of(ps: Seq<PatchInfo>) -> Seq<PatchInfo>
    decreases ps.len(),
{
    if ps.len() == 0 {
        Seq::empty()
    } else if ps.last().selected {
        selected_of(ps.drop_last()).push(ps.last())
    } else {
        selected_of(ps.drop_last())
    }
}

/// The cursor after moving down a list of `len` entries.
pub open spec fn cursor_down(cursor: usize, len: int) -> usize {
    if (cursor as int) + 1 < len { (cursor + 1) as usize } else { cursor }
}

/// The cursor after moving up.
pub open spec fn cursor_up(cursor: usize) -> usize {
    if cursor > 0 { (cursor - 1) as usize } else { cursor }
}

/// Patch selection screen with checkboxes.
#[derive(Debug)]
pub struct PatchSelectScreen {
    frame: u64,
    patches: Vec<PatchInfo>,
    cursor: usize,
    target_version: String,
}

impl PatchSelectScreen {
    pub closed spec fn spec_frame(&self) -> u64 {
        self.frame
    }

    pub closed spec fn spec_patches(&self) -> Seq<PatchInfo> {
        self.patches@
    }

    pub closed spec fn spec_cursor(&self) -> usize {
        self.cursor
    }

    pub closed spec fn spec_target_version(&self) -> Seq<char> {
        self.target_version@
    }

    /// Selection starts as the caller chose it; the screen infers nothing.
    pub fn new(patches: Vec<PatchInfo>, target_version: String) -> (r: Self)
        ensures
            r.spec_patches() == patches@,
            r.spec_cursor() == 0,
            r.spec_frame() == 0,
            r.spec_target_version() == target_version@,
    {
        PatchSelectScreen { frame: 0, patches, cursor: 0, target_version }
    }

    pub fn tick(&mut self)
        ensures
            final(self).spec_frame() == frame_after(old(self).spec_frame()),
            final(self).spec_patches() == old(self).spec_patches(),
            final(self).spec_cursor() == old(self).spec_cursor(),
            final(self).spec_target_version() == old(self).spec_target_version(),
    {
        self.frame = next_frame(self.frame);
    }

    pub fn select_next(&mut self)
        ensures
            final(self).spec_cursor() == cursor_down(old(self).spec_cursor(), old(self).spec_patches().len() as int),
            final(self).spec_patches() == old(self).spec_patches(),
            final(self).spec_target_version() == old(self).spec_target_version(),
    {
        if self.cursor < self.patches.len() && self.cursor + 1 < self.patches.len() {
            self.cursor = self.cursor + 1;
        }
    }

    pub fn select_prev(&mut self)
        ensures
            final(self).spec_cursor() == cursor_up(old(self).spec_cursor()),
            final(self).spec_patches() == old(self).spec_patches(),
            final(self).spec_target_version() == old(self).spec_target_version(),
    {
        if self.cursor > 0 {
            self.cursor = self.cursor - 1;
        }
    }

    /// Flips the selection of the patch under the cursor. Incompatible
    /// patches can be selected too.
    pub fn toggle_current(&mut self)
        ensures
            final(self).spec_cursor() == old(self).spec_cursor(),
            final(self).spec_patches().len() == old(self).spec_patches().len(),
            forall|i: int| 0 <= i < old(self).spec_patches().len() && i != old(self).spec_cursor() ==>
                final(self).spec_patches()[i] == old(self).spec_patches()[i],
            old(self).spec_cursor() < old(self).spec_patches().len() ==> {
                let (o, n) = (old(self).spec_patches()[old(self).spec_cursor() as int], final(self).spec_patches()[old(self).spec_cursor() as int]);
                n == PatchInfo { selected: !o.selected, ..o }
            },
            final(self).spec_target_version() == old(self).spec_target_version(),
    {
        if self.cursor < self.patches.len() {
            let mut p = self.patches.remove(self.cursor);
            p.selected = !p.selected;
            self.patches.insert(self.cursor, p);
        }
    }

    fn set_all(&mut self, selected: bool)
        ensures
            final(self).spec_cursor() == old(self).spec_cursor(),
            final(self).spec_frame() == old(self).spec_frame(),
            final(self).spec_patches().len() == old(self).spec_patches().len(),
            forall|i: int| 0 <= i < old(self).spec_patches().len() ==>
                #[trigger] final(self).spec_patches()[i] == (PatchInfo { selected, ..old(self).spec_patches()[i] }),
            final(self).target_version == old(self).target_version,
    {
        let mut i: usize = 0;
        while i < self.patches.len()
            invariant
                i <= self.patches.len(),
                self.patches@.len() == old(self).patches@.len(),
                self.cursor == old(self).cursor,
                self.frame == old(self).frame,
                self.target_version == old(self).target_version,
                forall|k: int| 0 <= k < i ==> #[trigger] self.patches@[k] == (PatchInfo { selected, ..old(self).patches@[k] }),
                forall|k: int| i <= k < self.patches@.len() ==> #[trigger] self.patches@[k] == old(self).patches@[k],
            decreases self.patches.len() - i,
        {
            let mut p = self.patches.remove(i);
            p.selected = selected;
            self.patches.insert(i, p);
            i = i + 1;
        }
    }

    pub fn select_all(&mut self)
        ensures
            final(self).spec_cursor() == old(self).spec_cursor(),
            final(self).spec_patches().len() == old(self).spec_patches().len(),
            forall|i: int| 0 <= i < old(self).spec_patches().len() ==>
                #[trigger] final(self).spec_patches()[i] == (PatchInfo { selected: true, ..old(self).spec_patches()[i] }),
            final(self).spec_target_version() == old(self).spec_target_version(),
    {
        self.set_all(true);
    }

    pub fn select_none(&mut self)
        ensures
            final(self).spec_cursor() == old(self).spec_cursor(),
            final(self).spec_patches().len() == old(self).spec_patches().len(),
            forall|i: int| 0 <= i < old(self).spec_patches().len() ==>
                #[trigger] final(self).spec_patches()[i] == (PatchInfo { selected: false, ..old(self).spec_patches()[i] }),
            final(self).spec_target_version() == old(self).spec_target_version(),
    {
        self.set_all(false);
    }

    /// The selected patches, in list order.
    pub fn selected_patches(&self) -> (r: Vec<&PatchInfo>)
        ensures
            r@.map_values(|p: &PatchInfo| *p) == selected_of(self.spec_patches()),
    {
        let mut out: Vec<&PatchInfo> = Vec::new();
        let mut i: usize = 0;
        while i < self.patches.len()
            invariant
                i <= self.patches.len(),
                out@.map_values(|p: &PatchInfo| *p) == selected_of(self.patches@.subrange(0, i as int)),
            decreases self.patches.len() - i,
        {
            proof {
                let pre = self.patches@.subrange(0, i + 1);
                assert(pre.drop_last() =~= self.patches@.subrange(0, i as int));
            }
            if self.patches[i].selected {
                let ghost before = out@;
                out.push(&self.patches[i]);
                assert(out@.map_values(|p: &PatchInfo| *p) =~= before.map_values(|p: &PatchInfo| *p).push(self.patches@[i as int]));
            }
            i = i + 1;
        }
        assert(self.patches@.subrange(0, self.patches.len() as int) == self.patches@);
        out
    }

    /// Paths of the selected patches, in list order.
    pub fn selected_patch_paths(&self) -> (r: Vec<&String>)
        ensures
            r@.map_values(|p: &String| *p) == selected_of(self.spec_patches()).map_values(|p: PatchInfo| p.path),
    {
        let sel = self.selected_patches();
        let mut out: Vec<&String> = Vec::new();
        let mut i: usize = 0;
        while i < sel.len()
            invariant
                i <= sel.len(),
                sel@.map_values(|p: &PatchInfo| *p) == selected_of(self.spec_patches()),
                out@.map_values(|p: &String| *p) == sel@.subrange(0, i as int).map_values(|p: &PatchInfo| p.path),
            decreases sel.len() - i,
        {
            let ghost before = out@;
            out.push(&sel[i].path);
            proof {
                assert(sel@.subrange(0, i + 1).map_values(|p: &PatchInfo| p.path)
                    =~= sel@.subrange(0, i as int).map_values(|p: &PatchInfo| p.path).push(sel@[i as int].path));
                assert(out@.map_values(|p: &String| *p) =~= before.map_values(|p: &String| *p).push(sel@[i as int].path));
            }
            i = i + 1;
        }
        assert(sel@.subrange(0, sel.len() as int) == sel@);
        assert(sel@.map_values(|p: &PatchInfo| p.path) =~= selected_of(self.spec_patches()).map_values(|p: PatchInfo| p.path)) by {
            assert forall|k: int| 0 <= k < sel@.len() implies sel@[k].path == selected_of(self.spec_patches())[k].path by {
                assert(sel@.map_values(|p: &PatchInfo| *p)[k] == *sel@[k]);
            }
        }
        out
    }

    pub fn frame(&self) -> (r: u64)
        ensures
            r == self.spec_frame(),
    {
        self.frame
    }
}

} // verus!
