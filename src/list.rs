use vstd::prelude::*;

verus! {

/// Status marker of a list entry.
#[derive(Clone, Copy, Debug, PartialEq, Eq, Structural)]
pub enum ListStatus {
    Plain,
    Ready,
    Modified,
    Active,
    Complete,
    Error,
    Current,
    Latest,
}

impl ListStatus {
    /// The two-column marker shown before an entry.
    pub fn indicator(&self) -> (r: &'static str)
        ensures
            *self == ListStatus::Plain ==> r@ == "  "@,
            *self == ListStatus::Ready ==> r@ == "✓ "@,
            *self == ListStatus::Modified ==> r@ == "◈ "@,
            *self == ListStatus::Active ==> r@ == "▶ "@,
            *self == ListStatus::Complete ==> r@ == "✓ "@,
            *self == ListStatus::Error ==> r@ == "✗ "@,
            *self == ListStatus::Current ==> r@ == "◀ "@,
            *self == ListStatus::Latest ==> r@ == "★ "@,
    {
        match self {
            ListStatus::Plain => "  ",
            ListStatus::Ready => "✓ ",
            ListStatus::Modified => "◈ ",
            ListStatus::Active => "▶ ",
            ListStatus::Complete => "✓ ",
            ListStatus::Error => "✗ ",
            ListStatus::Current => "◀ ",
            ListStatus::Latest => "★ ",
        }
    }
}

/// A list entry with optional status and metadata.
#[derive(Debug)]
pub struct ListItem {
    pub label: String,
    pub description: Option<String>,
    pub status: ListStatus,
    pub secondary_status: Option<String>,
}

impl ListItem {
    pub fn new(label: String) -> (r: Self)
        ensures
            r.label == label,
            r.description is None,
            r.status == ListStatus::Plain,
            r.secondary_status is None,
    {
        ListItem { label, description: None, status: ListStatus::Plain, secondary_status: None }
    }

    pub fn description(self, desc: String) -> (r: Self)
        ensures
            r == (ListItem { description: Some(desc), ..self }),
    {
        ListItem { description: Some(desc), ..self }
    }

    pub fn status(self, status: ListStatus) -> (r: Self)
        ensures
            r == (ListItem { status, ..self }),
    {
        ListItem { status, ..self }
    }

    pub fn secondary(self, text: String) -> (r: Self)
        ensures
            r == (ListItem { secondary_status: Some(text), ..self }),
    {
        ListItem { secondary_status: Some(text), ..self }
    }
}

/// A selectable list with a cursor.
#[derive(Debug)]
pub struct SelectList<'a> {
    pub items: &'a [ListItem],
    pub selected: usize,
    pub frame: u64,
    pub show_indices: bool,
}

impl<'a> SelectList<'a> {
    pub fn new(items: &'a [ListItem]) -> (r: Self)
        ensures
            r.items == items,
            r.selected == 0,
            r.frame == 0,
            !r.show_indices,
    {
        SelectList { items, selected: 0, frame: 0, show_indices: false }
    }

    pub fn selected(self, idx: usize) -> (r: Self)
        ensures
            r == (SelectList { selected: idx, ..self }),
    {
        SelectList { selected: idx, ..self }
    }

    pub fn frame(self, frame: u64) -> (r: Self)
        ensures
            r == (SelectList { frame, ..self }),
    {
        SelectList { frame, ..self }
    }

    pub fn show_indices(self, show: bool) -> (r: Self)
        ensures
            r == (SelectList { show_indices: show, ..self }),
    {
        SelectList { show_indices: show, ..self }
    }
}

/// A checkbox list for multiple selection.
#[derive(Debug)]
pub struct CheckList<'a> {
    pub items: &'a [(String, bool)],
    pub cursor: usize,
    pub frame: u64,
}

impl<'a> CheckList<'a> {
    pub fn new(items: &'a [(String, bool)]) -> (r: Self)
        ensures
            r.items == items,
            r.cursor == 0,
            r.frame == 0,
    {
        CheckList { items, cursor: 0, frame: 0 }
    }

    pub fn cursor(self, idx: usize) -> (r: Self)
        ensures
            r == (CheckList { cursor: idx, ..self }),
    {
        CheckList { cursor: idx, ..self }
    }

    pub fn frame(self, frame: u64) -> (r: Self)
        ensures
            r == (CheckList { frame, ..self }),
    {
        CheckList { frame, ..self }
    }
}

/// A bordered panel with optional titles.
#[derive(Debug)]
pub struct Panel<'a> {
    pub title: Option<&'a str>,
    pub title_jp: Option<&'a str>,
    pub focused: bool,
    pub double_border: bool,
}

impl<'a> Panel<'a> {
    pub fn new() -> (r: Self)
        ensures
            r.title is None,
            r.title_jp is None,
            !r.focused,
            !r.double_border,
    {
        Panel { title: None, title_jp: None, focused: false, double_border: false }
    }

    pub fn title(self, title: &'a str) -> (r: Self)
        ensures
            r == (Panel { title: Some(title), ..self }),
    {
        Panel { title: Some(title), ..self }
    }

    pub fn title_jp(self, jp: &'a str) -> (r: Self)
        ensures
            r == (Panel { title_jp: Some(jp), ..self }),
    {
        Panel { title_jp: Some(jp), ..self }
    }

    pub fn focused(self, focused: bool) -> (r: Self)
        ensures
            r == (Panel { focused, ..self }),
    {
        Panel { focused, ..self }
    }

    pub fn double_border(self) -> (r: Self)
        ensures
            r == (Panel { double_border: true, ..self }),
    {
        Panel { double_border: true, ..self }
    }
}

/// An indeterminate progress spinner.
#[derive(Debug)]
pub struct Spinner {
    pub frame: u64,
    pub label: Option<String>,
}

impl Spinner {
    pub fn new() -> (r: Self)
        ensures
            r.frame == 0,
            r.label is None,
    {
        Spinner { frame: 0, label: None }
    }

    pub fn frame(self, frame: u64) -> (r: Self)
        ensures
            r == (Spinner { frame, ..self }),
    {
        Spinner { frame, ..self }
    }

    pub fn label(self, label: String) -> (r: Self)
        ensures
            r == (Spinner { label: Some(label), ..self }),
    {
        Spinner { label: Some(label), ..self }
    }
}

} // verus!
