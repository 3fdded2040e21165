use vstd::prelude::*;
use crate::frame::{frame_after, next_frame};
use crate::text_field::TextField;

verus! {

/// Screen for entering commit ids to cherry-pick, comma-separated.
#[derive(Debug)]
pub struct CherryPickScreen {
    frame: u64,
    target_tag: String,
    field: TextField,
    placeholder: String,
    status: Option<String>,
}

impl CherryPickScreen {
    pub closed spec fn spec_frame(&self) -> u64 {
        self.frame
    }

    pub closed spec fn spec_text(&self) -> Seq<char> {
        self.field.text()
    }

    pub closed spec fn spec_cursor(&self) -> int {
        self.field.cursor_pos()
    }

    pub closed spec fn spec_target_tag(&self) -> Seq<char> {
        self.target_tag@
    }

    pub closed spec fn spec_placeholder(&self) -> Seq<char> {
        self.placeholder@
    }

    pub closed spec fn wf(&self) -> bool {
        self.field.wf()
    }

    pub closed spec fn spec_status(&self) -> Option<String> {
        self.status
    }

    pub fn new(target_tag: String) -> (r: Self)
        ensures
            r.wf(),
            r.spec_frame() == 0,
            r.spec_target_tag() == target_tag@,
            r.spec_text().len() == 0,
            r.spec_cursor() == 0,
            r.spec_status() is None,
            r.spec_placeholder() == "abc1234, def5678"@,
    {
        CherryPickScreen {
            frame: 0,
            target_tag,
            field: TextField::empty(),
            placeholder: String::from_str("abc1234, def5678"),
            status: None,
        }
    }

    /// Replaces the text, with the cursor at its end.
    pub fn set_value(&mut self, text: String)
        ensures
            final(self).wf(),
            final(self).spec_text() == text@,
            final(self).spec_cursor() == text@.len(),
            final(self).spec_frame() == old(self).spec_frame(),
            final(self).spec_status() == old(self).spec_status(),
            final(self).spec_target_tag() == old(self).spec_target_tag(),
            final(self).spec_placeholder() == old(self).spec_placeholder(),
    {
        self.field = TextField::with_text(text);
    }

    pub fn tick(&mut self)
        ensures
            final(self).spec_frame() == frame_after(old(self).spec_frame()),
            final(self).spec_text() == old(self).spec_text(),
            final(self).spec_cursor() == old(self).spec_cursor(),
            final(self).wf() == old(self).wf(),
            final(self).spec_target_tag() == old(self).spec_target_tag(),
    {
        self.frame = next_frame(self.frame);
    }

    pub fn insert_char(&mut self, c: char)
        requires
            old(self).wf(),
        ensures
            final(self).wf(),
            old(self).spec_text().len() < usize::MAX ==> final(self).spec_text() == old(self).spec_text().insert(old(self).spec_cursor(), c)
                && final(self).spec_cursor() == old(self).spec_cursor() + 1,
            final(self).spec_target_tag() == old(self).spec_target_tag(),
    {
        self.field.insert_char(c);
    }

    pub fn delete_char(&mut self)
        requires
            old(self).wf(),
        ensures
            final(self).wf(),
            old(self).spec_cursor() > 0 ==> final(self).spec_text() == old(self).spec_text().remove(old(self).spec_cursor() - 1)
                && final(self).spec_cursor() == old(self).spec_cursor() - 1,
            old(self).spec_cursor() == 0 ==> final(self).spec_text() == old(self).spec_text() && final(self).spec_cursor() == 0,
            final(self).spec_target_tag() == old(self).spec_target_tag(),
    {
        self.field.delete_char();
    }

    pub fn delete_forward(&mut self)
        requires
            old(self).wf(),
        ensures
            final(self).wf(),
            final(self).spec_cursor() == old(self).spec_cursor(),
            old(self).spec_cursor() < old(self).spec_text().len() ==> final(self).spec_text() == old(self).spec_text().remove(old(self).spec_cursor()),
            old(self).spec_cursor() == old(self).spec_text().len() ==> final(self).spec_text() == old(self).spec_text(),
            final(self).spec_target_tag() == old(self).spec_target_tag(),
    {
        self.field.delete_forward();
    }

    pub fn move_left(&mut self)
        requires
            old(self).wf(),
        ensures
            final(self).wf(),
            final(self).spec_text() == old(self).spec_text(),
            final(self).spec_cursor() == if old(self).spec_cursor() > 0 { old(self).spec_cursor() - 1 } else { 0 },
            final(self).spec_target_tag() == old(self).spec_target_tag(),
    {
        self.field.move_left();
    }

    pub fn move_right(&mut self)
        requires
            old(self).wf(),
        ensures
            final(self).wf(),
            final(self).spec_text() == old(self).spec_text(),
            final(self).spec_cursor() == if old(self).spec_cursor() < old(self).spec_text().len() {
                old(self).spec_cursor() + 1
            } else {
                old(self).spec_cursor()
            },
            final(self).spec_target_tag() == old(self).spec_target_tag(),
    {
        self.field.move_right();
    }

    pub fn move_home(&mut self)
        requires
            old(self).wf(),
        ensures
            final(self).wf(),
            final(self).spec_text() == old(self).spec_text(),
            final(self).spec_cursor() == 0,
            final(self).spec_target_tag() == old(self).spec_target_tag(),
    {
        self.field.move_home();
    }

    pub fn move_end(&mut self)
        requires
            old(self).wf(),
        ensures
            final(self).wf(),
            final(self).spec_text() == old(self).spec_text(),
            final(self).spec_cursor() == old(self).spec_text().len(),
            final(self).spec_target_tag() == old(self).spec_target_tag(),
    {
        self.field.move_end();
    }

    pub fn value(&self) -> (r: &str)
        ensures
            r@ == self.spec_text(),
    {
        self.field.value()
    }

    pub fn status(&self) -> (r: Option<&str>)
        ensures
            r is None <==> self.spec_status() is None,
            r is Some ==> r->Some_0@ == self.spec_status()->Some_0@,
    {
        match &self.status {
            Some(s) => Some(s.as_str()),
            None => None,
        }
    }

    pub fn set_status(&mut self, status: Option<String>)
        ensures
            final(self).spec_status() == status,
            final(self).spec_text() == old(self).spec_text(),
            final(self).spec_cursor() == old(self).spec_cursor(),
            final(self).wf() == old(self).wf(),
            final(self).spec_target_tag() == old(self).spec_target_tag(),
    {
        self.status = status;
    }
}

} // verus!
