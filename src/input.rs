use vstd::prelude::*;
use crate::frame::{frame_after, next_frame};
use crate::text_field::TextField;

verus! {

/// Text input screen, used for the clone destination.
#[derive(Debug)]
pub struct InputScreen {
    frame: u64,
    prompt: String,
    field: TextField,
    placeholder: String,
}

impl InputScreen {
    pub closed spec fn spec_frame(&self) -> u64 {
        self.frame
    }

    pub closed spec fn spec_text(&self) -> Seq<char> {
        self.field.text()
    }

    pub closed spec fn spec_cursor(&self) -> int {
        self.field.cursor_pos()
    }

    pub closed spec fn spec_prompt(&self) -> Seq<char> {
        self.prompt@
    }

    pub closed spec fn spec_placeholder(&self) -> Seq<char> {
        self.placeholder@
    }

    pub closed spec fn wf(&self) -> bool {
        self.field.wf()
    }

    pub fn new(prompt: String) -> (r: Self)
        ensures
            r.wf(),
            r.spec_frame() == 0,
            r.spec_prompt() == prompt@,
            r.spec_text().len() == 0,
            r.spec_cursor() == 0,
            r.spec_placeholder().len() == 0,
    {
        InputScreen { frame: 0, prompt, field: TextField::empty(), placeholder: String::new() }
    }

    pub fn placeholder(self, text: String) -> (r: Self)
        requires
            self.wf(),
        ensures
            r.wf(),
            r.spec_placeholder() == text@,
            r.spec_text() == self.spec_text(),
            r.spec_cursor() == self.spec_cursor(),
            r.spec_prompt() == self.spec_prompt(),
            r.spec_frame() == self.spec_frame(),
    {
        InputScreen { placeholder: text, ..self }
    }

    /// Sets the initial text, with the cursor at its end.
    pub fn initial_value(self, text: String) -> (r: Self)
        ensures
            r.wf(),
            r.spec_text() == text@,
            r.spec_cursor() == text@.len(),
            r.spec_placeholder() == self.spec_placeholder(),
            r.spec_prompt() == self.spec_prompt(),
            r.spec_frame() == self.spec_frame(),
    {
        InputScreen { field: TextField::with_text(text), ..self }
    }

    pub fn tick(&mut self)
        ensures
            final(self).spec_frame() == frame_after(old(self).spec_frame()),
            final(self).spec_text() == old(self).spec_text(),
            final(self).spec_cursor() == old(self).spec_cursor(),
            final(self).wf() == old(self).wf(),
    {
        self.frame = next_frame(self.frame);
    }

    pub fn insert_char(&mut self, c: char)
        requires
            old(self).wf(),
        ensures
            final(self).wf(),
            old(self).spec_text().len() < usize::MAX ==> final(self).spec_text() == old(self).spec_text().insert(old(self).spec_cursor(), c)
                && final(self).spec_cursor() == old(self).spec_cursor() + 1,
    {
        self.field.insert_char(c);
    }

    pub fn delete_char(&mut self)
        requires
            old(self).wf(),
        ensures
            final(self).wf(),
            old(self).spec_cursor() > 0 ==> final(self).spec_text() == old(self).spec_text().remove(old(self).spec_cursor() - 1)
                && final(self).spec_cursor() == old(self).spec_cursor() - 1,
            old(self).spec_cursor() == 0 ==> final(self).spec_text() == old(self).spec_text() && final(self).spec_cursor() == 0,
    {
        self.field.delete_char();
    }

    pub fn delete_forward(&mut self)
        requires
            old(self).wf(),
        ensures
            final(self).wf(),
            final(self).spec_cursor() == old(self).spec_cursor(),
            old(self).spec_cursor() < old(self).spec_text().len() ==> final(self).spec_text() == old(self).spec_text().remove(old(self).spec_cursor()),
            old(self).spec_cursor() == old(self).spec_text().len() ==> final(self).spec_text() == old(self).spec_text(),
    {
        self.field.delete_forward();
    }

    pub fn move_left(&mut self)
        requires
            old(self).wf(),
        ensures
            final(self).wf(),
            final(self).spec_text() == old(self).spec_text(),
            final(self).spec_cursor() == if old(self).spec_cursor() > 0 { old(self).spec_cursor() - 1 } else { 0 },
    {
        self.field.move_left();
    }

    pub fn move_right(&mut self)
        requires
            old(self).wf(),
        ensures
            final(self).wf(),
            final(self).spec_text() == old(self).spec_text(),
            final(self).spec_cursor() == if old(self).spec_cursor() < old(self).spec_text().len() {
                old(self).spec_cursor() + 1
            } else {
                old(self).spec_cursor()
            },
    {
        self.field.move_right();
    }

    pub fn move_home(&mut self)
        requires
            old(self).wf(),
        ensures
            final(self).wf(),
            final(self).spec_text() == old(self).spec_text(),
            final(self).spec_cursor() == 0,
    {
        self.field.move_home();
    }

    pub fn move_end(&mut self)
        requires
            old(self).wf(),
        ensures
            final(self).wf(),
            final(self).spec_text() == old(self).spec_text(),
            final(self).spec_cursor() == old(self).spec_text().len(),
    {
        self.field.move_end();
    }

    pub fn value(&self) -> (r: &str)
        ensures
            r@ == self.spec_text(),
    {
        self.field.value()
    }

    pub fn frame(&self) -> (r: u64)
        ensures
            r == self.spec_frame(),
    {
        self.frame
    }
}

} // verus!
