use vstd::prelude::*;
use crate::text::{chars_of, string_of};

verus! {

/// An editable line of text with a cursor counted in characters.
#[derive(Debug)]
pub struct TextField {
    value: String,
    cursor: usize,
}

impl TextField {
    pub closed spec fn text(&self) -> Seq<char> {
        self.value@
    }

    pub closed spec fn cursor_pos(&self) -> int {
        self.cursor as int
    }

    /// The cursor never passes the end of the text.
    pub closed spec fn wf(&self) -> bool {
        self.cursor <= self.value@.len()
    }

    pub fn empty() -> (r: Self)
        ensures
            r.wf(),
            r.text().len() == 0,
            r.cursor_pos() == 0,
    {
        TextField { value: String::new(), cursor: 0 }
    }

    /// Replaces the text and puts the cursor at its end.
    pub fn with_text(text: String) -> (r: Self)
        ensures
            r.wf(),
            r.text() == text@,
            r.cursor_pos() == text@.len(),
    {
        let n = chars_of(text.as_str()).len();
        TextField { value: text, cursor: n }
    }

    pub fn value(&self) -> (r: &str)
        ensures
            r@ == self.text(),
    {
        self.value.as_str()
    }

    /// Inserts `c` at the cursor and moves the cursor past it.
    pub fn insert_char(&mut self, c: char)
        requires
            old(self).wf(),
        ensures
            final(self).wf(),
            old(self).text().len() < usize::MAX ==> final(self).text() == old(self).text().insert(old(self).cursor_pos(), c)
                && final(self).cursor_pos() == old(self).cursor_pos() + 1,
            old(self).text().len() == usize::MAX ==> final(self).text() == old(self).text()
                && final(self).cursor_pos() == old(self).cursor_pos(),
    {
        let mut cs = chars_of(self.value.as_str());
        if cs.len() < usize::MAX {
            cs.insert(self.cursor, c);
            self.value = string_of(&cs);
            self.cursor = self.cursor + 1;
        }
    }

    /// Deletes the character before the cursor, if any.
    pub fn delete_char(&mut self)
        requires
            old(self).wf(),
        ensures
            final(self).wf(),
            old(self).cursor_pos() > 0 ==> final(self).text() == old(self).text().remove(old(self).cursor_pos() - 1)
                && final(self).cursor_pos() == old(self).cursor_pos() - 1,
            old(self).cursor_pos() == 0 ==> final(self).text() == old(self).text() && final(self).cursor_pos() == 0,
    {
        if self.cursor > 0 {
            let mut cs = chars_of(self.value.as_str());
            self.cursor = self.cursor - 1;
            cs.remove(self.cursor);
            self.value = string_of(&cs);
        }
    }

    /// Deletes the character under the cursor, if any.
    pub fn delete_forward(&mut self)
        requires
            old(self).wf(),
        ensures
            final(self).wf(),
            final(self).cursor_pos() == old(self).cursor_pos(),
            old(self).cursor_pos() < old(self).text().len() ==> final(self).text() == old(self).text().remove(old(self).cursor_pos()),
            old(self).cursor_pos() == old(self).text().len() ==> final(self).text() == old(self).text(),
    {
        let mut cs = chars_of(self.value.as_str());
        if self.cursor < cs.len() {
            cs.remove(self.cursor);
            self.value = string_of(&cs);
        }
    }

    pub fn move_left(&mut self)
        requires
            old(self).wf(),
        ensures
            final(self).wf(),
            final(self).text() == old(self).text(),
            final(self).cursor_pos() == if old(self).cursor_pos() > 0 { old(self).cursor_pos() - 1 } else { 0 },
    {
        if self.cursor > 0 {
            self.cursor = self.cursor - 1;
        }
    }

    pub fn move_right(&mut self)
        requires
            old(self).wf(),
        ensures
            final(self).wf(),
            final(self).text() == old(self).text(),
            final(self).cursor_pos() == if old(self).cursor_pos() < old(self).text().len() {
                old(self).cursor_pos() + 1
            } else {
                old(self).cursor_pos()
            },
    {
        let n = chars_of(self.value.as_str()).len();
        if self.cursor < n {
            self.cursor = self.cursor + 1;
        }
    }

    pub fn move_home(&mut self)
        requires
            old(self).wf(),
        ensures
            final(self).wf(),
            final(self).text() == old(self).text(),
            final(self).cursor_pos() == 0,
    {
        self.cursor = 0;
    }

    pub fn move_end(&mut self)
        requires
            old(self).wf(),
        ensures
            final(self).wf(),
            final(self).text() == old(self).text(),
            final(self).cursor_pos() == old(self).text().len(),
    {
        self.cursor = chars_of(self.value.as_str()).len();
    }
}

} // verus!
