use vstd::prelude::*;

verus! {

/// Relies on collecting a `char` iterator into a `String`: the string holds
/// exactly those characters, in order.
#[verifier::external_body]
fn string_of(chars: &Vec<char>) -> (r: String)
    ensures
        r@ == chars@,
{
    chars.iter().collect()
}

/// Editable text with a caret counted in characters, not bytes, so that
/// multi-byte characters are edited as a whole.
pub struct TextField {
    chars: Vec<char>,
    caret: usize,
}

impl TextField {
    pub closed spec fn text(&self) -> Seq<char> {
        self.chars@
    }

    pub closed spec fn caret_at(&self) -> nat {
        self.caret as nat
    }

    /// The caret lies within the text or just after it.
    pub open spec fn wf(&self) -> bool {
        self.caret_at() <= self.text().len()
    }

    pub fn new() -> (r: TextField)
        ensures
            r.wf(),
            r.text() == Seq::<char>::empty(),
            r.caret_at() == 0,
    {
        TextField { chars: Vec::new(), caret: 0 }
    }

    pub fn caret(&self) -> (r: usize)
        ensures
            r == self.caret_at(),
    {
        self.caret
    }

    pub fn is_empty(&self) -> (r: bool)
        ensures
            r == (self.text().len() == 0),
    {
        self.chars.len() == 0
    }

    pub fn to_text(&self) -> (r: String)
        ensures
            r@ == self.text(),
    {
        string_of(&self.chars)
    }

    /// Inserts `c` at the caret and moves the caret past it.
    pub fn enter_char(&mut self, c: char)
        requires
            old(self).wf(),
            old(self).text().len() < usize::MAX,
        ensures
            final(self).wf(),
            final(self).text() == old(self).text().insert(old(self).caret_at() as int, c),
            final(self).caret_at() == old(self).caret_at() + 1,
    {
        self.chars.insert(self.caret, c);
        self.caret = self.caret + 1;
    }

    /// Deletes the character before the caret, if there is one, and moves the
    /// caret back over it.
    pub fn delete_char(&mut self)
        requires
            old(self).wf(),
        ensures
            final(self).wf(),
            old(self).caret_at() == 0 ==> *final(self) == *old(self),
            old(self).caret_at() > 0 ==> final(self).text() == old(self).text().remove(
                old(self).caret_at() - 1,
            ) && final(self).caret_at() == old(self).caret_at() - 1,
    {
        if self.caret != 0 {
            self.chars.remove(self.caret - 1);
            self.caret = self.caret - 1;
        }
    }

    pub fn move_left(&mut self)
        requires
            old(self).wf(),
        ensures
            final(self).wf(),
            final(self).text() == old(self).text(),
            final(self).caret_at() == if old(self).caret_at() == 0 {
                0
            } else {
                old(self).caret_at() - 1
            },
    {
        if self.caret > 0 {
            self.caret = self.caret - 1;
        }
    }

    pub fn move_right(&mut self)
        requires
            old(self).wf(),
        ensures
            final(self).wf(),
            final(self).text() == old(self).text(),
            final(self).caret_at() == if old(self).caret_at() == old(self).text().len() {
                old(self).caret_at()
            } else {
                old(self).caret_at() + 1
            },
    {
        if self.caret < self.chars.len() {
            self.caret = self.caret + 1;
        }
    }

    /// Empties the text and puts the caret at the start.
    pub fn clear(&mut self)
        ensures
            final(self).wf(),
            final(self).text() == Seq::<char>::empty(),
            final(self).caret_at() == 0,
    {
        self.chars.clear();
        self.caret = 0;
    }
}

} // verus!
