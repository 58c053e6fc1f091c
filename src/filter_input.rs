use crate::action::Action;
use crate::text_input::TextField;
use vstd::prelude::*;

verus! {

/// The text box in which the table filter is typed.
pub struct FilterInput {
    pub active: bool,
    pub editing: bool,
    pub title: String,
    pub input: TextField,
}

impl FilterInput {
    pub fn new(title: &str) -> (r: FilterInput)
        ensures
            r.title@ == title@,
            r.input.wf(),
            r.input.text().len() == 0,
            !r.active,
            !r.editing,
    {
        FilterInput {
            active: false,
            editing: false,
            title: String::from_str(title),
            input: TextField::new(),
        }
    }

    /// Applies one action and returns the actions it gives rise to: every
    /// edit re-sends the whole filter text.
    pub fn update(&mut self, action: &Action) -> (out: Vec<Action>)
        requires
            old(self).input.wf(),
            old(self).input.text().len() < usize::MAX,
        ensures
            final(self).input.wf(),
            action is NewCharacter && old(self).active ==> {
                &&& final(self).input.text() == old(self).input.text().insert(
                    old(self).input.caret_at() as int,
                    action->NewCharacter_0,
                )
                &&& final(self).input.caret_at() == old(self).input.caret_at() + 1
                &&& out@.len() == 1
                &&& out@[0] is TransmitSubmittedText
                &&& out@[0]->TransmitSubmittedText_0@ == final(self).input.text()
            },
            action is DeleteCharacter && old(self).active ==> {
                &&& out@.len() == 1
                &&& out@[0] is TransmitSubmittedText
                &&& out@[0]->TransmitSubmittedText_0@ == final(self).input.text()
            },
            (action is NewCharacter || action is DeleteCharacter) && !old(self).active ==> {
                &&& out@.len() == 0
                &&& final(self).input == old(self).input
            },
            action is FilteringTables ==> {
                &&& final(self).active
                &&& final(self).editing
                &&& out@.len() == 2
                &&& out@[0] is TransmitSubmittedText
                &&& out@[0]->TransmitSubmittedText_0@ == old(self).input.text()
                &&& out@[1] is EnterInsertMode
            },
            action is ExitInsertMode ==> {
                &&& !final(self).active
                &&& !final(self).editing
                &&& final(self).input.text().len() == 0
                &&& final(self).input.caret_at() == 0
            },
            action is SubmitText ==> {
                &&& !final(self).active
                &&& out@.len() == 2
                &&& out@[0] is ExitInsertMode
                &&& out@[1] is SelectTableMode
            },
    {
        let mut out: Vec<Action> = Vec::new();
        match action {
            Action::FilteringTables => {
                self.editing = true;
                self.active = true;
                out.push(Action::TransmitSubmittedText(self.input.to_text()));
                out.push(Action::EnterInsertMode);
            },
            Action::SelectTableMode
            | Action::SelectDataMode
            | Action::SelectingRegion
            | Action::ViewTableDataRowDetail => self.active = false,
            Action::NewCharacter(c) => {
                if self.active {
                    self.input.enter_char(*c);
                    out.push(Action::TransmitSubmittedText(self.input.to_text()));
                }
            },
            Action::DeleteCharacter => {
                if self.active {
                    self.input.delete_char();
                    out.push(Action::TransmitSubmittedText(self.input.to_text()));
                }
            },
            Action::ExitInsertMode => {
                self.editing = false;
                self.active = false;
                self.input.clear();
            },
            Action::SubmitText => {
                self.editing = false;
                self.active = false;
                out.push(Action::ExitInsertMode);
                out.push(Action::SelectTableMode);
            },
            _ => {},
        }
        out
    }
}

} // verus!
