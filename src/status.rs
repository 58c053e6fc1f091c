use crate::action::Action;
use vstd::prelude::*;

verus! {

/// The one-line status text shown at the bottom of the screen.
pub struct StatusBox {
    pub status_text: String,
}

impl StatusBox {
    pub fn new() -> (r: StatusBox)
        ensures
            r.status_text@ == Seq::<char>::empty(),
    {
        StatusBox { status_text: String::new() }
    }

    pub fn set_status_text(&mut self, new_status: &str)
        ensures
            final(self).status_text@ == new_status@,
    {
        self.status_text = String::from_str(new_status);
    }

    pub fn update(&mut self, action: &Action)
        ensures
            action is UpdateStatusText ==> final(self).status_text@ == action->UpdateStatusText_0@,
            !(action is UpdateStatusText) ==> final(self).status_text@ == old(self).status_text@,
    {
        if let Action::UpdateStatusText(text) = action {
            self.set_status_text(text.as_str());
        }
    }
}

} // verus!
