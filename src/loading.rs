use crate::action::Action;
use vstd::prelude::*;

verus! {

/// The busy indicator: shown with a message while a fetch runs; `ticks`
/// drives its animation.
pub struct LoadingBox {
    pub active: bool,
    pub ticks: u64,
    pub message: String,
}

impl LoadingBox {
    pub fn new() -> (r: LoadingBox)
        ensures
            !r.active,
            r.ticks == 0,
            r.message@ == "Loading..."@,
    {
        LoadingBox { active: false, ticks: 0, message: String::from_str("Loading...") }
    }

    /// Advances the animation by one frame.
    pub fn on_tick(&mut self)
        ensures
            final(self).ticks == (old(self).ticks + 1) % 0x1_0000_0000_0000_0000,
            final(self).active == old(self).active,
            final(self).message == old(self).message,
    {
        self.ticks = self.ticks.wrapping_add(1);
    }

    pub fn set_message(&mut self, message: &str)
        ensures
            final(self).message@ == message@,
            final(self).active == old(self).active,
            final(self).ticks == old(self).ticks,
    {
        self.message = String::from_str(message);
    }

    pub fn update(&mut self, action: &Action)
        ensures
            action is StartLoading ==> final(self).active && final(self).message@
                == action->StartLoading_0@,
            action is StopLoading ==> !final(self).active,
            !(action is StartLoading || action is StopLoading) ==> final(self).active
                == old(self).active,
    {
        match action {
            Action::Tick => self.on_tick(),
            Action::StartLoading(message) => {
                self.active = true;
                self.set_message(message.as_str());
            },
            Action::StopLoading => self.active = false,
            _ => {},
        }
    }
}

/// Shows the region that the store client talks to.
pub struct AWSRegionBox {
    pub active: bool,
    pub region: String,
}

impl AWSRegionBox {
    pub fn new(region: &str) -> (r: AWSRegionBox)
        ensures
            r.region@ == region@,
            !r.active,
    {
        AWSRegionBox { active: false, region: String::from_str(region) }
    }

    pub fn reset(&mut self)
        ensures
            !final(self).active,
            final(self).region == old(self).region,
    {
        self.active = false;
    }
}

} // verus!
