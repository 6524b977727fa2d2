//! The toggler demo page: a single on/off switch.

use vstd::prelude::*;

verus! {

/// State of the toggler page.
#[derive(Clone, Copy, Debug, PartialEq, Eq, Structural)]
pub struct Toggler {
    /// Whether the switch is on.
    pub is_toggled: bool,
}

#[derive(Clone, Copy, Debug)]
pub enum Message {
    Toggled(bool),
}

impl Default for Toggler {
    /// The switch starts off.
    fn default() -> (t: Toggler)
        ensures
            !t.is_toggled,
    {
        Toggler { is_toggled: false }
    }
}

impl Toggler {
    /// The state after applying one message: the switch takes the value
    /// the toggler widget reports.
    pub open spec fn spec_update(self, message: Message) -> Toggler {
        match message {
            Message::Toggled(toggled) => Toggler { is_toggled: toggled },
        }
    }

    /// Applies one message to the page state.
    pub fn update(&mut self, message: Message)
        ensures
            *final(self) == old(self).spec_update(message),
    {
        match message {
            Message::Toggled(toggled) => self.is_toggled = toggled,
        }
    }
}

} // verus!
