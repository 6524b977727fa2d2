//! The toggle-button demo page: a button that flips between on and off,
//! plus a checkbox that disables it.

use vstd::prelude::*;

verus! {

/// State of the toggle-button page.
#[derive(Clone, Copy, Debug, PartialEq, Eq, Structural)]
pub struct ToggleButton {
    /// Whether the toggle button is currently on.
    pub button1_on: bool,
    /// Whether the toggle button reacts to presses.
    pub button1_enabled: bool,
}

#[derive(Clone, Copy, Debug)]
pub enum Message {
    Button1Toggled,
    Button1EnabledToggled(bool),
}

impl Default for ToggleButton {
    /// The button starts off and enabled.
    fn default() -> (t: ToggleButton)
        ensures
            t == (ToggleButton { button1_on: false, button1_enabled: true }),
    {
        ToggleButton { button1_on: false, button1_enabled: true }
    }
}

impl ToggleButton {
    /// The state after applying one message: a press flips the on/off
    /// state, and the "disable" checkbox enables the button exactly when
    /// it is unchecked.
    pub open spec fn spec_update(self, message: Message) -> ToggleButton {
        match message {
            Message::Button1Toggled => ToggleButton { button1_on: !self.button1_on, ..self },
            Message::Button1EnabledToggled(checked) => ToggleButton {
                button1_enabled: !checked,
                ..self
            },
        }
    }

    /// Applies one message to the page state.
    pub fn update(&mut self, message: Message)
        ensures
            *final(self) == old(self).spec_update(message),
    {
        match message {
            Message::Button1Toggled => self.button1_on = !self.button1_on,
            Message::Button1EnabledToggled(checked) => self.button1_enabled = !checked,
        }
    }
}

/// Toggling a two-state control always yields the complement of its
/// previous boolean state, whatever that state was.
pub proof fn lemma_toggle_complement(s: ToggleButton)
    ensures
        s.spec_update(Message::Button1Toggled).button1_on == !s.button1_on,
        s.spec_update(Message::Button1Toggled).button1_enabled == s.button1_enabled,
{
}

} // verus!
