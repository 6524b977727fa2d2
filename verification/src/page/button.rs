//! The button demo page: two press-counters and a checkbox that disables
//! the first button.

use vstd::prelude::*;

verus! {

/// State of the button page.
#[derive(Clone, Copy, Debug, PartialEq, Eq, Structural)]
pub struct Button {
    /// Whether the first button has ever been pressed.
    pub button1_pressed: bool,
    /// Whether the first button reacts to presses.
    pub button1_enabled: bool,
    /// Whether the second button has ever been pressed.
    pub button2_pressed: bool,
}

#[derive(Clone, Copy, Debug)]
pub enum Message {
    Button1Pressed,
    Button1EnabledToggled(bool),
    Button2Pressed,
}

impl Default for Button {
    /// Both buttons start unpressed; the first starts enabled.
    fn default() -> (b: Button)
        ensures
            b == (Button {
                button1_pressed: false,
                button1_enabled: true,
                button2_pressed: false,
            }),
    {
        Button {
            button1_pressed: false,
            button1_enabled: true,
            button2_pressed: false,
        }
    }
}

impl Button {
    /// The state after applying one message: a press latches the matching
    /// flag, and the "disable" checkbox enables the first button exactly
    /// when it is unchecked.
    pub open spec fn spec_update(self, message: Message) -> Button {
        match message {
            Message::Button1Pressed => Button { button1_pressed: true, ..self },
            Message::Button1EnabledToggled(checked) => Button {
                button1_enabled: !checked,
                ..self
            },
            Message::Button2Pressed => Button { button2_pressed: true, ..self },
        }
    }

    /// Applies one message to the page state.
    pub fn update(&mut self, message: Message)
        ensures
            *final(self) == old(self).spec_update(message),
    {
        match message {
            Message::Button1Pressed => self.button1_pressed = true,
            Message::Button1EnabledToggled(checked) => self.button1_enabled = !checked,
            Message::Button2Pressed => self.button2_pressed = true,
        }
    }
}

} // verus!
