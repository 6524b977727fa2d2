//! The app-bar-button demo page: a single icon button.

use vstd::prelude::*;

verus! {

/// State of the app-bar-button page.
#[derive(Clone, Copy, Debug, PartialEq, Eq, Structural)]
pub struct AppBarButton {
    /// Whether the button has ever been pressed.
    pub button1_pressed: bool,
}

#[derive(Clone, Copy, Debug)]
pub enum Message {
    Button1Pressed,
}

impl Default for AppBarButton {
    /// The button starts unpressed.
    fn default() -> (a: AppBarButton)
        ensures
            !a.button1_pressed,
    {
        AppBarButton { button1_pressed: false }
    }
}

impl AppBarButton {
    /// The state after applying one message: a press latches the flag.
    pub open spec fn spec_update(self, message: Message) -> AppBarButton {
        match message {
            Message::Button1Pressed => AppBarButton { button1_pressed: true },
        }
    }

    /// Applies one message to the page state.
    pub fn update(&mut self, message: Message)
        ensures
            *final(self) == old(self).spec_update(message),
    {
        match message {
            Message::Button1Pressed => self.button1_pressed = true,
        }
    }
}

} // verus!
