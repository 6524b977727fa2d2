//! The drop-down-button demo page: two buttons that each open a floating
//! overlay of menu entries; at most one overlay is open at a time.

use vstd::prelude::*;

verus! {

/// Which of the two drop-down buttons a message refers to.
#[derive(Clone, Copy, Debug, PartialEq, Eq, Structural)]
pub enum OpenButton {
    Simple,
    Icon,
}

/// State of the drop-down-button page.
#[derive(Clone, Copy, Debug, PartialEq)]
pub struct DropDownButton {
    /// The drop-down whose overlay is open, if any.
    pub current_open: Option<OpenButton>,
}

#[derive(Clone, Copy, Debug)]
pub enum Message {
    DropDownPressed(OpenButton),
    DropDownDismissed,
}

impl Default for DropDownButton {
    /// Both overlays start closed.
    fn default() -> (d: DropDownButton)
        ensures
            d.current_open is None,
    {
        DropDownButton { current_open: None }
    }
}

impl DropDownButton {
    /// The state after applying one message: pressing a drop-down opens
    /// it when everything was closed and otherwise closes whatever was
    /// open; a dismissal closes everything.
    pub open spec fn spec_update(self, message: Message) -> DropDownButton {
        match message {
            Message::DropDownPressed(button) => DropDownButton {
                current_open: match self.current_open {
                    Option::None => Some(button),
                    Option::Some(_) => None,
                },
            },
            Message::DropDownDismissed => DropDownButton { current_open: None },
        }
    }

    /// Applies one message to the page state.
    pub fn update(&mut self, message: Message)
        ensures
            *final(self) == old(self).spec_update(message),
    {
        match message {
            Message::DropDownPressed(button) => {
                match self.current_open {
                    Option::None => self.current_open = Some(button),
                    Option::Some(_) => self.current_open = None,
                }
            },
            Message::DropDownDismissed => self.current_open = None,
        }
    }

    /// Whether the given drop-down's overlay is the open one.
    pub fn is_open(&self, button: OpenButton) -> (open: bool)
        ensures
            open == (self.current_open == Some(button)),
    {
        match &self.current_open {
            Some(open_button) => *open_button == button,
            None => false,
        }
    }
}

} // verus!
