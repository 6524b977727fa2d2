//! The radio demo page: a group of three mutually exclusive options.

use vstd::prelude::*;

verus! {

/// The three options of the radio group.
#[derive(Clone, Copy, Debug, PartialEq, Eq, Structural)]
pub enum Choice {
    One,
    Two,
    Three,
}

/// State of the radio page.
#[derive(Clone, Copy, Debug, PartialEq)]
pub struct Radio {
    /// The selected option; `None` until one is picked.
    pub choice: Option<Choice>,
}

#[derive(Clone, Copy, Debug)]
pub enum Message {
    ChoiceSelected(Choice),
}

impl Default for Radio {
    /// No option is selected at first.
    fn default() -> (r: Radio)
        ensures
            r.choice is None,
    {
        Radio { choice: None }
    }
}

impl Radio {
    /// The state after applying one message: the picked option becomes
    /// the selection.
    pub open spec fn spec_update(self, message: Message) -> Radio {
        match message {
            Message::ChoiceSelected(choice) => Radio { choice: Some(choice) },
        }
    }

    /// Applies one message to the page state.
    pub fn update(&mut self, message: Message)
        ensures
            *final(self) == old(self).spec_update(message),
    {
        match message {
            Message::ChoiceSelected(choice) => self.choice = Some(choice),
        }
    }
}

} // verus!
