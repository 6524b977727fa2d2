//! The dialog demo page: a button opens a modal dialog, whose three
//! buttons close it again, each recording a different outcome.

use vstd::prelude::*;

verus! {

/// State of the dialog page.
#[derive(Clone, Copy, Debug, PartialEq, Eq, Structural)]
pub struct Dialog {
    /// The "upload to the cloud" checkbox inside the dialog.
    pub is_checked: bool,
    /// The outcome of the last time the dialog was closed.
    pub action: Action,
    /// Whether the modal dialog is currently shown.
    pub dialog_open: bool,
}

/// How the dialog was last closed. `NoAction` means it has not been
/// closed yet.
#[derive(Clone, Copy, Debug, Default, PartialEq, Eq, Structural)]
pub enum Action {
    #[default]
    NoAction,
    Saved,
    NotSaved,
    Cancelled,
}

#[derive(Clone, Copy, Debug)]
pub enum Message {
    Opened,
    Toggled(bool),
    Action(Action),
}

impl Default for Dialog {
    /// The dialog starts closed, with the checkbox clear and no
    /// outcome recorded.
    fn default() -> (d: Dialog)
        ensures
            d == (Dialog { is_checked: false, action: Action::NoAction, dialog_open: false }),
    {
        Dialog { is_checked: false, action: Action::NoAction, dialog_open: false }
    }
}

impl Dialog {
    /// Whether the modal dialog is currently shown.
    pub fn is_dialog_open(&self) -> (open: bool)
        ensures
            open == self.dialog_open,
    {
        self.dialog_open
    }

    /// The state after applying one message: opening shows the dialog,
    /// toggling sets the checkbox, and any dialog action records the
    /// outcome and closes the dialog.
    pub open spec fn spec_update(self, message: Message) -> Dialog {
        match message {
            Message::Opened => Dialog { dialog_open: true, ..self },
            Message::Toggled(toggled) => Dialog { is_checked: toggled, ..self },
            Message::Action(action) => Dialog { action, dialog_open: false, ..self },
        }
    }

    /// Applies one message to the page state.
    pub fn update(&mut self, message: Message)
        ensures
            *final(self) == old(self).spec_update(message),
    {
        match message {
            Message::Opened => self.dialog_open = true,
            Message::Toggled(toggled) => self.is_checked = toggled,
            Message::Action(action) => {
                self.action = action;
                self.dialog_open = false;
            }
        }
    }
}

/// Every dialog action closes the dialog and records that action,
/// whatever the dialog showed before.
pub proof fn lemma_action_closes(s: Dialog, action: Action)
    ensures
        !s.spec_update(Message::Action(action)).dialog_open,
        s.spec_update(Message::Action(action)).action == action,
{
}

} // verus!
