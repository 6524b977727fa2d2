//! The checkbox demo page: a plain two-state checkbox, a three-state
//! checkbox, and a "select all" group whose parent box summarises three
//! child options.

use crate::widget::checkbox::ThreeState;
use vstd::prelude::*;

verus! {

/// State of the checkbox page.
#[derive(Clone, Copy, Debug, PartialEq)]
pub struct Checkbox {
    /// The two-state checkbox; `None` until it is first toggled.
    pub checkbox1_checked: Option<bool>,
    /// The three-state checkbox; `None` until it is first toggled.
    pub checkbox2_state: Option<ThreeState>,
    /// The "select all" parent box, summarising the three options below.
    pub group_parent_state: ThreeState,
    pub group_option1_checked: bool,
    pub group_option2_checked: bool,
    pub group_option3_checked: bool,
}

#[derive(Clone, Copy, Debug)]
pub enum Message {
    Checkbox1Toggled(bool),
    Checkbox2Toggled,
    CheckboxParentToggled,
    Option1Toggled(bool),
    Option2Toggled(bool),
    Option3Toggled(bool),
}

impl Default for Checkbox {
    /// The untouched page: nothing toggled yet, and only the second group
    /// option checked, so the parent box starts indeterminate.
    fn default() -> (c: Checkbox)
        ensures
            c == (Checkbox {
                checkbox1_checked: Option::<bool>::None,
                checkbox2_state: Option::<ThreeState>::None,
                group_parent_state: ThreeState::Indeterminate,
                group_option1_checked: false,
                group_option2_checked: true,
                group_option3_checked: false,
            }),
            c.group_parent_state == parent_state_of(
                c.group_option1_checked,
                c.group_option2_checked,
                c.group_option3_checked,
            ),
    {
        Checkbox {
            checkbox1_checked: None,
            checkbox2_state: None,
            group_parent_state: ThreeState::Indeterminate,
            group_option1_checked: false,
            group_option2_checked: true,
            group_option3_checked: false,
        }
    }
}

/// The parent box of the group: checked when every option is checked,
/// unchecked when none is, indeterminate otherwise.
pub open spec fn parent_state_of(o1: bool, o2: bool, o3: bool) -> ThreeState {
    if o1 && o2 && o3 {
        ThreeState::Checked
    } else if !o1 && !o2 && !o3 {
        ThreeState::Unchecked
    } else {
        ThreeState::Indeterminate
    }
}

impl Checkbox {
    /// The state after applying one message.
    ///
    /// The two-state box takes the value the widget reports. The
    /// three-state box starts its rotation at Checked and then follows
    /// the fixed rotation. Toggling the parent box checks every option
    /// unless all were already checked or some were (parent Checked or
    /// Indeterminate), in which case it clears them all. Toggling one
    /// option recomputes the parent summary.
    pub open spec fn spec_update(self, message: Message) -> Checkbox {
        match message {
            Message::Checkbox1Toggled(checked) => Checkbox {
                checkbox1_checked: Some(checked),
                ..self
            },
            Message::Checkbox2Toggled => Checkbox {
                checkbox2_state: Some(match self.checkbox2_state {
                    Option::None => ThreeState::Checked,
                    Option::Some(state) => state.spec_toggle(),
                }),
                ..self
            },
            Message::CheckboxParentToggled => {
                let group_checked = self.group_parent_state is Unchecked;
                Checkbox {
                    group_parent_state: if group_checked {
                        ThreeState::Checked
                    } else {
                        ThreeState::Unchecked
                    },
                    group_option1_checked: group_checked,
                    group_option2_checked: group_checked,
                    group_option3_checked: group_checked,
                    ..self
                }
            },
            Message::Option1Toggled(checked) => Checkbox {
                group_option1_checked: checked,
                group_parent_state: parent_state_of(
                    checked,
                    self.group_option2_checked,
                    self.group_option3_checked,
                ),
                ..self
            },
            Message::Option2Toggled(checked) => Checkbox {
                group_option2_checked: checked,
                group_parent_state: parent_state_of(
                    self.group_option1_checked,
                    checked,
                    self.group_option3_checked,
                ),
                ..self
            },
            Message::Option3Toggled(checked) => Checkbox {
                group_option3_checked: checked,
                group_parent_state: parent_state_of(
                    self.group_option1_checked,
                    self.group_option2_checked,
                    checked,
                ),
                ..self
            },
        }
    }

    /// Recomputes the parent summary box from the three options.
    fn group_parent_update(&mut self)
        ensures
            *final(self) == (Checkbox {
                group_parent_state: parent_state_of(
                    old(self).group_option1_checked,
                    old(self).group_option2_checked,
                    old(self).group_option3_checked,
                ),
                ..*old(self)
            }),
    {
        if self.group_option1_checked && self.group_option2_checked && self.group_option3_checked {
            self.group_parent_state = ThreeState::Checked;
        } else if !self.group_option1_checked && !self.group_option2_checked
            && !self.group_option3_checked {
            self.group_parent_state = ThreeState::Unchecked;
        } else {
            self.group_parent_state = ThreeState::Indeterminate;
        }
    }

    /// Applies one message to the page state.
    pub fn update(&mut self, message: Message)
        ensures
            *final(self) == old(self).spec_update(message),
    {
        match message {
            Message::Checkbox1Toggled(checked) => self.checkbox1_checked = Some(checked),
            Message::Checkbox2Toggled => {
                match self.checkbox2_state {
                    Option::None => self.checkbox2_state = Some(ThreeState::Checked),
                    Option::Some(state) => {
                        let mut state = state;
                        let next = state.toggle();
                        self.checkbox2_state = Some(next);
                    }
                }
            },
            Message::CheckboxParentToggled => {
                let group_checked = match self.group_parent_state {
                    ThreeState::Checked | ThreeState::Indeterminate => false,
                    ThreeState::Unchecked => true,
                };
                self.group_parent_state = if group_checked {
                    ThreeState::Checked
                } else {
                    ThreeState::Unchecked
                };
                self.group_option1_checked = group_checked;
                self.group_option2_checked = group_checked;
                self.group_option3_checked = group_checked;
            },
            Message::Option1Toggled(checked) => {
                self.group_option1_checked = checked;
                self.group_parent_update();
            },
            Message::Option2Toggled(checked) => {
                self.group_option2_checked = checked;
                self.group_parent_update();
            },
            Message::Option3Toggled(checked) => {
                self.group_option3_checked = checked;
                self.group_parent_update();
            },
        }
    }
}

/// Toggling the two-state checkbox always yields the complement of the
/// state it showed: the box shows `shown` (an untouched box shows
/// unchecked), its toggle reports the complement, and the page stores
/// exactly that complement as the new state.
pub proof fn lemma_two_state_toggle_complement(s: Checkbox, shown: bool)
    requires
        shown == match s.checkbox1_checked {
            Option::Some(checked) => checked,
            Option::None => false,
        },
    ensures
        s.spec_update(Message::Checkbox1Toggled(!shown)).checkbox1_checked == Some(!shown),
{
}

/// After any message, the parent summary box agrees with the three
/// options whenever it did before: the group invariant is preserved.
pub proof fn lemma_group_invariant(s: Checkbox, message: Message)
    requires
        s.group_parent_state == parent_state_of(
            s.group_option1_checked,
            s.group_option2_checked,
            s.group_option3_checked,
        ),
    ensures
        ({
            let t = s.spec_update(message);
            t.group_parent_state == parent_state_of(
                t.group_option1_checked,
                t.group_option2_checked,
                t.group_option3_checked,
            )
        }),
{
}

} // verus!
