//! The three-position state of a tri-state checkbox.

use vstd::prelude::*;

verus! {

/// The three positions of a three-state checkbox.
#[derive(Clone, Copy, Debug, PartialEq, Eq, Structural)]
pub enum ThreeState {
    Checked,
    Unchecked,
    Indeterminate,
}

impl ThreeState {
    /// The position that follows `self` in the fixed rotation
    /// Unchecked -> Checked -> Indeterminate -> Unchecked.
    pub open spec fn spec_toggle(self) -> ThreeState {
        match self {
            ThreeState::Checked => ThreeState::Indeterminate,
            ThreeState::Unchecked => ThreeState::Checked,
            ThreeState::Indeterminate => ThreeState::Unchecked,
        }
    }

    /// Returns the position that follows this one in the fixed rotation.
    /// The receiver itself is left unchanged; callers store the result.
    pub fn toggle(&mut self) -> (next: ThreeState)
        ensures
            next == old(self).spec_toggle(),
            *final(self) == *old(self),
    {
        match *self {
            ThreeState::Checked => ThreeState::Indeterminate,
            ThreeState::Unchecked => ThreeState::Checked,
            ThreeState::Indeterminate => ThreeState::Unchecked,
        }
    }
}

/// Cycling a three-state checkbox through its fixed rotation returns to
/// the starting position after exactly three toggles: three toggles are
/// the identity, and neither one nor two toggles get back to the start.
pub proof fn lemma_toggle_cycle(s: ThreeState)
    ensures
        s.spec_toggle().spec_toggle().spec_toggle() == s,
        s.spec_toggle() != s,
        s.spec_toggle().spec_toggle() != s,
{
}

} // verus!
