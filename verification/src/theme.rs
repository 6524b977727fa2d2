//! The colour theme selected for the whole application.

use vstd::prelude::*;

verus! {

/// The two colour themes the gallery offers. Each selects a fixed palette
/// of colours; the palettes themselves are a rendering concern and live
/// with the host toolkit.
#[derive(Clone, Copy, Debug, PartialEq, Eq, Structural)]
pub enum Theme {
    Light,
    Dark,
}

impl Default for Theme {
    /// The gallery starts in the dark theme.
    fn default() -> (t: Theme)
        ensures
            t == Theme::Dark,
    {
        Theme::Dark
    }
}

impl Theme {
    /// The other theme: toggling swaps Light and Dark.
    pub fn toggled(&self) -> (t: Theme)
        ensures
            t == (match *self {
                Theme::Light => Theme::Dark,
                Theme::Dark => Theme::Light,
            }),
            t != *self,
    {
        match *self {
            Theme::Light => Theme::Dark,
            Theme::Dark => Theme::Light,
        }
    }
}

} // verus!
