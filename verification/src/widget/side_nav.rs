//! The navigation rail's display modes and the rules that pick between
//! them.

use vstd::prelude::*;

verus! {

/// How the navigation rail is shown: icons only, or icons with labels.
#[derive(Clone, Copy, Debug, PartialEq, Eq, Structural)]
pub enum DisplayMode {
    Compact,
    Full,
}

impl DisplayMode {
    /// The other display mode: toggling swaps Compact and Full.
    pub fn toggled(&self) -> (mode: DisplayMode)
        ensures
            mode == (match *self {
                DisplayMode::Compact => DisplayMode::Full,
                DisplayMode::Full => DisplayMode::Compact,
            }),
            mode != *self,
    {
        match *self {
            DisplayMode::Compact => DisplayMode::Full,
            DisplayMode::Full => DisplayMode::Compact,
        }
    }
}

/// The display mode the rail actually uses: the full rail is shown only
/// when it is chosen and the window is strictly wider than the compact
/// threshold; otherwise the rail falls back to the compact rail.
pub open spec fn spec_effective_display_mode(mode: DisplayMode, window_width: u32) -> DisplayMode {
    if mode == DisplayMode::Full && window_width > crate::gallery::SIDE_NAV_COMPACT_WIDTH {
        DisplayMode::Full
    } else {
        DisplayMode::Compact
    }
}

/// Picks the display mode the rail actually uses for a window width.
pub fn effective_display_mode(mode: DisplayMode, window_width: u32) -> (effective: DisplayMode)
    ensures
        effective == spec_effective_display_mode(mode, window_width),
{
    if mode == DisplayMode::Full && window_width > crate::gallery::SIDE_NAV_COMPACT_WIDTH {
        DisplayMode::Full
    } else {
        DisplayMode::Compact
    }
}

} // verus!
