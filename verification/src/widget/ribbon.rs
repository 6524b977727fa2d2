//! How ribbon commands present themselves at different ribbon widths.

use vstd::prelude::*;

verus! {

/// How a ribbon command is displayed: `Top` as a large button with the
/// icon above the text, `Medium` with icon and text side by side, and
/// `Low` as a small icon-only button.
#[derive(Clone, Copy, Debug, PartialEq, Eq, Structural)]
pub enum PresentationPriority {
    Top,
    Medium,
    Low,
}

} // verus!
