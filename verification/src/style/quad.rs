//! The interaction statuses of the decorative quad widget.

use vstd::prelude::*;

verus! {

/// The two interaction statuses a quad's style callback distinguishes.
#[derive(Clone, Copy, Debug, PartialEq, Eq, Structural)]
pub enum Status {
    Active,
    Hovered,
}

} // verus!
