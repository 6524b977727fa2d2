//! The row/column demo page: four coloured squares laid out either
//! horizontally or vertically.

use vstd::prelude::*;

verus! {

/// The two layout directions the page can show.
#[derive(Clone, Copy, Debug, PartialEq, Eq, Structural)]
pub enum Orientation {
    Row,
    Column,
}

impl Default for Orientation {
    /// The page starts with the vertical layout.
    fn default() -> (o: Orientation)
        ensures
            o == Orientation::Column,
    {
        Orientation::Column
    }
}

/// State of the row/column page.
#[derive(Clone, Copy, Debug, PartialEq, Eq, Structural)]
pub struct RowColumn {
    /// The direction currently selected.
    pub orientation: Orientation,
}

#[derive(Clone, Copy, Debug)]
pub enum Message {
    OrientationSelected(Orientation),
}

impl Default for RowColumn {
    /// The page starts with the vertical layout.
    fn default() -> (r: RowColumn)
        ensures
            r.orientation == Orientation::Column,
    {
        RowColumn { orientation: Orientation::Column }
    }
}

impl RowColumn {
    /// The state after applying one message: the picked direction becomes
    /// the selection, so exactly one direction is ever active.
    pub open spec fn spec_update(self, message: Message) -> RowColumn {
        match message {
            Message::OrientationSelected(orientation) => RowColumn { orientation },
        }
    }

    /// Applies one message to the page state.
    pub fn update(&mut self, message: Message)
        ensures
            *final(self) == old(self).spec_update(message),
    {
        match message {
            Message::OrientationSelected(orientation) => self.orientation = orientation,
        }
    }
}

} // verus!
