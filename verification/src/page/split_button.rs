//! The split-button demo page: two split buttons whose flyouts offer a
//! grid of colours; at most one flyout is open at a time.

use vstd::prelude::*;

verus! {

/// The colours the flyout grids offer. The host toolkit turns each into
/// its actual colour value when the grid is drawn.
#[derive(Clone, Copy, Debug, PartialEq, Eq, Structural)]
pub enum PaletteColour {
    Red,
    Orange,
    Yellow,
    Green,
    Blue,
    Indigo,
    Violet,
    Grey,
    Black,
}

/// Which split button's flyout is open, if any.
#[derive(Clone, Copy, Debug, Default, PartialEq, Eq, Structural)]
pub enum OpenSplitButton {
    #[default]
    Closed,
    One,
    Two,
}

/// State of the split-button page.
#[derive(Clone, Copy, Debug, PartialEq, Eq, Structural)]
pub struct SplitButton {
    /// The split button whose flyout is open, if any.
    pub open_splitbutton: OpenSplitButton,
    /// The colour picked for the first split button.
    pub colour1: PaletteColour,
    /// The colour picked for the second split button.
    pub colour2: PaletteColour,
}

#[derive(Clone, Copy, Debug)]
pub enum Message {
    SplitButton1Pressed,
    SplitButton2Pressed,
    SplitButton1Closed,
    SplitButton2Closed,
    Colour1Selected(PaletteColour),
    Colour2Selected(PaletteColour),
    NoOp,
}

impl Default for SplitButton {
    /// Both flyouts start closed and both buttons start green.
    fn default() -> (s: SplitButton)
        ensures
            s == (SplitButton {
                open_splitbutton: OpenSplitButton::Closed,
                colour1: PaletteColour::Green,
                colour2: PaletteColour::Green,
            }),
    {
        SplitButton {
            open_splitbutton: OpenSplitButton::Closed,
            colour1: PaletteColour::Green,
            colour2: PaletteColour::Green,
        }
    }
}

impl SplitButton {
    /// The state after applying one message: pressing a split button
    /// opens its flyout when everything was closed and otherwise closes
    /// whatever was open; dismissing or picking a colour closes both
    /// flyouts, and a picked colour is stored for its button.
    pub open spec fn spec_update(self, message: Message) -> SplitButton {
        match message {
            Message::SplitButton1Pressed => SplitButton {
                open_splitbutton: if self.open_splitbutton is Closed {
                    OpenSplitButton::One
                } else {
                    OpenSplitButton::Closed
                },
                ..self
            },
            Message::SplitButton2Pressed => SplitButton {
                open_splitbutton: if self.open_splitbutton is Closed {
                    OpenSplitButton::Two
                } else {
                    OpenSplitButton::Closed
                },
                ..self
            },
            Message::SplitButton1Closed => SplitButton {
                open_splitbutton: OpenSplitButton::Closed,
                ..self
            },
            Message::SplitButton2Closed => SplitButton {
                open_splitbutton: OpenSplitButton::Closed,
                ..self
            },
            Message::Colour1Selected(colour) => SplitButton {
                open_splitbutton: OpenSplitButton::Closed,
                colour1: colour,
                ..self
            },
            Message::Colour2Selected(colour) => SplitButton {
                open_splitbutton: OpenSplitButton::Closed,
                colour2: colour,
                ..self
            },
            Message::NoOp => self,
        }
    }

    /// Applies one message to the page state.
    pub fn update(&mut self, message: Message)
        ensures
            *final(self) == old(self).spec_update(message),
    {
        match message {
            Message::SplitButton1Pressed => {
                if self.open_splitbutton == OpenSplitButton::Closed {
                    self.open_splitbutton = OpenSplitButton::One;
                } else {
                    self.open_splitbutton = OpenSplitButton::Closed;
                }
            },
            Message::SplitButton2Pressed => {
                if self.open_splitbutton == OpenSplitButton::Closed {
                    self.open_splitbutton = OpenSplitButton::Two;
                } else {
                    self.open_splitbutton = OpenSplitButton::Closed;
                }
            },
            Message::SplitButton1Closed => self.open_splitbutton = OpenSplitButton::Closed,
            Message::SplitButton2Closed => self.open_splitbutton = OpenSplitButton::Closed,
            Message::Colour1Selected(colour) => {
                self.colour1 = colour;
                self.open_splitbutton = OpenSplitButton::Closed;
            },
            Message::Colour2Selected(colour) => {
                self.colour2 = colour;
                self.open_splitbutton = OpenSplitButton::Closed;
            },
            Message::NoOp => (),
        }
    }
}

/// Picking a colour always closes every flyout and never touches the
/// other button's colour.
pub proof fn lemma_pick_closes(s: SplitButton, colour: PaletteColour)
    ensures
        s.spec_update(Message::Colour1Selected(colour)).open_splitbutton is Closed,
        s.spec_update(Message::Colour1Selected(colour)).colour2 == s.colour2,
        s.spec_update(Message::Colour2Selected(colour)).open_splitbutton is Closed,
        s.spec_update(Message::Colour2Selected(colour)).colour1 == s.colour1,
{
}

} // verus!
