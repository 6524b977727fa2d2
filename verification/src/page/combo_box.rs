//! The combo-box demo page: a pick list of colours and an editable
//! combo box of font sizes.

use vstd::prelude::*;

verus! {

/// The colours the pick list offers.
#[derive(Clone, Copy, Debug, PartialEq, Eq, Structural)]
pub enum Colour {
    Blue,
    Green,
    Red,
    Yellow,
}

/// State of the combo-box page.
#[derive(Clone, Debug, PartialEq)]
pub struct ComboBox {
    /// The colour picked in the pick list; `None` until one is picked.
    pub selected_colour: Option<Colour>,
    /// The font sizes the combo box offers.
    pub font_sizes: Vec<u16>,
    /// The font size currently chosen.
    pub selected_font_size: u16,
}

#[derive(Clone, Copy, Debug)]
pub enum Message {
    ColourSelected(Colour),
    FontSizeSelected(u16),
}

/// The fixed list of font sizes the combo box offers.
pub open spec fn spec_font_sizes() -> Seq<u16> {
    seq![8u16, 9u16, 10u16, 11u16, 12u16, 14u16, 16u16, 18u16, 20u16, 24u16, 28u16, 36u16, 48u16, 72u16]
}

impl Default for ComboBox {
    /// No colour picked yet; font size 10 chosen from the fixed list.
    fn default() -> (c: ComboBox)
        ensures
            c.selected_colour is None,
            c.font_sizes@ == spec_font_sizes(),
            c.selected_font_size == 10,
    {
        let font_sizes: Vec<u16> = vec![8, 9, 10, 11, 12, 14, 16, 18, 20, 24, 28, 36, 48, 72];
        proof {
            assert(font_sizes@ =~= spec_font_sizes());
        }
        ComboBox { selected_colour: None, font_sizes, selected_font_size: 10 }
    }
}

impl ComboBox {
    /// The state after applying one message: the picked colour or font
    /// size becomes the selection; the offered list never changes.
    pub open spec fn spec_update(self, message: Message) -> ComboBox {
        match message {
            Message::ColourSelected(colour) => ComboBox { selected_colour: Some(colour), ..self },
            Message::FontSizeSelected(size) => ComboBox { selected_font_size: size, ..self },
        }
    }

    /// Applies one message to the page state.
    pub fn update(&mut self, message: Message)
        ensures
            *final(self) == old(self).spec_update(message),
    {
        match message {
            Message::ColourSelected(colour) => self.selected_colour = Some(colour),
            Message::FontSizeSelected(size) => self.selected_font_size = size,
        }
    }
}

} // verus!
