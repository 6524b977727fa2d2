//! The SVG demo page: a vector image shown under a choice of scaling
//! modes.

use crate::page::image::ContentFit;
use vstd::prelude::*;

verus! {

/// State of the SVG page.
#[derive(Clone, Copy, Debug, PartialEq, Eq, Structural)]
pub struct Svg {
    /// The scaling mode currently selected.
    pub content_fit: ContentFit,
}

#[derive(Clone, Copy, Debug)]
pub enum Message {
    ContentFitChanged(ContentFit),
}

impl Default for Svg {
    /// The image starts contained in its space.
    fn default() -> (s: Svg)
        ensures
            s.content_fit == ContentFit::Contain,
    {
        Svg { content_fit: ContentFit::Contain }
    }
}

impl Svg {
    /// The state after applying one message: the picked scaling mode
    /// becomes the selection.
    pub open spec fn spec_update(self, message: Message) -> Svg {
        match message {
            Message::ContentFitChanged(content_fit) => Svg { content_fit },
        }
    }

    /// Applies one message to the page state.
    pub fn update(&mut self, message: Message)
        ensures
            *final(self) == old(self).spec_update(message),
    {
        match message {
            Message::ContentFitChanged(content_fit) => self.content_fit = content_fit,
        }
    }
}

} // verus!
