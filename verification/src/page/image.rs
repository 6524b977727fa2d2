//! The image demo page: a picture shown under a choice of scaling modes.

use vstd::prelude::*;

verus! {

/// How a picture is scaled into the space it is given. `Unscaled` keeps
/// the picture at its natural size.
#[derive(Clone, Copy, Debug, Default, PartialEq, Eq, Structural)]
pub enum ContentFit {
    #[default]
    Contain,
    Cover,
    Fill,
    Unscaled,
    ScaleDown,
}

/// State of the image page.
#[derive(Clone, Copy, Debug, PartialEq, Eq, Structural)]
pub struct Image {
    /// The scaling mode currently selected.
    pub content_fit: ContentFit,
}

#[derive(Clone, Copy, Debug)]
pub enum Message {
    ContentFitChanged(ContentFit),
}

impl Default for Image {
    /// The picture starts contained in its space.
    fn default() -> (i: Image)
        ensures
            i.content_fit == ContentFit::Contain,
    {
        Image { content_fit: ContentFit::Contain }
    }
}

impl Image {
    /// The state after applying one message: the picked scaling mode
    /// becomes the selection.
    pub open spec fn spec_update(self, message: Message) -> Image {
        match message {
            Message::ContentFitChanged(content_fit) => Image { content_fit },
        }
    }

    /// Applies one message to the page state.
    pub fn update(&mut self, message: Message)
        ensures
            *final(self) == old(self).spec_update(message),
    {
        match message {
            Message::ContentFitChanged(content_fit) => self.content_fit = content_fit,
        }
    }
}

} // verus!
