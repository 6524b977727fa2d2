//! The text-input demo page: two editable text fields.

use vstd::prelude::*;

verus! {

/// State of the text-input page.
#[derive(Clone, Debug, PartialEq)]
pub struct TextInput {
    /// The contents of the first text field.
    pub text_input1_content: String,
    /// The contents of the second text field.
    pub text_input2_content: String,
}

#[derive(Clone, Debug)]
pub enum Message {
    TextInput1ContentChanged(String),
    TextInput2ContentChanged(String),
    NoOp,
}

impl Default for TextInput {
    /// Both text fields start empty.
    fn default() -> (t: TextInput)
        ensures
            t.text_input1_content@ == Seq::<char>::empty(),
            t.text_input2_content@ == Seq::<char>::empty(),
    {
        TextInput { text_input1_content: String::new(), text_input2_content: String::new() }
    }
}

impl TextInput {
    /// The state after applying one message: each field takes the text
    /// the widget reports for it, and the other field is untouched.
    pub open spec fn spec_update(self, message: Message) -> TextInput {
        match message {
            Message::TextInput1ContentChanged(content) => TextInput {
                text_input1_content: content,
                ..self
            },
            Message::TextInput2ContentChanged(content) => TextInput {
                text_input2_content: content,
                ..self
            },
            Message::NoOp => self,
        }
    }

    /// Applies one message to the page state.
    pub fn update(&mut self, message: Message)
        ensures
            *final(self) == old(self).spec_update(message),
    {
        match message {
            Message::TextInput1ContentChanged(content) => self.text_input1_content = content,
            Message::TextInput2ContentChanged(content) => self.text_input2_content = content,
            Message::NoOp => (),
        }
    }
}

} // verus!
