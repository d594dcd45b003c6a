//! The input buffer: the line the user is composing.

use vstd::prelude::*;

verus! {

/// Holds the text being composed; it may be empty or all whitespace.
pub struct ChatInput {
    value: String,
}

impl View for ChatInput {
    type V = Seq<char>;

    closed spec fn view(&self) -> Seq<char> {
        self.value@
    }
}

impl ChatInput {
    /// An empty buffer.
    pub fn new() -> (r: Self)
        ensures
            r@ == Seq::<char>::empty(),
    {
        ChatInput { value: String::new() }
    }

    /// Replaces the content, whatever it holds.
    pub fn set_content(&mut self, text: String)
        ensures
            final(self)@ == text@,
    {
        self.value = text;
    }

    /// Empties the buffer, whatever it held.
    pub fn clear(&mut self)
        ensures
            final(self)@ == Seq::<char>::empty(),
    {
        self.value = String::new();
    }

    /// The current content.
    pub fn content(&self) -> (r: &str)
        ensures
            r@ == self@,
    {
        self.value.as_str()
    }
}

} // verus!
