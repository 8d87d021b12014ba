//! The outbound text payload of a reply.
use vstd::prelude::*;

verus! {

/// A reply body: a single text field that can be replaced as a whole.
pub struct Message {
    content: String,
}

impl View for Message {
    type V = Seq<char>;

    closed spec fn view(&self) -> Seq<char> {
        self.content@
    }
}

impl Message {
    /// Builds a message whose content is `content`.
    pub fn new(content: &str) -> (r: Message)
        ensures
            r@ == content@,
    {
        Message { content: String::from_str(content) }
    }

    /// Builds a message that takes over `content`.
    pub fn from_string(content: String) -> (r: Message)
        ensures
            r@ == content@,
    {
        Message { content }
    }

    /// Replaces the content, consuming the old message.
    pub fn content(self, new_content: &str) -> (r: Message)
        ensures
            r@ == new_content@,
    {
        let mut m = self;
        m.content = String::from_str(new_content);
        m
    }

    /// A copy of the current content.
    pub fn get_content(&self) -> (r: String)
        ensures
            r@ == self@,
    {
        self.content.clone()
    }
}

impl Clone for Message {
    fn clone(&self) -> (r: Message)
        ensures
            r == *self,
    {
        Message { content: self.content.clone() }
    }
}

} // verus!
