//! A blog post that starts as an empty draft and accumulates text.

use vstd::prelude::*;

verus! {

/// The behavior shared by the states a post can be in; a fresh post starts
/// as a draft.
trait State {

}

struct Draft {}

impl State for Draft {

}

/// A post: its current state and the text added so far.
pub struct Post {
    state: Option<Box<dyn State>>,
    content: String,
}

impl Post {
    /// The text added to the post so far.
    pub closed spec fn content_spec(&self) -> Seq<char> {
        self.content@
    }

    /// Creates an empty draft post.
    pub fn new() -> (p: Post)
        ensures
            p.content_spec() == Seq::<char>::empty(),
    {
        Post { state: Some(Box::new(Draft {  })), content: String::new() }
    }

    /// Appends text to the post's content.
    pub fn add_text(&mut self, text: &str)
        ensures
            final(self).content_spec() == old(self).content_spec() + text@,
    {
        self.content.append(text);
    }

    /// The text added so far.
    pub fn content(&self) -> (r: &str)
        ensures
            r@ == self.content_spec(),
    {
        self.content.as_str()
    }
}

} // verus!
