//! Summaries of content, with a default one-line form built from the
//! author's name.

use vstd::prelude::*;

verus! {

/// Content that can name its author and summarize itself. The default
/// summary points the reader at the author.
pub trait Summary {
    /// The author name the implementation reports.
    spec fn author_spec(&self) -> Seq<char>;

    /// The author of the content.
    fn summarize_author(&self) -> (r: String)
        ensures
            r@ == self.author_spec(),
    ;

    /// A one-line summary of the content.
    fn summarize(&self) -> (r: String)
        ensures
            r@ == "(Read more from "@ + self.author_spec() + "...)"@,
    {
        String::from_str("(Read more from ").concat(self.summarize_author().as_str()).concat("...)")
    }
}

/// One tweet: its author, its text, and whether it replies to or repeats
/// another tweet.
pub struct Tweet {
    pub username: String,
    pub content: String,
    pub reply: bool,
    pub retweet: bool,
}

impl Summary for Tweet {
    open spec fn author_spec(&self) -> Seq<char> {
        "@"@ + self.username@
    }

    fn summarize_author(&self) -> (r: String)
        ensures
            r@ == self.author_spec(),
    {
        String::from_str("@").concat(self.username.as_str())
    }
}

} // verus!
