//! A post that can be written and sent for review but has no way to be
//! published, so readers never see its text.
use vstd::prelude::*;

verus! {

/// Where an unpublished post stands.
#[derive(Clone, Copy, Debug, PartialEq, Eq, Structural)]
pub enum Stage {
    Draft,
    PendingReview,
}

impl Stage {
    /// Consumes this stage and returns the one that follows a review request.
    pub fn request_review(self) -> (r: Stage)
        ensures
            r == Stage::PendingReview,
    {
        match self {
            Stage::Draft => Stage::PendingReview,
            Stage::PendingReview => self,
        }
    }
}

/// A post whose text is kept from readers in every stage.
pub struct Post {
    state: Stage,
    content: String,
}

impl View for Post {
    /// The stage and the whole text.
    type V = (Stage, Seq<char>);

    closed spec fn view(&self) -> (Stage, Seq<char>) {
        (self.state, self.content@)
    }
}

impl Post {
    /// A new post: an empty draft.
    pub fn new() -> (r: Post)
        ensures
            r@ == (Stage::Draft, Seq::<char>::empty()),
    {
        Post { state: Stage::Draft, content: String::new() }
    }

    /// Adds `text` at the end of the post's content; the stage is unchanged.
    pub fn add_text(&mut self, text: &str)
        ensures
            final(self)@ == (old(self)@.0, old(self)@.1 + text@),
    {
        self.content.append(text);
    }

    /// The text that readers may see: always the empty string.
    pub fn content(&self) -> (r: &str)
        ensures
            r@ == Seq::<char>::empty(),
    {
        proof {
            reveal_strlit("");
        }
        ""
    }

    /// Sends the post for review; the text is unchanged.
    pub fn request_review(&mut self)
        ensures
            final(self)@ == (Stage::PendingReview, old(self)@.1),
    {
        self.state = self.state.request_review();
    }
}

} // verus!
