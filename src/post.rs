//! A blog post whose text is hidden from readers until it has been reviewed
//! and approved.
//!
//! The post is always in exactly one [`Status`]. A transition consumes the
//! current status by value and yields the next one; the post then stores the
//! result, so it never holds a missing or half-updated status.
use vstd::prelude::*;

verus! {

/// Where a post stands in its review workflow.
#[derive(Clone, Copy, Debug, PartialEq, Eq, Structural)]
pub enum Status {
    Draft,
    PendingReview,
    Published,
}

/// The status that follows `s` when a review is requested.
pub open spec fn after_review(s: Status) -> Status {
    match s {
        Status::Draft => Status::PendingReview,
        Status::PendingReview => Status::PendingReview,
        Status::Published => Status::Published,
    }
}

/// The status that follows `s` when the post is approved.
pub open spec fn after_approval(s: Status) -> Status {
    match s {
        Status::Draft => Status::Draft,
        Status::PendingReview => Status::Published,
        Status::Published => Status::Published,
    }
}

impl Status {
    /// Consumes this status and returns the one that follows a review request.
    pub fn request_review(self) -> (r: Status)
        ensures
            r == after_review(self),
    {
        match self {
            Status::Draft => Status::PendingReview,
            Status::PendingReview => self,
            Status::Published => self,
        }
    }

    /// Consumes this status and returns the one that follows an approval.
    pub fn approve(self) -> (r: Status)
        ensures
            r == after_approval(self),
    {
        match self {
            Status::Draft => self,
            Status::PendingReview => Status::Published,
            Status::Published => self,
        }
    }

    /// The part of `text` that a reader may see while the post has this
    /// status: all of it once published, nothing before.
    pub fn content<'a>(&self, text: &'a str) -> (r: &'a str)
        ensures
            r@ == (if *self == Status::Published { text@ } else { Seq::empty() }),
    {
        match self {
            Status::Published => text,
            _ => {
                proof {
                    reveal_strlit("");
                }
                ""
            },
        }
    }
}


/// A request made to a post's workflow.
#[derive(Clone, Copy, Debug, PartialEq, Eq, Structural)]
pub enum Action {
    RequestReview,
    Approve,
}

/// The abstract value of a [`Post`]: its status and its whole text.
pub struct PostView {
    pub status: Status,
    pub content: Seq<char>,
}

impl PostView {
    /// What a reader sees: the whole text once published, nothing before.
    pub open spec fn visible(self) -> Seq<char> {
        if self.status == Status::Published {
            self.content
        } else {
            Seq::empty()
        }
    }

    /// The post after `text` has been added at the end of its content.
    pub open spec fn appended(self, text: Seq<char>) -> PostView {
        PostView { status: self.status, content: self.content + text }
    }

    /// The post after each text of `texts` has been added, in order.
    pub open spec fn appended_all(self, texts: Seq<Seq<char>>) -> PostView
        decreases texts.len(),
    {
        if texts.len() == 0 {
            self
        } else {
            self.appended(texts[0]).appended_all(texts.drop_first())
        }
    }

    /// The post after one workflow request; the text is left alone.
    pub open spec fn apply(self, a: Action) -> PostView {
        let status = match a {
            Action::RequestReview => after_review(self.status),
            Action::Approve => after_approval(self.status),
        };
        PostView { status, content: self.content }
    }

    /// The post after the requests of `acts`, in order.
    pub open spec fn run(self, acts: Seq<Action>) -> PostView
        decreases acts.len(),
    {
        if acts.len() == 0 {
            self
        } else {
            self.apply(acts[0]).run(acts.drop_first())
        }
    }
}

/// A blog post: text that is written as a draft, sent for review, and shown
/// to readers only once approved.
pub struct Post {
    state: Status,
    content: String,
}

impl View for Post {
    type V = PostView;

    closed spec fn view(&self) -> PostView {
        PostView { status: self.state, content: self.content@ }
    }
}

impl Post {
    /// A new post: an empty draft.
    pub fn new() -> (r: Post)
        ensures
            r@.status == Status::Draft,
            r@.content == Seq::<char>::empty(),
            r@.visible() == Seq::<char>::empty(),
    {
        Post { state: Status::Draft, content: String::new() }
    }

    /// Adds `text` at the end of the post's content, whatever its status.
    pub fn add_text(&mut self, text: &str)
        ensures
            final(self)@ == old(self)@.appended(text@),
    {
        self.content.append(text);
    }

    /// Approves the post: a post pending review becomes published; a draft
    /// or a published post stays as it is.
    pub fn approve(&mut self)
        ensures
            final(self)@ == old(self)@.apply(Action::Approve),
    {
        self.state = self.state.approve();
    }

    /// The text that readers may see: the whole content once published, and
    /// the empty string before.
    pub fn content(&self) -> (r: &str)
        ensures
            r@ == self@.visible(),
    {
        self.state.content(self.content.as_str())
    }

    /// Sends the post for review: a draft becomes pending review; otherwise
    /// the post stays as it is.
    pub fn request_review(&mut self)
        ensures
            final(self)@ == old(self)@.apply(Action::RequestReview),
    {
        self.state = self.state.request_review();
    }
}


/// Adding texts one after another leaves the status alone and makes the
/// content the old content followed by the texts, in the order they came.
pub proof fn appends_concatenate(v: PostView, texts: Seq<Seq<char>>)
    ensures
        v.appended_all(texts).status == v.status,
        v.appended_all(texts).content == v.content + texts.flatten(),
    decreases texts.len(),
{
    if texts.len() > 0 {
        let w = v.appended(texts[0]);
        appends_concatenate(w, texts.drop_first());
        assert(w.content + texts.drop_first().flatten() =~= v.content + texts.flatten());
    }
}

/// Once a post is pending review, any number of further review requests
/// leave it pending review, with its text unchanged.
pub proof fn review_request_is_idempotent(v: PostView, acts: Seq<Action>)
    requires
        v.status == Status::PendingReview,
        forall|i: int| 0 <= i < acts.len() ==> acts[i] == Action::RequestReview,
    ensures
        v.run(acts) == v,
    decreases acts.len(),
{
    if acts.len() > 0 {
        review_request_is_idempotent(v.apply(acts[0]), acts.drop_first());
    }
}

/// Approval changes the status exactly when the post is pending review;
/// a draft or a published post is left as it is.
pub proof fn approval_changes_only_pending(v: PostView)
    ensures
        v.apply(Action::Approve).status != v.status <==> v.status == Status::PendingReview,
        v.status != Status::PendingReview ==> v.apply(Action::Approve) == v,
{
}

/// Once published, a post stays published under any sequence of review
/// requests and approvals, and readers keep seeing its whole text.
pub proof fn published_is_final(v: PostView, acts: Seq<Action>)
    requires
        v.status == Status::Published,
    ensures
        v.run(acts) == v,
        v.run(acts).visible() == v.content,
    decreases acts.len(),
{
    if acts.len() > 0 {
        published_is_final(v.apply(acts[0]), acts.drop_first());
    }
}

} // verus!
