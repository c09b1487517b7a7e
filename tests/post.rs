use rust_book::post::{Post, Status};

#[test]
fn new_post_shows_nothing() {
    let post = Post::new();
    assert_eq!("", post.content());
}

#[test]
fn draft_hides_text() {
    let mut post = Post::new();
    post.add_text("hello");
    assert_eq!("", post.content());
}

#[test]
fn pending_review_hides_text() {
    let mut post = Post::new();
    post.add_text("hello");
    post.request_review();
    assert_eq!("", post.content());
}

#[test]
fn approved_post_shows_text() {
    let mut post = Post::new();
    post.add_text("hello");
    post.request_review();
    post.approve();
    assert_eq!("hello", post.content());
}

#[test]
fn repeated_requests_and_approvals() {
    let mut post = Post::new();
    post.add_text("I ate a salad for lunch today");
    post.request_review();
    post.request_review();
    post.approve();
    post.approve();
    assert_eq!("I ate a salad for lunch today", post.content());
}

#[test]
fn appends_keep_call_order_in_every_status() {
    let mut post = Post::new();
    post.add_text("a");
    post.request_review();
    post.add_text("b");
    post.approve();
    post.add_text("c");
    assert_eq!("abc", post.content());
}

#[test]
fn approving_a_draft_does_nothing() {
    let mut post = Post::new();
    post.add_text("hello");
    post.approve();
    assert_eq!("", post.content());
    post.request_review();
    assert_eq!("", post.content());
    post.approve();
    assert_eq!("hello", post.content());
}

#[test]
fn published_post_stays_published() {
    let mut post = Post::new();
    post.add_text("x");
    post.request_review();
    post.approve();
    post.request_review();
    assert_eq!("x", post.content());
    post.approve();
    post.request_review();
    assert_eq!("x", post.content());
}

#[test]
fn empty_text_appends_nothing() {
    let mut post = Post::new();
    post.add_text("");
    post.request_review();
    post.approve();
    assert_eq!("", post.content());
}

#[test]
fn status_transition_table() {
    assert_eq!(Status::PendingReview, Status::Draft.request_review());
    assert_eq!(Status::PendingReview, Status::PendingReview.request_review());
    assert_eq!(Status::Published, Status::Published.request_review());
    assert_eq!(Status::Draft, Status::Draft.approve());
    assert_eq!(Status::Published, Status::PendingReview.approve());
    assert_eq!(Status::Published, Status::Published.approve());
}

#[test]
fn status_visibility() {
    assert_eq!("", Status::Draft.content("text"));
    assert_eq!("", Status::PendingReview.content("text"));
    assert_eq!("text", Status::Published.content("text"));
}
