use rust_book::unpublished::{Post, Stage};

#[test]
fn unpublished_post_never_shows_text() {
    let mut post = Post::new();
    post.add_text("I ate a salad for lunch today");
    assert_eq!("", post.content());
    post.request_review();
    assert_eq!("", post.content());
    post.request_review();
    assert_eq!("", post.content());
}

#[test]
fn stage_review_request() {
    assert_eq!(Stage::PendingReview, Stage::Draft.request_review());
    assert_eq!(Stage::PendingReview, Stage::PendingReview.request_review());
}
