//! Small verified building blocks: a blog post that moves through a review
//! workflow, a line search over text, and a few generic helpers.
pub mod post;
pub mod search;
pub mod unpublished;
pub mod rectangle;
pub mod generics;
pub mod iter;
