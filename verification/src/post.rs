//! The blog post, the one entity of the service.

use vstd::prelude::*;

verus! {

/// A stored blog post.
///
/// `id` is assigned by the store when the post is created and never changes.
/// The four text fields are the caller's; nothing is demanded of their
/// content.
#[derive(Clone, Debug, PartialEq, Eq)]
pub struct BlogPost {
    pub id: i32,
    pub date: String,
    pub title: String,
    pub body: String,
    pub author: String,
}

/// What a [`BlogPost`] is, mathematically: an integer and four texts.
pub ghost struct BlogPostView {
    pub id: int,
    pub date: Seq<char>,
    pub title: Seq<char>,
    pub body: Seq<char>,
    pub author: Seq<char>,
}

impl View for BlogPost {
    type V = BlogPostView;

    open spec fn view(&self) -> BlogPostView {
        BlogPostView {
            id: self.id as int,
            date: self.date@,
            title: self.title@,
            body: self.body@,
            author: self.author@,
        }
    }
}

/// The views of a list of posts, in order.
pub open spec fn posts_view(posts: Seq<BlogPost>) -> Seq<BlogPostView> {
    Seq::new(posts.len(), |i: int| posts[i]@)
}

} // verus!
