//! The record shapes of the blog: a persisted `Post` row and the
//! transient `NewPost` payload a client submits to create one.

use vstd::prelude::*;

verus! {

/// The mathematical value of a persisted post: the generated identifier
/// and the three text fields as sequences of characters.
pub ghost struct PostView {
    pub id: int,
    pub title: Seq<char>,
    pub slug: Seq<char>,
    pub body: Seq<char>,
}

/// The mathematical value of a creation payload: the three text fields
/// the client supplies; the identifier is generated by the store.
pub ghost struct NewPostView {
    pub title: Seq<char>,
    pub slug: Seq<char>,
    pub body: Seq<char>,
}

/// A persisted blog post: one row of the posts table.
pub struct Post {
    pub id: i32,
    pub title: String,
    pub slug: String,
    pub body: String,
}

/// The payload of a create-post request: a post without an identifier.
pub struct NewPost {
    pub title: String,
    pub slug: String,
    pub body: String,
}

impl View for Post {
    type V = PostView;

    open spec fn view(&self) -> PostView {
        PostView { id: self.id as int, title: self.title@, slug: self.slug@, body: self.body@ }
    }
}

impl View for NewPost {
    type V = NewPostView;

    open spec fn view(&self) -> NewPostView {
        NewPostView { title: self.title@, slug: self.slug@, body: self.body@ }
    }
}

/// The post a payload turns into once the store assigns it `id`.
pub open spec fn post_of(np: NewPostView, id: int) -> PostView {
    PostView { id, title: np.title, slug: np.slug, body: np.body }
}

/// The views of a sequence of posts.
pub open spec fn views(posts: Seq<Post>) -> Seq<PostView> {
    posts.map_values(|p: Post| p@)
}

impl Clone for Post {
    fn clone(&self) -> (r: Self)
        ensures
            r == *self,
    {
        Post {
            id: self.id,
            title: self.title.clone(),
            slug: self.slug.clone(),
            body: self.body.clone(),
        }
    }
}

impl Clone for NewPost {
    fn clone(&self) -> (r: Self)
        ensures
            r == *self,
    {
        NewPost { title: self.title.clone(), slug: self.slug.clone(), body: self.body.clone() }
    }
}

} // verus!
