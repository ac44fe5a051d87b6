//! An in-memory model of the posts table: the rows in insertion order
//! and the next identifier the store will generate.  It offers exactly
//! the three operations the handlers need — load every row, load the
//! rows matching a slug, insert a new row with a generated identifier.

use vstd::prelude::*;

use crate::model::{post_of, views, NewPost, Post, PostView};
use crate::text::str_eq;

verus! {

/// The rows whose slug equals `slug`, in stored order.
pub open spec fn matching(posts: Seq<PostView>, slug: Seq<char>) -> Seq<PostView>
    decreases posts.len(),
{
    if posts.len() == 0 {
        Seq::empty()
    } else {
        matching(posts.drop_last(), slug) + if posts.last().slug == slug {
            seq![posts.last()]
        } else {
            Seq::empty()
        }
    }
}

/// The posts table.
pub struct Store {
    pub posts: Vec<Post>,
    pub next_id: i32,
}

impl Store {
    /// Every stored row has an identifier below `next_id`, no two rows
    /// share an identifier, and identifiers start at 1.
    pub open spec fn wf(&self) -> bool {
        &&& 1 <= self.next_id
        &&& forall|i: int| 0 <= i < self.posts@.len() ==> 1 <= #[trigger] self.posts@[i]@.id
            < self.next_id
        &&& forall|i: int, j: int|
            0 <= i < j < self.posts@.len() ==> #[trigger] self.posts@[i]@.id
                != #[trigger] self.posts@[j]@.id
    }

    /// An empty table; the first generated identifier will be 1.
    pub fn new() -> (s: Store)
        ensures
            s.wf(),
            s.posts@.len() == 0,
            s.next_id == 1,
    {
        Store { posts: Vec::new(), next_id: 1 }
    }

    /// A copy of every stored row, in stored order.
    pub fn load_all(&self) -> (r: Vec<Post>)
        ensures
            r@ == self.posts@,
    {
        let mut out: Vec<Post> = Vec::new();
        let mut i: usize = 0;
        while i < self.posts.len()
            invariant
                0 <= i <= self.posts@.len(),
                out@ == self.posts@.subrange(0, i as int),
            decreases self.posts@.len() - i,
        {
            out.push(self.posts[i].clone());
            assert(out@ =~= self.posts@.subrange(0, i + 1 as int));
            i += 1;
        }
        assert(out@ =~= self.posts@);
        out
    }

    /// A copy of every row whose slug equals `slug`, in stored order.
    pub fn find_by_slug(&self, slug: &str) -> (r: Vec<Post>)
        ensures
            views(r@) == matching(views(self.posts@), slug@),
    {
        let mut out: Vec<Post> = Vec::new();
        let mut i: usize = 0;
        while i < self.posts.len()
            invariant
                0 <= i <= self.posts@.len(),
                views(out@) == matching(views(self.posts@.subrange(0, i as int)), slug@),
            decreases self.posts@.len() - i,
        {
            let ghost pre = views(self.posts@.subrange(0, i as int));
            let ghost cur = views(self.posts@.subrange(0, i + 1 as int));
            assert(cur.drop_last() =~= pre);
            assert(cur.last() == self.posts@[i as int]@);
            if str_eq(self.posts[i].slug.as_str(), slug) {
                out.push(self.posts[i].clone());
                assert(views(out@) =~= matching(pre, slug@) + seq![self.posts@[i as int]@]);
            } else {
                assert(views(out@) =~= matching(pre, slug@) + Seq::<PostView>::empty());
            }
            i += 1;
        }
        assert(self.posts@.subrange(0, self.posts@.len() as int) =~= self.posts@);
        out
    }

    /// Inserts the payload as a new row; the store assigns the next
    /// identifier, which differs from every stored one.
    pub fn insert(&mut self, np: &NewPost) -> (p: Post)
        requires
            old(self).wf(),
            old(self).next_id < i32::MAX,
        ensures
            final(self).wf(),
            p@ == post_of(np@, old(self).next_id as int),
            views(final(self).posts@) == views(old(self).posts@).push(p@),
            final(self).next_id == old(self).next_id + 1,
            forall|i: int| 0 <= i < old(self).posts@.len()
                ==> #[trigger] views(old(self).posts@)[i].id != p@.id,
    {
        let p = Post {
            id: self.next_id,
            title: np.title.clone(),
            slug: np.slug.clone(),
            body: np.body.clone(),
        };
        let created = p.clone();
        self.posts.push(p);
        self.next_id = self.next_id + 1;
        assert(views(final(self).posts@) =~= views(old(self).posts@).push(created@));
        created
    }
}

/// Creates never collide on identifiers: every insert hands out an
/// identifier above all stored ones, so in a well-formed store no two
/// rows — however they were created — share one.
pub proof fn lemma_ids_distinct(s: &Store)
    requires
        s.wf(),
    ensures
        forall|i: int, j: int|
            0 <= i < j < s.posts@.len() ==> #[trigger] s.posts@[i]@.id != #[trigger] s.posts@[j]@.id,
{
}

} // verus!
