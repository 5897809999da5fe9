//! An in-memory model of the posts table: rows kept in insertion order,
//! identifiers assigned by position, no uniqueness constraint on slugs.

use vstd::prelude::*;
use crate::errors::AppError;
use crate::models::{NewPost, Post};

verus! {

/// All posts of `s` whose slug is exactly `slug`, in storage order.
pub open spec fn matching_posts(s: Seq<Post>, slug: Seq<char>) -> Seq<Post>
    decreases s.len(),
{
    if s.len() == 0 {
        Seq::empty()
    } else if s.last().slug@ == slug {
        matching_posts(s.drop_last(), slug).push(s.last())
    } else {
        matching_posts(s.drop_last(), slug)
    }
}

/// The row that inserting `p` creates when the store already holds `s`.
pub open spec fn created_post(s: Seq<Post>, p: NewPost) -> Post {
    Post { id: s.len() as u64, title: p.title, body: p.body, slug: p.slug }
}

/// The store contents after creating every post of `ps` in order,
/// starting from `s`: each step appends the row `created_post` makes.
pub open spec fn after_creations(s: Seq<Post>, ps: Seq<NewPost>) -> Seq<Post>
    decreases ps.len(),
{
    if ps.len() == 0 {
        s
    } else {
        after_creations(s.push(created_post(s, ps.first())), ps.drop_first())
    }
}

/// The posts table: every persisted row, in insertion order.
pub struct PostStore {
    posts: Vec<Post>,
}

impl View for PostStore {
    type V = Seq<Post>;

    closed spec fn view(&self) -> Seq<Post> {
        self.posts@
    }
}

impl PostStore {
    /// Rows are well formed and numbered by their position.
    pub open spec fn wf(self) -> bool {
        forall|i: int| 0 <= i < self@.len() ==> (#[trigger] self@[i]).id == i && self@[i].wf()
    }

    pub fn new() -> (s: Self)
        ensures
            s.wf(),
            s@ == Seq::<Post>::empty(),
    {
        PostStore { posts: Vec::new() }
    }

    /// Number of stored rows.
    pub fn len(&self) -> (n: usize)
        ensures
            n == self@.len(),
    {
        self.posts.len()
    }

    /// Inserts one row and returns the inserted representation.
    /// Fails exactly when the supplied slug is empty, the one shape the
    /// data layer rejects; duplicate slugs are accepted.
    pub fn create_post(&mut self, p: &NewPost) -> (r: Result<Post, AppError>)
        requires
            old(self).wf(),
        ensures
            final(self).wf(),
            r is Ok <==> p.slug@.len() > 0,
            r is Ok ==> r.unwrap() == created_post(old(self)@, *p)
                && final(self)@ == old(self)@.push(created_post(old(self)@, *p)),
            r is Err ==> final(self)@ == old(self)@ && r.unwrap_err() == AppError::Query,
    {
        if p.slug.as_str().is_empty() {
            Err(AppError::Query)
        } else {
            let row = Post {
                id: self.posts.len() as u64,
                title: p.title.clone(),
                body: p.body.clone(),
                slug: p.slug.clone(),
            };
            let echo = row.clone();
            self.posts.push(row);
            proof {
                let s0 = old(self)@;
                let s1 = self@;
                assert forall|i: int| 0 <= i < s1.len() implies (#[trigger] s1[i]).id == i
                    && s1[i].wf() by {
                    if i < s0.len() {
                        assert(s1[i] == s0[i]);
                    } else {
                        assert(s1[i] == created_post(s0, *p));
                    }
                }
            }
            Ok(echo)
        }
    }

    /// All rows whose slug equals `slug`, in storage order.
    pub fn find_by_slug(&self, slug: &str) -> (r: Vec<Post>)
        ensures
            r@ == matching_posts(self@, slug@),
    {
        let needle = slug.to_owned();
        let mut r: Vec<Post> = Vec::new();
        let mut i: usize = 0;
        while i < self.posts.len()
            invariant
                i <= self.posts.len(),
                r@ == matching_posts(self@.subrange(0, i as int), slug@),
                needle@ == slug@,
            decreases self.posts.len() - i,
        {
            proof {
                let sub = self@.subrange(0, i + 1);
                assert(sub.drop_last() =~= self@.subrange(0, i as int));
                assert(sub.last() == self@[i as int]);
            }
            if self.posts[i].slug == needle {
                r.push(self.posts[i].clone());
            }
            i = i + 1;
        }
        proof {
            assert(self@.subrange(0, self@.len() as int) =~= self@);
        }
        r
    }

    /// Every stored row, in storage order: what the listing page shows.
    pub fn list_posts(&self) -> (r: Vec<Post>)
        ensures
            r@ == self@,
    {
        let mut r: Vec<Post> = Vec::new();
        let mut i: usize = 0;
        while i < self.posts.len()
            invariant
                i <= self.posts.len(),
                r@ == self@.subrange(0, i as int),
            decreases self.posts.len() - i,
        {
            proof {
                assert(self@.subrange(0, i + 1) =~= self@.subrange(0, i as int).push(
                    self@[i as int],
                ));
            }
            r.push(self.posts[i].clone());
            i = i + 1;
        }
        proof {
            assert(self@.subrange(0, self@.len() as int) =~= self@);
        }
        r
    }
}

} // verus!
