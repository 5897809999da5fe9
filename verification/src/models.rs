//! The post entity and its insertable counterpart.

use vstd::prelude::*;

verus! {

/// A persisted blog post: one row of the posts table.
#[derive(Debug)]
pub struct Post {
    /// Identifier assigned by the store: the position of the row.
    pub id: u64,
    pub title: String,
    pub body: String,
    /// URL-safe key under which the post is retrieved.
    pub slug: String,
}

impl Post {
    /// Every persisted post carries a non-empty slug: the key its URL uses.
    pub open spec fn wf(self) -> bool {
        self.slug@.len() > 0
    }
}

impl Clone for Post {
    fn clone(&self) -> (r: Self)
        ensures
            r == *self,
    {
        Post {
            id: self.id,
            title: self.title.clone(),
            body: self.body.clone(),
            slug: self.slug.clone(),
        }
    }
}

/// The insertable counterpart of `Post`: the fields a client supplies,
/// without the generated identifier.
#[derive(Debug)]
pub struct NewPost {
    pub title: String,
    pub body: String,
    pub slug: String,
}

} // verus!
