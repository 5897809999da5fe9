//! What holds of the store across calls: creation followed by lookup,
//! duplicate slugs, and the growth of the listing.

use vstd::prelude::*;
use crate::models::{NewPost, Post};
use crate::store::{after_creations, matching_posts};

verus! {

/// Creating a post and then looking its slug up finds exactly that post,
/// its title and body included, provided no earlier post used the slug.
pub proof fn lemma_create_then_find(s: Seq<Post>, p: Post)
    requires
        matching_posts(s, p.slug@).len() == 0,
    ensures
        matching_posts(s.push(p), p.slug@) == seq![p],
        matching_posts(s.push(p), p.slug@)[0].title == p.title,
        matching_posts(s.push(p), p.slug@)[0].body == p.body,
{
    assert(s.push(p).drop_last() =~= s);
    assert(matching_posts(s, p.slug@) =~= Seq::<Post>::empty());
    assert(matching_posts(s.push(p), p.slug@) =~= seq![p]);
}

/// Creating two posts under one slug errors on neither, and a lookup
/// lists the earlier one first: storage order decides which is shown.
pub proof fn lemma_duplicate_slug_first_wins(s: Seq<Post>, p1: Post, p2: Post)
    requires
        p1.slug@ == p2.slug@,
        matching_posts(s, p1.slug@).len() == 0,
    ensures
        matching_posts(s.push(p1).push(p2), p1.slug@) == seq![p1, p2],
        matching_posts(s.push(p1).push(p2), p1.slug@)[0] == p1,
{
    lemma_create_then_find(s, p1);
    assert(s.push(p1).push(p2).drop_last() =~= s.push(p1));
    assert(matching_posts(s.push(p1).push(p2), p1.slug@) =~= seq![p1, p2]);
}

/// Creating n posts grows the stored listing by exactly n entries, so
/// the listing page rendered afterwards references all n of them.
pub proof fn lemma_listing_counts_creations(s: Seq<Post>, ps: Seq<NewPost>)
    ensures
        after_creations(s, ps).len() == s.len() + ps.len(),
    decreases ps.len(),
{
    if ps.len() > 0 {
        lemma_listing_counts_creations(
            s.push(crate::store::created_post(s, ps.first())),
            ps.drop_first(),
        );
    }
}

/// No creation moves or replaces an earlier row: what the listing showed
/// before, it still shows, in the same position.
pub proof fn lemma_creations_keep_rows(s: Seq<Post>, ps: Seq<NewPost>, i: int)
    requires
        0 <= i < s.len(),
    ensures
        after_creations(s, ps)[i] == s[i],
    decreases ps.len(),
{
    if ps.len() > 0 {
        lemma_creations_keep_rows(
            s.push(crate::store::created_post(s, ps.first())),
            ps.drop_first(),
            i,
        );
    }
}

} // verus!
