//! The seam to the tera template engine. Which templates a `Tera` value
//! holds is decided at startup, outside this library, so nothing here
//! states what the produced HTML looks like: callers handle both outcomes.

use vstd::prelude::*;
use crate::models::Post;

verus! {

#[verifier::external_type_specification]
#[verifier::external_body]
pub struct ExTera(tera::Tera);

/// Relies on tera::Tera::render with the "index.html" template: it returns
/// HTML produced from the supplied posts, or an error when the template is
/// missing or fails; the templates loaded into `t` decide which.
#[verifier::external_body]
pub(crate) fn render_index_page(t: &tera::Tera, posts: &Vec<Post>) -> Option<String> {
    let mut items: Vec<std::collections::HashMap<&str, String>> = Vec::new();
    for p in posts.iter() {
        let mut m = std::collections::HashMap::new();
        m.insert("id", p.id.to_string());
        m.insert("title", p.title.clone());
        m.insert("body", p.body.clone());
        m.insert("slug", p.slug.clone());
        items.push(m);
    }
    let mut ctx = tera::Context::new();
    ctx.insert("posts", &items);
    t.render("index.html", &ctx).ok()
}

/// Relies on tera::Tera::render with the "posts.html" template: it returns
/// HTML produced from the post's fields, or an error when the template is
/// missing or fails; the templates loaded into `t` decide which.
#[verifier::external_body]
pub(crate) fn render_post_page(t: &tera::Tera, post: &Post) -> Option<String> {
    let mut m = std::collections::HashMap::new();
    m.insert("id", post.id.to_string());
    m.insert("title", post.title.clone());
    m.insert("body", post.body.clone());
    m.insert("slug", post.slug.clone());
    let mut ctx = tera::Context::new();
    ctx.insert("post", &m);
    t.render("posts.html", &ctx).ok()
}

} // verus!
