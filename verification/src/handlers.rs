//! The three route handlers, split at the seam the service is built
//! around: a handler acquires a connection, runs the blocking data-layer
//! operation off the request thread, and maps the awaited outcome to an
//! HTTP response. The `handle_*` functions are that mapping, one per
//! route, taking the outcome as a value; `index`, `get_post` and
//! `new_post` compose them with the store.

use vstd::prelude::*;
use crate::errors::AppError;
use crate::models::{NewPost, Post};
use crate::render::{render_index_page, render_post_page};
use crate::store::{created_post, matching_posts, PostStore};
use crate::text::{dec_rep, u64_to_dec};

verus! {

/// How a response body is to be interpreted.
#[derive(Clone, Copy, PartialEq, Eq, Structural, Debug)]
pub enum MediaKind {
    Html,
    Text,
}

/// A finished HTTP response.
pub struct Response {
    pub status: u16,
    pub kind: MediaKind,
    pub body: String,
}

/// `r` reports exactly the error `e`: its status code and message.
pub open spec fn is_error_response(r: Response, e: AppError) -> bool {
    r.status == e.status_spec() && r.kind == MediaKind::Text && r.body@ == e.message_spec()
}

/// The response that reports `e` and nothing else.
pub fn error_response(e: &AppError) -> (r: Response)
    ensures
        is_error_response(r, *e),
{
    Response { status: e.status_code(), kind: MediaKind::Text, body: e.message() }
}

/// The body that echoes a created post: the debug-style rendering of the
/// whole inserted row, every field included.
pub open spec fn echo_spec(p: Post) -> Seq<char> {
    "Post { id: "@ + dec_rep(p.id as nat) + ", title: \""@ + p.title@ + "\", body: \""@ + p.body@
        + "\", slug: \""@ + p.slug@ + "\" }"@
}

/// Writes the creation echo for `p`.
pub fn post_echo(p: &Post) -> (s: String)
    ensures
        s@ == echo_spec(*p),
{
    let mut s = String::from_str("Post { id: ");
    let num = u64_to_dec(p.id);
    s.append(num.as_str());
    s.append(", title: \"");
    s.append(p.title.as_str());
    s.append("\", body: \"");
    s.append(p.body.as_str());
    s.append("\", slug: \"");
    s.append(p.slug.as_str());
    s.append("\" }");
    proof {
        assert(s@ =~= echo_spec(*p));
    }
    s
}

/// What a page route returns once rendering has been attempted: the
/// HTML when the engine produced one, the template error otherwise.
pub fn page_response(rendered: Option<String>) -> (r: Response)
    ensures
        rendered is Some ==> r.status == 200 && r.kind == MediaKind::Html && r.body@
            == rendered.unwrap()@,
        rendered is None ==> is_error_response(r, AppError::Template),
{
    match rendered {
        Some(html) => Response { status: 200, kind: MediaKind::Html, body: html },
        None => error_response(&AppError::Template),
    }
}

/// Maps the awaited outcome of the load-all operation to the listing
/// response: the rendered page, or the error mapped to its status.
pub fn handle_index(outcome: Result<Vec<Post>, AppError>, t: &tera::Tera) -> (r: Response)
    ensures
        outcome is Ok ==> (r.status == 200 && r.kind == MediaKind::Html) || is_error_response(
            r,
            AppError::Template,
        ),
        outcome is Err ==> is_error_response(r, outcome.unwrap_err()),
{
    match outcome {
        Ok(posts) => page_response(render_index_page(t, &posts)),
        Err(e) => error_response(&e),
    }
}

/// Maps the awaited outcome of the slug lookup to the single-post
/// response: 404 exactly when no row matched, otherwise the first match
/// rendered; later duplicates are ignored.
pub fn handle_get_post(outcome: Result<Vec<Post>, AppError>, t: &tera::Tera) -> (r: Response)
    ensures
        outcome is Ok && outcome.unwrap()@.len() == 0 ==> is_error_response(
            r,
            AppError::NotFound,
        ),
        outcome is Ok && outcome.unwrap()@.len() > 0 ==> (r.status == 200 && r.kind
            == MediaKind::Html) || is_error_response(r, AppError::Template),
        outcome is Err ==> is_error_response(r, outcome.unwrap_err()),
{
    match outcome {
        Ok(posts) => {
            if posts.len() == 0 {
                error_response(&AppError::NotFound)
            } else {
                page_response(render_post_page(t, &posts[0]))
            }
        },
        Err(e) => error_response(&e),
    }
}

/// Maps the awaited outcome of the insert to the creation response:
/// the echo of the stored row, or the error mapped to its status.
pub fn handle_new_post(outcome: Result<Post, AppError>) -> (r: Response)
    ensures
        outcome is Ok ==> r.status == 200 && r.kind == MediaKind::Text && r.body@ == echo_spec(
            outcome.unwrap(),
        ),
        outcome is Err ==> is_error_response(r, outcome.unwrap_err()),
{
    match outcome {
        Ok(p) => Response { status: 200, kind: MediaKind::Text, body: post_echo(&p) },
        Err(e) => error_response(&e),
    }
}

/// GET `/`: loads every post and renders the listing; every stored row is
/// handed to the renderer.
pub fn index(store: &PostStore, t: &tera::Tera) -> (r: Response)
    ensures
        (r.status == 200 && r.kind == MediaKind::Html) || is_error_response(
            r,
            AppError::Template,
        ),
{
    handle_index(Ok(store.list_posts()), t)
}

/// GET `/blog/{slug}`: renders the first stored post carrying the slug;
/// responds 404 exactly when no post carries it.
pub fn get_post(store: &PostStore, t: &tera::Tera, slug: &str) -> (r: Response)
    ensures
        matching_posts(store@, slug@).len() == 0 ==> is_error_response(r, AppError::NotFound),
        matching_posts(store@, slug@).len() > 0 ==> (r.status == 200 && r.kind == MediaKind::Html)
            || is_error_response(r, AppError::Template),
        r.status == 404 <==> matching_posts(store@, slug@).len() == 0,
{
    handle_get_post(Ok(store.find_by_slug(slug)), t)
}

/// POST `/new_post`: inserts the supplied fields and echoes the created
/// row; an empty slug is rejected and leaves the store unchanged.
pub fn new_post(store: &mut PostStore, p: &NewPost) -> (r: Response)
    requires
        old(store).wf(),
    ensures
        final(store).wf(),
        p.slug@.len() > 0 ==> final(store)@ == old(store)@.push(created_post(old(store)@, *p))
            && r.status == 200 && r.kind == MediaKind::Text && r.body@ == echo_spec(
            created_post(old(store)@, *p),
        ),
        p.slug@.len() == 0 ==> final(store)@ == old(store)@ && is_error_response(
            r,
            AppError::Query,
        ),
{
    let outcome = store.create_post(p);
    handle_new_post(outcome)
}

} // verus!
