use blog::errors::AppError;
use blog::handlers::{
    get_post, handle_get_post, handle_index, handle_new_post, index, new_post, page_response,
    MediaKind,
};
use blog::models::{NewPost, Post};
use blog::store::PostStore;

fn np(title: &str, body: &str, slug: &str) -> NewPost {
    NewPost { title: String::from(title), body: String::from(body), slug: String::from(slug) }
}

fn test_templates() -> tera::Tera {
    let mut t = tera::Tera::default();
    t.add_raw_template("posts.html", "<h1>{{ post.title }}</h1><p>{{ post.body }}</p>")
        .unwrap();
    t.add_raw_template(
        "index.html",
        "{% for post in posts %}<li>{{ post.title }}</li>{% endfor %}",
    )
    .unwrap();
    t
}

#[test]
fn scenario_create_read_and_miss() {
    let t = test_templates();
    let mut store = PostStore::new();

    let created = new_post(&mut store, &np("Hello", "World", "hello"));
    assert_eq!(created.status, 200);

    let shown = get_post(&store, &t, "hello");
    assert_eq!(shown.status, 200);
    assert_eq!(shown.kind, MediaKind::Html);
    assert!(shown.body.contains("Hello"));
    assert!(shown.body.contains("World"));

    let missing = get_post(&store, &t, "nope");
    assert_eq!(missing.status, 404);
    assert_eq!(missing.body, "");
}

#[test]
fn new_post_echo_is_exact() {
    let mut store = PostStore::new();
    let r = new_post(&mut store, &np("Hello", "World", "hello"));
    assert_eq!(r.status, 200);
    assert_eq!(r.kind, MediaKind::Text);
    assert_eq!(r.body, "Post { id: 0, title: \"Hello\", body: \"World\", slug: \"hello\" }");
}

#[test]
fn new_post_with_empty_slug_is_an_error() {
    let mut store = PostStore::new();
    let r = new_post(&mut store, &np("Hello", "World", ""));
    assert_eq!(r.status, 500);
    assert_eq!(r.body, "error while receiving data");
    assert_eq!(store.len(), 0);
}

#[test]
fn index_references_every_created_post() {
    let t = test_templates();
    let mut store = PostStore::new();
    for i in 0..3 {
        let r = new_post(&mut store, &np(&format!("t{i}"), "b", &format!("s{i}")));
        assert_eq!(r.status, 200);
    }
    let page = index(&store, &t);
    assert_eq!(page.status, 200);
    assert_eq!(page.kind, MediaKind::Html);
    assert_eq!(page.body.matches("<li>").count(), 3);
    assert!(page.body.contains("t0"));
    assert!(page.body.contains("t1"));
    assert!(page.body.contains("t2"));
}

#[test]
fn templates_can_reference_the_post_id() {
    let mut t = tera::Tera::default();
    t.add_raw_template("posts.html", "#{{ post.id }}: {{ post.title }}").unwrap();
    t.add_raw_template("index.html", "{% for post in posts %}#{{ post.id }};{% endfor %}")
        .unwrap();
    let mut store = PostStore::new();
    new_post(&mut store, &np("a", "1", "s-a"));
    new_post(&mut store, &np("b", "2", "s-b"));
    let shown = get_post(&store, &t, "s-b");
    assert_eq!(shown.status, 200);
    assert_eq!(shown.body, "#1: b");
    let page = index(&store, &t);
    assert_eq!(page.body, "#0;#1;");
}

#[test]
fn duplicate_slug_shows_the_first_by_storage_order() {
    let t = test_templates();
    let mut store = PostStore::new();
    new_post(&mut store, &np("first", "one", "dup"));
    new_post(&mut store, &np("second", "two", "dup"));
    let shown = get_post(&store, &t, "dup");
    assert_eq!(shown.status, 200);
    assert!(shown.body.contains("first"));
    assert!(!shown.body.contains("second"));
}

#[test]
fn missing_template_maps_to_internal_error() {
    let t = tera::Tera::default();
    let mut store = PostStore::new();
    new_post(&mut store, &np("Hello", "World", "hello"));
    let page = index(&store, &t);
    assert_eq!(page.status, 500);
    assert_eq!(page.body, "error while rendering page");
    let shown = get_post(&store, &t, "hello");
    assert_eq!(shown.status, 500);
    assert_eq!(shown.body, "error while rendering page");
}

#[test]
fn connection_failure_maps_to_503() {
    let t = test_templates();
    let r = handle_index(Err(AppError::Connection), &t);
    assert_eq!(r.status, 503);
    assert_eq!(r.body, "service unavailable");
}

#[test]
fn query_failure_maps_to_500() {
    let t = test_templates();
    let r = handle_get_post(Err(AppError::Query), &t);
    assert_eq!(r.status, 500);
    assert_eq!(r.body, "error while receiving data");
    let r = handle_new_post(Err(AppError::Query));
    assert_eq!(r.status, 500);
    assert_eq!(r.body, "error while receiving data");
}

#[test]
fn handle_get_post_renders_the_supplied_row() {
    let t = test_templates();
    let rows = vec![Post {
        id: 7,
        title: String::from("Seventh"),
        body: String::from("Body"),
        slug: String::from("seven"),
    }];
    let r = handle_get_post(Ok(rows), &t);
    assert_eq!(r.status, 200);
    assert!(r.body.contains("Seventh"));
    let r = handle_get_post(Ok(Vec::new()), &t);
    assert_eq!(r.status, 404);
}

#[test]
fn page_response_passes_the_html_through() {
    let r = page_response(Some(String::from("<b>rendered</b>")));
    assert_eq!(r.status, 200);
    assert_eq!(r.kind, MediaKind::Html);
    assert_eq!(r.body, "<b>rendered</b>");
    let r = page_response(None);
    assert_eq!(r.status, 500);
    assert_eq!(r.body, "error while rendering page");
}

#[test]
fn decimal_rendering_is_exact() {
    assert_eq!(blog::text::u64_to_dec(0), "0");
    assert_eq!(blog::text::u64_to_dec(9), "9");
    assert_eq!(blog::text::u64_to_dec(10), "10");
    assert_eq!(blog::text::u64_to_dec(65535), "65535");
    assert_eq!(blog::text::u64_to_dec(1234567890), "1234567890");
    assert_eq!(blog::text::u64_to_dec(u64::MAX), "18446744073709551615");
}
