use blog_backend::handlers::{
    get_post, get_post_response, index, index_response, new_post, new_post_response, ContentKind,
    DbError,
};
use blog_backend::model::{NewPost, Post};
use blog_backend::render::escape_html;
use blog_backend::store::Store;

fn seeded_store() -> Store {
    let mut store = Store::new();
    store.insert(&NewPost {
        title: String::from("Hello"),
        slug: String::from("hello"),
        body: String::from("World"),
    });
    store
}

#[test]
fn escaping_rewrites_the_five_metacharacters() {
    assert_eq!(escape_html("a<b>&\"'c"), "a&lt;b&gt;&amp;&quot;&#x27;c");
    assert_eq!(escape_html("plain"), "plain");
    assert_eq!(escape_html(""), "");
}

#[test]
fn index_renders_every_post() {
    let store = seeded_store();
    let resp = index(&store);
    assert_eq!(resp.status, 200);
    assert!(resp.content_type == ContentKind::Html);
    assert_eq!(
        resp.body,
        "<html><body><h1>Blog</h1><ul><li><a href=\"/blog/hello\">Hello</a></li></ul></body></html>"
    );
}

#[test]
fn index_of_empty_store_has_no_entries() {
    let store = Store::new();
    let resp = index(&store);
    assert_eq!(resp.status, 200);
    assert_eq!(resp.body, "<html><body><h1>Blog</h1><ul></ul></body></html>");
}

#[test]
fn index_holds_each_title_once() {
    let mut store = Store::new();
    store.insert(&NewPost {
        title: String::from("First post"),
        slug: String::from("first"),
        body: String::from("alpha"),
    });
    store.insert(&NewPost {
        title: String::from("Second post"),
        slug: String::from("second"),
        body: String::from("beta"),
    });
    let resp = index(&store);
    assert_eq!(resp.status, 200);
    assert_eq!(resp.body.matches("First post").count(), 1);
    assert_eq!(resp.body.matches("Second post").count(), 1);
}

#[test]
fn index_escapes_titles() {
    let mut store = Store::new();
    store.insert(&NewPost {
        title: String::from("a<b>"),
        slug: String::from("s"),
        body: String::from("x"),
    });
    let resp = index(&store);
    assert!(resp.body.contains("a&lt;b&gt;"));
    assert!(!resp.body.contains("a<b>"));
}

#[test]
fn missing_slug_is_answered_404_with_empty_body() {
    let store = seeded_store();
    let resp = get_post(&store, "absent");
    assert_eq!(resp.status, 404);
    assert_eq!(resp.body, "");
}

#[test]
fn matching_slug_is_answered_with_its_detail_page() {
    let store = seeded_store();
    let resp = get_post(&store, "hello");
    assert_eq!(resp.status, 200);
    assert!(resp.content_type == ContentKind::Html);
    assert_eq!(resp.body, "<html><body><h1>Hello</h1><div>World</div></body></html>");
}

#[test]
fn duplicate_slugs_resolve_to_the_first_stored_row() {
    let mut store = seeded_store();
    store.insert(&NewPost {
        title: String::from("Later"),
        slug: String::from("hello"),
        body: String::from("other"),
    });
    let resp = get_post(&store, "hello");
    assert_eq!(resp.status, 200);
    assert_eq!(resp.body, "<html><body><h1>Hello</h1><div>World</div></body></html>");
}

#[test]
fn valid_create_inserts_and_echoes_the_row() {
    let mut store = Store::new();
    let resp = new_post(&mut store, r#"{"title":"Hello","slug":"hello","body":"World"}"#);
    assert_eq!(resp.status, 200);
    assert!(resp.content_type == ContentKind::PlainText);
    assert_eq!(resp.body, "Post { id: 1, title: \"Hello\", slug: \"hello\", body: \"World\" }");
    assert_eq!(store.load_all().len(), 1);
    assert_eq!(store.find_by_slug("hello")[0].title, "Hello");
}

#[test]
fn create_without_title_is_rejected_before_the_store() {
    let mut store = Store::new();
    let resp = new_post(&mut store, r#"{"slug":"s","body":"b"}"#);
    assert_eq!(resp.status, 400);
    assert_eq!(resp.body, "");
    assert_eq!(store.load_all().len(), 0);
}

#[test]
fn created_payload_is_found_by_later_requests() {
    let mut store = Store::new();
    let resp = new_post(&mut store, r#"{"title":"My Day","slug":"my-day","body":"It rained."}"#);
    assert_eq!(resp.status, 200);

    let listing = index(&store);
    assert!(listing.body.contains("My Day"));
    assert!(listing.body.contains("/blog/my-day"));

    let detail = get_post(&store, "my-day");
    assert_eq!(detail.status, 200);
    assert_eq!(detail.body, "<html><body><h1>My Day</h1><div>It rained.</div></body></html>");
}

#[test]
fn malformed_create_is_rejected_before_the_store() {
    let mut store = seeded_store();
    let resp = new_post(&mut store, "not json at all");
    assert_eq!(resp.status, 400);
    assert_eq!(store.load_all().len(), 1);
}

#[test]
fn failed_queries_are_answered_with_the_generic_text() {
    let resp = index_response(Err(DbError::QueryFailed));
    assert_eq!(resp.status, 200);
    assert!(resp.content_type == ContentKind::PlainText);
    assert_eq!(resp.body, "Error al recibir la data");

    let resp = get_post_response(Err(DbError::QueryFailed));
    assert_eq!(resp.status, 200);
    assert_eq!(resp.body, "Error al recibir la data");

    let resp = new_post_response(Err(DbError::QueryFailed));
    assert_eq!(resp.status, 200);
    assert_eq!(resp.body, "Error al recibir la data");
}

#[test]
fn successful_create_result_is_dumped() {
    let resp = new_post_response(Ok(Post {
        id: 42,
        title: String::from("T"),
        slug: String::from("s"),
        body: String::from("B"),
    }));
    assert_eq!(resp.status, 200);
    assert_eq!(resp.body, "Post { id: 42, title: \"T\", slug: \"s\", body: \"B\" }");
}

#[test]
fn dump_escapes_fields_in_debug_style() {
    let post = Post {
        id: 3,
        title: String::from("a\"b\\c"),
        slug: String::from("x\ny"),
        body: String::from("t\tr\ru\u{1}v"),
    };
    let resp = new_post_response(Ok(post));
    let expected = format!(
        "Post {{ id: {}, title: {:?}, slug: {:?}, body: {:?} }}",
        3, "a\"b\\c", "x\ny", "t\tr\ru\u{1}v"
    );
    assert_eq!(resp.body, expected);
    assert_eq!(
        resp.body,
        "Post { id: 3, title: \"a\\\"b\\\\c\", slug: \"x\\ny\", body: \"t\\tr\\ru\\u{1}v\" }"
    );
}

#[test]
fn query_results_render_like_the_store_path() {
    let rows = vec![Post {
        id: 7,
        title: String::from("Hello"),
        slug: String::from("hello"),
        body: String::from("World"),
    }];
    let resp = get_post_response(Ok(rows));
    assert_eq!(resp.status, 200);
    assert_eq!(resp.body, "<html><body><h1>Hello</h1><div>World</div></body></html>");

    let resp = get_post_response(Ok(Vec::new()));
    assert_eq!(resp.status, 404);
    assert_eq!(resp.body, "");
}
