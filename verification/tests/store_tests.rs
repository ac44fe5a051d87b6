use blog_backend::model::NewPost;
use blog_backend::store::Store;

fn payload(title: &str, slug: &str, body: &str) -> NewPost {
    NewPost { title: String::from(title), slug: String::from(slug), body: String::from(body) }
}

#[test]
fn new_store_is_empty() {
    let store = Store::new();
    assert_eq!(store.load_all().len(), 0);
    assert_eq!(store.find_by_slug("anything").len(), 0);
}

#[test]
fn created_post_is_listed_and_found() {
    let mut store = Store::new();
    let created = store.insert(&payload("Hello", "hello", "World"));
    assert_eq!(created.id, 1);
    assert_eq!(created.title, "Hello");
    assert_eq!(created.slug, "hello");
    assert_eq!(created.body, "World");

    let all = store.load_all();
    assert_eq!(all.len(), 1);
    assert_eq!(all[0].id, 1);
    assert_eq!(all[0].title, "Hello");

    let found = store.find_by_slug("hello");
    assert_eq!(found.len(), 1);
    assert_eq!(found[0].id, 1);
    assert_eq!(found[0].title, "Hello");
    assert_eq!(found[0].body, "World");
}

#[test]
fn generated_identifiers_are_distinct() {
    let mut store = Store::new();
    let a = store.insert(&payload("A", "a", "1"));
    let b = store.insert(&payload("B", "b", "2"));
    let c = store.insert(&payload("C", "a", "3"));
    assert_ne!(a.id, b.id);
    assert_ne!(a.id, c.id);
    assert_ne!(b.id, c.id);
    assert_eq!(vec![a.id, b.id, c.id], vec![1, 2, 3]);
}

#[test]
fn lookup_misses_absent_slug() {
    let mut store = Store::new();
    store.insert(&payload("A", "a", "1"));
    assert_eq!(store.find_by_slug("b").len(), 0);
}

#[test]
fn duplicate_slugs_are_kept_in_stored_order() {
    let mut store = Store::new();
    store.insert(&payload("First", "dup", "1"));
    store.insert(&payload("Other", "other", "2"));
    store.insert(&payload("Second", "dup", "3"));
    let found = store.find_by_slug("dup");
    assert_eq!(found.len(), 2);
    assert_eq!(found[0].title, "First");
    assert_eq!(found[1].title, "Second");
}
