use links::error::Error;
use links::store::Link;
use links::store::LinkStore;

fn link(id: &str, url: &str, ts: u64) -> Link {
    Link { id: id.to_string(), url: url.to_string(), created_at: ts }
}

#[test]
fn migrate_twice_is_idempotent() {
    let mut store = LinkStore::new();
    assert!(store.migrate().is_ok());
    assert!(store.insert(link("a", "https://one.example", 1)).is_ok());
    assert!(store.migrate().is_ok());
    let rows = store.list_recent(10).unwrap();
    assert_eq!(rows.len(), 1);
    assert_eq!(rows[0].url, "https://one.example");
}

#[test]
fn insert_before_migrate_fails() {
    let mut store = LinkStore::new();
    let r = store.insert(link("a", "https://one.example", 1));
    assert!(matches!(r, Err(Error::Database(m)) if m == "no such table: links"));
}

#[test]
fn list_before_migrate_fails() {
    let store = LinkStore::new();
    let r = store.list_recent(10);
    assert!(matches!(r, Err(Error::Database(m)) if m == "no such table: links"));
}

#[test]
fn insert_then_list_contains_the_row() {
    let mut store = LinkStore::new();
    store.migrate().unwrap();
    let affected = store.insert(link("a", "https://one.example", 1)).unwrap();
    assert_eq!(affected, 1);
    let rows = store.list_recent(10).unwrap();
    let hits: Vec<_> = rows.iter().filter(|l| l.url == "https://one.example").collect();
    assert_eq!(hits.len(), 1);
    assert_eq!(hits[0].id, "a");
    assert_eq!(hits[0].created_at, 1);
}

#[test]
fn duplicate_url_is_rejected_and_not_duplicated() {
    let mut store = LinkStore::new();
    store.migrate().unwrap();
    store.insert(link("a", "https://one.example", 1)).unwrap();
    let r = store.insert(link("b", "https://one.example", 2));
    assert!(matches!(r, Err(Error::Database(m)) if m == "UNIQUE constraint failed: links.url"));
    let rows = store.list_recent(10).unwrap();
    assert_eq!(rows.len(), 1);
    assert_eq!(rows[0].id, "a");
}

#[test]
fn duplicate_id_is_rejected() {
    let mut store = LinkStore::new();
    store.migrate().unwrap();
    store.insert(link("a", "https://one.example", 1)).unwrap();
    let r = store.insert(link("a", "https://two.example", 2));
    assert!(matches!(r, Err(Error::Database(m)) if m == "UNIQUE constraint failed: links.id"));
    let rows = store.list_recent(10).unwrap();
    assert_eq!(rows.len(), 1);
}

#[test]
fn listing_is_newest_first() {
    let mut store = LinkStore::new();
    store.migrate().unwrap();
    store.insert(link("a", "https://a.example", 1)).unwrap();
    store.insert(link("b", "https://b.example", 2)).unwrap();
    store.insert(link("c", "https://c.example", 3)).unwrap();
    let rows = store.list_recent(10).unwrap();
    let urls: Vec<&str> = rows.iter().map(|l| l.url.as_str()).collect();
    assert_eq!(urls, vec!["https://c.example", "https://b.example", "https://a.example"]);
}

#[test]
fn listing_caps_at_the_limit() {
    let mut store = LinkStore::new();
    store.migrate().unwrap();
    for i in 0..11u64 {
        let id = format!("id-{}", i);
        let url = format!("https://{}.example", i);
        store.insert(Link { id, url, created_at: i }).unwrap();
    }
    let rows = store.list_recent(10).unwrap();
    assert_eq!(rows.len(), 10);
    assert_eq!(rows[0].url, "https://10.example");
    assert_eq!(rows[9].url, "https://1.example");
    for w in rows.windows(2) {
        assert!(w[0].created_at >= w[1].created_at);
    }
}

#[test]
fn listing_an_empty_store_is_empty() {
    let mut store = LinkStore::new();
    store.migrate().unwrap();
    let rows = store.list_recent(10).unwrap();
    assert_eq!(rows.len(), 0);
}
