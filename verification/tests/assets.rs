use links::assets::Files;
use links::assets::StaticFile;
use links::error::Error;

fn bundle() -> Files {
    let mut files = Files::new();
    assert!(files.add("app.css".to_string(), b"body { margin: 0 }".to_vec()));
    assert!(files.add("htmx.org@1.9.5.js".to_string(), b"(function(){})()".to_vec()));
    assert!(files.add("data.qqq".to_string(), vec![1, 2, 3]));
    files
}

#[test]
fn missing_asset_is_not_found() {
    let files = bundle();
    let r = StaticFile("does-not-exist.js".to_string()).maybe_response(&files);
    assert!(matches!(r, Err(Error::NotFound)));
    let resp = StaticFile("does-not-exist.js".to_string()).into_response(&files);
    assert_eq!(resp.status, 404);
    assert_eq!(resp.body, b"not found".to_vec());
}

#[test]
fn known_asset_is_served_with_type_and_cache() {
    let files = bundle();
    let resp = StaticFile("app.css".to_string()).into_response(&files);
    assert_eq!(resp.status, 200);
    assert_eq!(resp.content_type, "text/css");
    assert_eq!(resp.cache_control, "public, max-age=604800");
    assert_eq!(resp.body, b"body { margin: 0 }".to_vec());
}

#[test]
fn javascript_asset_gets_its_content_type() {
    let files = bundle();
    let resp = StaticFile("htmx.org@1.9.5.js".to_string()).into_response(&files);
    assert_eq!(resp.status, 200);
    assert_eq!(resp.content_type, "text/javascript");
    assert_eq!(resp.body, b"(function(){})()".to_vec());
}

#[test]
fn unknown_extension_defaults_to_octet_stream() {
    let files = bundle();
    let resp = StaticFile("data.qqq".to_string()).into_response(&files);
    assert_eq!(resp.status, 200);
    assert_eq!(resp.content_type, "application/octet-stream");
    assert_eq!(resp.body, vec![1, 2, 3]);
}

#[test]
fn packaging_keeps_the_first_of_a_name() {
    let mut files = Files::new();
    assert!(files.add("app.css".to_string(), b"first".to_vec()));
    assert!(!files.add("app.css".to_string(), b"second".to_vec()));
    let resp = StaticFile("app.css".to_string()).into_response(&files);
    assert_eq!(resp.body, b"first".to_vec());
}
