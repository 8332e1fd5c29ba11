use links::error::Error;
use links::error::StorageFault;
use links::route::Dispatch;
use links::route::Route;
use links::route::dispatch;

#[test]
fn route_patterns() {
    assert_eq!(Route::Home.path(), "/");
    assert_eq!(Route::File.path(), "/pub/*file");
}

#[test]
fn home_routes_dispatch_by_method() {
    assert!(matches!(dispatch("GET", "/"), Dispatch::Home));
    assert!(matches!(dispatch("POST", "/"), Dispatch::AddLink));
}

#[test]
fn asset_route_strips_the_prefix() {
    let d = dispatch("GET", "/pub/app.css");
    assert!(matches!(d, Dispatch::Asset(f) if f == "app.css"));
    let nested = dispatch("GET", "/pub/js/app.js");
    assert!(matches!(nested, Dispatch::Asset(f) if f == "js/app.js"));
}

#[test]
fn unmatched_paths_fall_through_regardless_of_method() {
    assert!(matches!(dispatch("GET", "/nope"), Dispatch::NotFound));
    assert!(matches!(dispatch("POST", "/nope"), Dispatch::NotFound));
    assert!(matches!(dispatch("DELETE", "/"), Dispatch::NotFound));
    assert!(matches!(dispatch("POST", "/pub/app.css"), Dispatch::NotFound));
    assert!(matches!(dispatch("GET", "/pub"), Dispatch::NotFound));
    assert!(matches!(dispatch("GET", ""), Dispatch::NotFound));
}

#[test]
fn error_responses_carry_the_status() {
    let (status, body) = Error::NotFound.response_parts();
    assert_eq!(status, 404);
    assert_eq!(body, "not found");
    let (status, body) = Error::Database("boom".to_string()).response_parts();
    assert_eq!(status, 500);
    assert_eq!(body, "internal server error");
}

#[test]
fn storage_faults_map_into_the_taxonomy() {
    assert!(matches!(Error::from_fault(StorageFault::RowNotFound), Error::NotFound));
    let r = Error::from_fault(StorageFault::Database("locked".to_string()));
    assert!(matches!(r, Error::Database(m) if m == "locked"));
    assert!(matches!(Error::from_fault(StorageFault::ConnectionClosed), Error::Database(_)));
    assert!(matches!(Error::from_fault(StorageFault::MissingFrom), Error::Database(_)));
    assert!(matches!(
        Error::from_fault(StorageFault::InsertError("bad".to_string())),
        Error::Database(m) if m == "bad"
    ));
    assert!(matches!(
        Error::from_fault(StorageFault::SqlConversion("bad".to_string())),
        Error::Database(m) if m == "bad"
    ));
    assert!(matches!(
        Error::from_fault(StorageFault::Close("bad".to_string())),
        Error::Database(m) if m == "bad"
    ));
}
