//! The router: the closed enumeration of logical routes with their path
//! patterns, and the dispatcher that maps an inbound method and path to the
//! handler to run, with a catch-all for everything unmatched.
use vstd::prelude::*;
use vstd::string::StrSliceExecFns;
use vstd::string::StringExecFns;

use crate::text::is_prefix;
use crate::text::str_eq;
use crate::text::str_starts_with;

verus! {

/// A declared logical endpoint: the home page, or the asset passthrough.
pub enum Route {
    Home,
    File,
}

impl Route {
    /// The path pattern the route is mapped to: an exact match for the home
    /// page, one wildcard pattern for the asset passthrough.
    pub fn path(&self) -> (r: &'static str)
        ensures
            *self is Home ==> r@ == "/"@,
            *self is File ==> r@ == "/pub/*file"@,
    {
        match self {
            Route::Home => "/",
            Route::File => "/pub/*file",
        }
    }
}

/// The dispatcher's selection for one request: which handler runs. For the
/// asset passthrough it carries the request path with the asset prefix
/// stripped; `NotFound` is the catch-all and no handler runs for it.
pub enum Dispatch {
    Home,
    AddLink,
    Asset(String),
    NotFound,
}

/// Selects the handler for an inbound method and path: `GET /` renders the
/// home page, `POST /` submits a link, `GET /pub/...` serves the named
/// asset, and anything else — any path matching no declared route, whatever
/// its method — falls through to `NotFound`.
pub fn dispatch(method: &str, path: &str) -> (r: Dispatch)
    ensures
        r is Home <==> method@ == "GET"@ && path@ == "/"@,
        r is AddLink <==> method@ == "POST"@ && path@ == "/"@,
        r is Asset <==> method@ == "GET"@ && is_prefix(path@, "/pub/"@),
        r matches Dispatch::Asset(f) ==> f@ == path@.subrange(5, path@.len() as int),
        r is NotFound <==> !(path@ == "/"@ && (method@ == "GET"@ || method@ == "POST"@)) && !(
        method@ == "GET"@ && is_prefix(path@, "/pub/"@)),
{
    proof {
        reveal_strlit("GET");
        reveal_strlit("POST");
        reveal_strlit("/");
        reveal_strlit("/pub/");
        assert("GET"@.len() == 3 && "POST"@.len() == 4 && "/"@.len() == 1 && "/pub/"@.len() == 5);
        assert("GET"@ != "POST"@);
    }
    let is_get = str_eq(method, "GET");
    let is_home_path = str_eq(path, "/");
    if is_get && is_home_path {
        return Dispatch::Home;
    }
    if str_eq(method, "POST") && is_home_path {
        return Dispatch::AddLink;
    }
    if is_get && str_starts_with(path, "/pub/") {
        let n = path.unicode_len();
        let name = path.substring_char(5, n);
        return Dispatch::Asset(String::from_str(name));
    }
    Dispatch::NotFound
}

} // verus!
