//! The static-asset server: a read-only asset bundle fixed before requests
//! are served, lookup of a request path in it, content-type inference from
//! the file extension, and a long-lived public cache directive.
use vstd::prelude::*;
use vstd::string::StringSliceAdditionalSpecFns;
use vstd::string::StrSliceExecFns;
use vstd::string::StringExecFns;

use crate::error::Error;
use crate::text::str_eq;

verus! {

/// The content type inferred from a path's file extension,
/// `application/octet-stream` when the extension is unknown.
pub uninterp spec fn mime_of(path: Seq<char>) -> Seq<char>;

/// Relies on `mime_guess::from_path` and `MimeGuess::first_or_octet_stream`:
/// the content type inferred from the path's extension alone, from a fixed
/// table, with `application/octet-stream` when no type is known.
#[verifier::external_body]
fn guess_mime(path: &str) -> (r: String)
    ensures
        r@ == mime_of(path@),
{
    mime_guess::from_path(path).first_or_octet_stream().as_ref().to_owned()
}

fn copy_bytes(data: &Vec<u8>) -> (r: Vec<u8>)
    ensures
        r@ == data@,
{
    let n = data.len();
    let mut out: Vec<u8> = Vec::new();
    let mut i: usize = 0;
    while i < n
        invariant
            i <= n,
            n == data@.len(),
            out@ =~= data@.take(i as int),
        decreases n - i,
    {
        out.push(data[i]);
        proof {
            assert(out@ =~= data@.take(i + 1 as int));
        }
        i = i + 1;
    }
    proof {
        assert(data@.take(n as int) =~= data@);
    }
    out
}

/// The compiled-in read-only asset bundle: a map from file names to their
/// bytes, packaged before requests are served and immutable afterwards.
pub struct Files {
    entries: Vec<(String, Vec<u8>)>,
}

impl Files {
    /// The packaged entries, in the order they were added.
    pub closed spec fn entries_seq(self) -> Seq<(String, Vec<u8>)> {
        self.entries@
    }

    /// Whether the bundle holds a file of this name.
    pub open spec fn has_asset(self, name: Seq<char>) -> bool {
        exists|i: int|
            0 <= i < self.entries_seq().len() && self.entries_seq()[i].0@ == name
    }

    /// The bytes of the named file, when the bundle holds it.
    pub open spec fn asset_bytes(self, name: Seq<char>) -> Seq<u8> {
        let i = choose|i: int|
            0 <= i < self.entries_seq().len() && self.entries_seq()[i].0@ == name;
        self.entries_seq()[i].1@
    }

    /// No two entries share a name.
    pub open spec fn wf(self) -> bool {
        forall|i: int, j: int|
            0 <= i < j < self.entries_seq().len() ==> self.entries_seq()[i].0@
                != self.entries_seq()[j].0@
    }

    /// An empty bundle.
    pub fn new() -> (r: Files)
        ensures
            r.wf(),
            r.entries_seq() == Seq::<(String, Vec<u8>)>::empty(),
            forall|n: Seq<char>| !r.has_asset(n),
    {
        let r = Files { entries: Vec::new() };
        proof {
            assert(r.entries_seq() =~= Seq::<(String, Vec<u8>)>::empty());
        }
        r
    }

    /// Packages one file into the bundle. A name already present is kept as
    /// it was: the first packaging wins and the call returns `false`.
    pub fn add(&mut self, name: String, data: Vec<u8>) -> (r: bool)
        requires
            old(self).wf(),
        ensures
            final(self).wf(),
            r == !old(self).has_asset(name@),
            r ==> final(self).entries_seq() == old(self).entries_seq().push((name, data)),
            !r ==> *final(self) == *old(self),
            final(self).has_asset(name@),
            forall|n: Seq<char>|
                final(self).has_asset(n) <==> old(self).has_asset(n) || n == name@,
    {
        if self.contains(name.as_str()) {
            return false;
        }
        let ghost gname = name@;
        let ghost gpair = (name, data);
        self.entries.push((name, data));
        proof {
            let prev = old(self).entries_seq();
            let cur = self.entries_seq();
            assert(cur == prev.push(gpair));
            assert(cur.len() == prev.len() + 1);
            assert(prev.push(gpair)[prev.len() as int] == gpair);
            assert(cur[prev.len() as int].0@ == gname);
            assert forall|i: int| 0 <= i < prev.len() implies cur[i] == prev[i] by {
                assert(prev.push(gpair)[i] == prev[i]);
            }
            assert forall|i: int, j: int| 0 <= i < j < cur.len() implies cur[i].0@
                != cur[j].0@ by {
                if j < prev.len() {
                } else {
                    if prev[i].0@ == gname {
                        assert(old(self).has_asset(gname));
                    }
                }
            }
            assert forall|n: Seq<char>| self.has_asset(n) <==> (old(self).has_asset(n) || n
                == gname) by {
                if old(self).has_asset(n) {
                    let i = choose|i: int| 0 <= i < prev.len() && prev[i].0@ == n;
                    assert(cur[i].0@ == n);
                    assert(self.has_asset(n));
                }
                if n == gname {
                    assert(cur[prev.len() as int].0@ == n);
                    assert(self.has_asset(n));
                }
                if self.has_asset(n) {
                    let i = choose|i: int| 0 <= i < cur.len() && cur[i].0@ == n;
                    if i < prev.len() {
                        assert(prev[i].0@ == n);
                        assert(old(self).has_asset(n));
                    } else {
                        assert(n == gname);
                    }
                }
            }
        }
        true
    }

    fn contains(&self, name: &str) -> (r: bool)
        ensures
            r == self.has_asset(name@),
    {
        let n = self.entries.len();
        let mut i: usize = 0;
        while i < n
            invariant
                i <= n,
                n == self.entries@.len(),
                forall|j: int| 0 <= j < i ==> self.entries@[j].0@ != name@,
            decreases n - i,
        {
            if str_eq(self.entries[i].0.as_str(), name) {
                proof {
                    assert(self.entries_seq()[i as int].0@ == name@);
                }
                return true;
            }
            i = i + 1;
        }
        false
    }

    /// Looks a file name up in the bundle: its bytes when present, nothing
    /// otherwise.
    pub fn get(&self, name: &str) -> (r: Option<&Vec<u8>>)
        requires
            self.wf(),
        ensures
            self.has_asset(name@) ==> (r matches Some(b) && b@ == self.asset_bytes(name@)),
            !self.has_asset(name@) ==> r is None,
    {
        let n = self.entries.len();
        let mut i: usize = 0;
        while i < n
            invariant
                i <= n,
                n == self.entries@.len(),
                self.wf(),
                forall|j: int| 0 <= j < i ==> self.entries@[j].0@ != name@,
            decreases n - i,
        {
            if str_eq(self.entries[i].0.as_str(), name) {
                proof {
                    let found: int = i as int;
                    assert(self.entries_seq()[found].0@ == name@);
                    let j = choose|j: int|
                        0 <= j < self.entries_seq().len() && self.entries_seq()[j].0@ == name@;
                    if j < found {
                        assert(self.entries_seq()[j].0@ != self.entries_seq()[found].0@);
                    }
                    if found < j {
                        assert(self.entries_seq()[found].0@ != self.entries_seq()[j].0@);
                    }
                    assert(j == found);
                    assert(self.asset_bytes(name@) == self.entries_seq()[found].1@);
                }
                return Some(&self.entries[i].1);
            }
            i = i + 1;
        }
        None
    }
}

/// An HTTP response for a static asset, or the not-found answer: status,
/// content type, cache directive and raw body bytes.
pub struct AssetResponse {
    pub status: u16,
    pub content_type: String,
    pub cache_control: String,
    pub body: Vec<u8>,
}

/// A request for one embedded file, named by the request path with the
/// asset prefix already stripped.
pub struct StaticFile(pub String);

impl StaticFile {
    /// Resolves the request against the bundle: the file's bytes with the
    /// inferred content type and a public one-week cache directive when the
    /// bundle holds it, `NotFound` otherwise.
    pub fn maybe_response(&self, files: &Files) -> (r: Result<AssetResponse, Error>)
        requires
            files.wf(),
        ensures
            files.has_asset(self.0@) ==> (r matches Ok(a) && a.status == 200 && a.content_type@
                == mime_of(self.0@) && a.cache_control@ == "public, max-age=604800"@ && a.body@
                == files.asset_bytes(self.0@)),
            !files.has_asset(self.0@) ==> (r matches Err(e) && e is NotFound),
    {
        match files.get(self.0.as_str()) {
            None => Err(Error::NotFound),
            Some(data) => {
                let body = copy_bytes(data);
                let mime = guess_mime(self.0.as_str());
                Ok(
                    AssetResponse {
                        status: 200,
                        content_type: mime,
                        cache_control: String::from_str("public, max-age=604800"),
                        body,
                    },
                )
            },
        }
    }

    /// Resolves the request and turns a missing file into the plain
    /// not-found response.
    pub fn into_response(self, files: &Files) -> (r: AssetResponse)
        requires
            files.wf(),
        ensures
            files.has_asset(self.0@) ==> r.status == 200 && r.content_type@ == mime_of(self.0@)
                && r.cache_control@ == "public, max-age=604800"@ && r.body@ == files.asset_bytes(
                self.0@,
            ),
            !files.has_asset(self.0@) ==> r.status == 404 && r.body@ == "not found".spec_bytes(),
    {
        match self.maybe_response(files) {
            Ok(resp) => resp,
            Err(_) => AssetResponse {
                status: 404,
                content_type: String::from_str("text/plain; charset=utf-8"),
                cache_control: String::new(),
                body: "not found".as_bytes_vec(),
            },
        }
    }
}

} // verus!
