//! The request handlers: the home page, the link submission with its URL
//! validation, and the catch-all. Each handler turns the store's state into
//! a rendered document, a redirect, or a typed error for the dispatcher to
//! convert into an HTTP response.
use vstd::prelude::*;
use vstd::string::StringExecFns;

use crate::error::Error;
use crate::render::Component;
use crate::render::home_body_html;
use crate::render::page_html;
use crate::render::render;
use crate::store::Link;
use crate::store::LinkStore;
use crate::store::has_url;
use crate::store::spec_insert;
use crate::store::spec_listed;
use crate::text::is_prefix;
use crate::text::str_starts_with;

verus! {

/// The validation the submission handler applies: the URL must carry the
/// `https://` scheme.
pub open spec fn valid_url(url: Seq<char>) -> bool {
    is_prefix(url, "https://"@)
}

/// Whether a submitted URL passes validation.
pub fn url_is_valid(url: &str) -> (r: bool)
    ensures
        r == valid_url(url@),
{
    str_starts_with(url, "https://")
}

/// The message shown when validation fails.
pub open spec fn validation_message() -> Seq<char> {
    "Url needs to start with https://"@
}

/// How many links the home page lists.
pub open spec fn list_limit() -> int {
    10
}

/// A successful handler answer: a rendered HTML document, or a redirect to
/// a path.
pub enum SubmitResponse {
    Html(String),
    Redirect(String),
}

/// Renders the home page: the submission form with no validation message,
/// followed by the newest stored links. Fails only when the store does.
pub fn home(store: &LinkStore) -> (r: Result<String, Error>)
    requires
        store.wf(),
    ensures
        store.is_migrated() ==> (r matches Ok(h) && h@ == page_html(
            home_body_html(None, spec_listed(store.links_seq(), list_limit())),
        )),
        !store.is_migrated() ==> (r matches Err(Error::Database(m)) && m@
            == "no such table: links"@),
{
    let links = match store.list_recent(10) {
        Ok(v) => v,
        Err(e) => {
            return Err(e);
        },
    };
    let component = Component::HomePage { error: None, links };
    Ok(render(&component))
}

/// Handles a submission whose identifier and timestamp are already fixed.
/// An invalid URL re-renders the home page with the validation message and
/// the unchanged list, inserting nothing; a valid one inserts the link and
/// redirects to the home route, or surfaces the store's error unchanged.
pub fn add_link_with(store: &mut LinkStore, url: String, id: String, created_at: u64) -> (r:
    Result<SubmitResponse, Error>)
    requires
        old(store).wf(),
    ensures
        final(store).wf(),
        final(store).is_migrated() == old(store).is_migrated(),
        !valid_url(url@) && old(store).is_migrated() ==> (*final(store) == *old(store) && (
        r matches Ok(SubmitResponse::Html(h)) && h@ == page_html(
            home_body_html(
                Some(validation_message()),
                spec_listed(old(store).links_seq(), list_limit()),
            ),
        ))),
        !old(store).is_migrated() ==> (*final(store) == *old(store) && (r matches Err(
            Error::Database(m),
        ) && m@ == "no such table: links"@)),
        valid_url(url@) && old(store).is_migrated() && has_url(old(store).links_seq(), url@)
            ==> (*final(store) == *old(store) && (r matches Err(Error::Database(m)) && m@
            == "UNIQUE constraint failed: links.url"@)),
        valid_url(url@) && old(store).is_migrated() && !has_url(old(store).links_seq(), url@)
            && crate::store::has_id(old(store).links_seq(), id@) ==> (*final(store) == *old(store)
            && (r matches Err(Error::Database(m)) && m@ == "UNIQUE constraint failed: links.id"@)),
        valid_url(url@) && old(store).is_migrated() && !has_url(old(store).links_seq(), url@)
            && !crate::store::has_id(old(store).links_seq(), id@) ==> (final(store).links_seq()
            == spec_insert(
            old(store).links_seq(),
            (Link { id: id, url: url, created_at: created_at }),
        ) && (r matches Ok(SubmitResponse::Redirect(p)) && p@ == "/"@)),
{
    if !url_is_valid(url.as_str()) {
        let links = match store.list_recent(10) {
            Ok(v) => v,
            Err(e) => {
                return Err(e);
            },
        };
        let component = Component::HomePage {
            error: Some(String::from_str("Url needs to start with https://")),
            links,
        };
        return Ok(SubmitResponse::Html(render(&component)));
    }
    match store.insert(Link { id, url, created_at }) {
        Ok(_) => Ok(SubmitResponse::Redirect(String::from_str("/"))),
        Err(e) => Err(e),
    }
}

/// Relies on `nanoid::format` with the crate's default random source and
/// URL-safe alphabet: returns a fresh identifier of 21 characters. The
/// result is random, so nothing more is promised of it.
#[verifier::external_body]
fn fresh_id() -> (r: String)
    ensures
        r@.len() == 21,
{
    nanoid::format(nanoid::rngs::default, &nanoid::alphabet::SAFE, 21)
}

/// Relies on `std::time::SystemTime::now`: the present moment, converted to
/// microseconds since the epoch. A clock reading, so nothing is promised of
/// its value.
#[verifier::external_body]
fn now_micros() -> u64 {
    match std::time::SystemTime::now().duration_since(std::time::UNIX_EPOCH) {
        Ok(d) => d.as_micros() as u64,
        Err(_) => 0,
    }
}

/// Handles a submission: validates the URL, stamps a fresh identifier and
/// the present time, and inserts. The identifier is random, so a successful
/// submission is promised only up to a primary-key collision, which
/// surfaces as the store's own error with the store unchanged.
pub fn add_link(store: &mut LinkStore, url: String) -> (r: Result<SubmitResponse, Error>)
    requires
        old(store).wf(),
    ensures
        final(store).wf(),
        final(store).is_migrated() == old(store).is_migrated(),
        !valid_url(url@) && old(store).is_migrated() ==> (*final(store) == *old(store) && (
        r matches Ok(SubmitResponse::Html(h)) && h@ == page_html(
            home_body_html(
                Some(validation_message()),
                spec_listed(old(store).links_seq(), list_limit()),
            ),
        ))),
        !old(store).is_migrated() ==> (*final(store) == *old(store) && (r matches Err(
            Error::Database(m),
        ) && m@ == "no such table: links"@)),
        valid_url(url@) && old(store).is_migrated() && has_url(old(store).links_seq(), url@)
            ==> (*final(store) == *old(store) && (r matches Err(Error::Database(m)) && m@
            == "UNIQUE constraint failed: links.url"@)),
        valid_url(url@) && old(store).is_migrated() && !has_url(old(store).links_seq(), url@) ==> (
        (r matches Ok(SubmitResponse::Redirect(p)) && p@ == "/"@ && exists|l: Link|
            l.url == url && l.id@.len() == 21 && final(store).links_seq() == #[trigger] spec_insert(
                old(store).links_seq(),
                l,
            )) || (*final(store) == *old(store) && (r matches Err(Error::Database(m)) && m@
            == "UNIQUE constraint failed: links.id"@))),
{
    let created_at = now_micros();
    let id = fresh_id();
    let ghost glink = Link { id: id, url: url, created_at: created_at };
    let r = add_link_with(store, url, id, created_at);
    proof {
        if valid_url(glink.url@) && old(store).is_migrated() && !has_url(
            old(store).links_seq(),
            glink.url@,
        ) && !crate::store::has_id(old(store).links_seq(), glink.id@) {
            assert(store.links_seq() == spec_insert(old(store).links_seq(), glink));
        }
    }
    r
}

/// The catch-all handler: every request matching no declared route is
/// answered not found.
pub fn not_found() -> (r: Error)
    ensures
        r is NotFound,
{
    Error::NotFound
}

} // verus!
