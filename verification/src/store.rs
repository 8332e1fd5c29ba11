//! The persistence layer: the `links` table as a store of `Link` rows with a
//! unique primary key `id`, a unique index on `url`, and ordered selection by
//! `created_at` descending. Migration is idempotent; insertion rejects
//! duplicates; selection returns the newest rows first.
use vstd::prelude::*;
use vstd::string::StringExecFns;

use crate::error::Error;
use crate::text::str_eq;

verus! {

/// A persisted bookmark: a generated immutable `id`, an absolute URL unique
/// across all links, and the creation timestamp (microseconds since the
/// epoch) that orders the listing.
pub struct Link {
    pub id: String,
    pub url: String,
    pub created_at: u64,
}

impl Clone for Link {
    fn clone(&self) -> (r: Self)
        ensures
            r == *self,
    {
        Link { id: self.id.clone(), url: self.url.clone(), created_at: self.created_at }
    }
}

/// Rows are ordered newest first.
pub open spec fn sorted_desc(s: Seq<Link>) -> bool {
    forall|i: int, j: int| 0 <= i < j < s.len() ==> s[i].created_at >= s[j].created_at
}

/// Some row holds this URL.
pub open spec fn has_url(s: Seq<Link>, url: Seq<char>) -> bool {
    exists|i: int| 0 <= i < s.len() && s[i].url@ == url
}

/// Some row holds this id.
pub open spec fn has_id(s: Seq<Link>, id: Seq<char>) -> bool {
    exists|i: int| 0 <= i < s.len() && s[i].id@ == id
}

/// No two rows share a URL: the unique index on `url`.
pub open spec fn unique_urls(s: Seq<Link>) -> bool {
    forall|i: int, j: int| 0 <= i < j < s.len() ==> s[i].url@ != s[j].url@
}

/// No two rows share an id: the primary key.
pub open spec fn unique_ids(s: Seq<Link>) -> bool {
    forall|i: int, j: int| 0 <= i < j < s.len() ==> s[i].id@ != s[j].id@
}

/// How many rows hold this URL.
pub open spec fn count_url(s: Seq<Link>, url: Seq<char>) -> nat
    decreases s.len(),
{
    if s.len() == 0 {
        0
    } else {
        (if s[0].url@ == url {
            1nat
        } else {
            0nat
        }) + count_url(s.drop_first(), url)
    }
}

/// The index where a row with timestamp `ts` lands: after every row at least
/// as new, before the first strictly older row, so the order stays newest
/// first and rows of equal age keep their insertion order.
pub open spec fn insert_pos(s: Seq<Link>, ts: u64) -> int
    decreases s.len(),
{
    if s.len() == 0 {
        0
    } else if s[0].created_at < ts {
        0
    } else {
        1 + insert_pos(s.drop_first(), ts)
    }
}

/// The rows after a successful insertion of `l`.
pub open spec fn spec_insert(s: Seq<Link>, l: Link) -> Seq<Link> {
    s.insert(insert_pos(s, l.created_at), l)
}

/// The first `limit` rows, or all of them if there are fewer.
pub open spec fn spec_listed(s: Seq<Link>, limit: int) -> Seq<Link> {
    if limit <= s.len() {
        s.take(limit)
    } else {
        s
    }
}

pub proof fn lemma_insert_pos_props(s: Seq<Link>, ts: u64)
    ensures
        0 <= insert_pos(s, ts) <= s.len(),
        forall|i: int| 0 <= i < insert_pos(s, ts) ==> s[i].created_at >= ts,
        insert_pos(s, ts) < s.len() ==> s[insert_pos(s, ts)].created_at < ts,
    decreases s.len(),
{
    if s.len() == 0 {
    } else if s[0].created_at < ts {
    } else {
        lemma_insert_pos_props(s.drop_first(), ts);
        assert forall|i: int| 0 <= i < insert_pos(s, ts) implies s[i].created_at >= ts by {
            if i > 0 {
                assert(s.drop_first()[i - 1] == s[i]);
            }
        }
        if insert_pos(s, ts) < s.len() {
            assert(s.drop_first()[insert_pos(s.drop_first(), ts)] == s[insert_pos(s, ts)]);
        }
    }
}

pub proof fn lemma_insert_pos_unique(s: Seq<Link>, ts: u64, pos: int)
    requires
        0 <= pos <= s.len(),
        forall|i: int| 0 <= i < pos ==> s[i].created_at >= ts,
        pos < s.len() ==> s[pos].created_at < ts,
    ensures
        pos == insert_pos(s, ts),
    decreases s.len(),
{
    if s.len() == 0 {
    } else if s[0].created_at < ts {
        if pos > 0 {
            assert(s[0].created_at >= ts);
        }
    } else {
        assert(s[0].created_at >= ts);
        assert(pos >= 1) by {
            if pos == 0 {
                assert(s[pos].created_at < ts);
            }
        }
        assert forall|i: int| 0 <= i < pos - 1 implies s.drop_first()[i].created_at >= ts by {
            assert(s.drop_first()[i] == s[i + 1]);
        }
        if pos - 1 < s.drop_first().len() {
            assert(s.drop_first()[pos - 1] == s[pos]);
        }
        lemma_insert_pos_unique(s.drop_first(), ts, pos - 1);
    }
}

/// Inserting a row at its position keeps the order newest first, keeps both
/// uniqueness invariants when the row is fresh, and grows the store by one.
pub proof fn lemma_spec_insert_props(s: Seq<Link>, l: Link)
    requires
        sorted_desc(s),
    ensures
        sorted_desc(spec_insert(s, l)),
        unique_urls(s) && !has_url(s, l.url@) ==> unique_urls(spec_insert(s, l)),
        unique_ids(s) && !has_id(s, l.id@) ==> unique_ids(spec_insert(s, l)),
        spec_insert(s, l).len() == s.len() + 1,
        spec_insert(s, l)[insert_pos(s, l.created_at)] == l,
        forall|u: Seq<char>|
            has_url(spec_insert(s, l), u) <==> has_url(s, u) || u == l.url@,
{
    lemma_insert_pos_props(s, l.created_at);
    let pos = insert_pos(s, l.created_at);
    let t = spec_insert(s, l);
    s.insert_ensures(pos, l);
    assert forall|i: int, j: int| 0 <= i < j < t.len() implies t[i].created_at
        >= t[j].created_at by {
        if i < pos && j < pos {
        } else if i < pos && j == pos {
        } else if i == pos && j > pos {
            assert(t[j] == s[j - 1]);
            if j - 1 >= pos && pos < s.len() {
                assert(s[pos].created_at < l.created_at);
            }
        } else if i < pos && j > pos {
            assert(t[j] == s[j - 1]);
        } else if i > pos && j > pos {
            assert(t[i] == s[i - 1]);
            assert(t[j] == s[j - 1]);
        }
    }
    if unique_urls(s) && !has_url(s, l.url@) {
        assert forall|i: int, j: int| 0 <= i < j < t.len() implies t[i].url@ != t[j].url@ by {
            if i != pos && j != pos {
                let si: int = if i < pos { i } else { i - 1 };
                let sj: int = if j < pos { j } else { j - 1 };
                assert(t[i] == s[si]);
                assert(t[j] == s[sj]);
            } else if i == pos {
                assert(t[j] == s[j - 1]);
            } else {
                assert(t[i] == s[i]);
            }
        }
    }
    if unique_ids(s) && !has_id(s, l.id@) {
        assert forall|i: int, j: int| 0 <= i < j < t.len() implies t[i].id@ != t[j].id@ by {
            if i != pos && j != pos {
                let si: int = if i < pos { i } else { i - 1 };
                let sj: int = if j < pos { j } else { j - 1 };
                assert(t[i] == s[si]);
                assert(t[j] == s[sj]);
            } else if i == pos {
                assert(t[j] == s[j - 1]);
            } else {
                assert(t[i] == s[i]);
            }
        }
    }
    assert forall|u: Seq<char>|
        has_url(t, u) <==> has_url(s, u) || u == l.url@ by {
        if has_url(s, u) {
            let i = choose|i: int| 0 <= i < s.len() && s[i].url@ == u;
            let ti: int = if i < pos { i } else { i + 1 };
            assert(t[ti] == s[i]);
        }
        if has_url(t, u) && u != l.url@ {
            let i = choose|i: int| 0 <= i < t.len() && t[i].url@ == u;
            let si: int = if i < pos { i } else { i - 1 };
            assert(t[i] == s[si]);
        }
    }
}

/// In a store whose URLs are unique, a URL occurs exactly once when present
/// and never otherwise.
pub proof fn lemma_count_url_unique(s: Seq<Link>, url: Seq<char>)
    requires
        unique_urls(s),
    ensures
        has_url(s, url) ==> count_url(s, url) == 1,
        !has_url(s, url) ==> count_url(s, url) == 0,
    decreases s.len(),
{
    if s.len() == 0 {
    } else {
        let rest = s.drop_first();
        assert forall|i: int, j: int| 0 <= i < j < rest.len() implies rest[i].url@
            != rest[j].url@ by {
            assert(rest[i] == s[i + 1]);
            assert(rest[j] == s[j + 1]);
        }
        lemma_count_url_unique(rest, url);
        if s[0].url@ == url {
            assert(!has_url(rest, url)) by {
                if has_url(rest, url) {
                    let i = choose|i: int| 0 <= i < rest.len() && rest[i].url@ == url;
                    assert(rest[i] == s[i + 1]);
                }
            }
        } else {
            if has_url(s, url) {
                let i = choose|i: int| 0 <= i < s.len() && s[i].url@ == url;
                assert(rest[i - 1] == s[i]);
                assert(has_url(rest, url));
            }
            if has_url(rest, url) {
                let i = choose|i: int| 0 <= i < rest.len() && rest[i].url@ == url;
                assert(rest[i] == s[i + 1]);
                assert(has_url(s, url));
            }
        }
    }
}

/// Law: after a successful insert of a link whose URL is distinct from every
/// stored one and whose timestamp is newer than every stored one, a listing
/// of any positive limit contains exactly one row with that URL.
pub proof fn lemma_submitted_url_listed(s: Seq<Link>, l: Link, limit: int)
    requires
        sorted_desc(s),
        unique_urls(s),
        !has_url(s, l.url@),
        forall|i: int| 0 <= i < s.len() ==> s[i].created_at < l.created_at,
        1 <= limit,
    ensures
        count_url(spec_listed(spec_insert(s, l), limit), l.url@) == 1,
{
    lemma_insert_pos_unique(s, l.created_at, 0);
    lemma_spec_insert_props(s, l);
    let t = spec_insert(s, l);
    s.insert_ensures(0, l);
    assert(t[0] == l);
    let listed = spec_listed(t, limit);
    assert(listed[0] == t[0]);
    assert forall|i: int, j: int| 0 <= i < j < listed.len() implies listed[i].url@
        != listed[j].url@ by {
        assert(listed[i] == t[i]);
        assert(listed[j] == t[j]);
    }
    assert(has_url(listed, l.url@));
    lemma_count_url_unique(listed, l.url@);
}

/// Law: when no two rows share a timestamp, a listing is strictly ordered
/// by `created_at` descending.
pub proof fn lemma_listing_strictly_ordered(s: Seq<Link>, limit: int)
    requires
        0 <= limit,
        sorted_desc(s),
        forall|i: int, j: int| 0 <= i < j < s.len() ==> s[i].created_at != s[j].created_at,
    ensures
        forall|i: int, j: int|
            0 <= i < j < spec_listed(s, limit).len() ==> spec_listed(s, limit)[i].created_at
                > spec_listed(s, limit)[j].created_at,
{
    let listed = spec_listed(s, limit);
    assert forall|i: int, j: int| 0 <= i < j < listed.len() implies listed[i].created_at
        > listed[j].created_at by {
        assert(listed[i] == s[i]);
        assert(listed[j] == s[j]);
    }
}

/// The `links` table. The store keeps its rows ordered newest first with
/// unique URLs and ids; operations fail with a `Database` error until
/// `migrate` has created the table.
pub struct LinkStore {
    migrated: bool,
    links: Vec<Link>,
}

impl LinkStore {
    /// The rows of the table, newest first.
    pub closed spec fn links_seq(self) -> Seq<Link> {
        self.links@
    }

    /// Whether `migrate` has created the table.
    pub closed spec fn is_migrated(self) -> bool {
        self.migrated
    }

    /// The schema invariant: rows ordered newest first, URLs unique, ids
    /// unique.
    pub open spec fn wf(self) -> bool {
        sorted_desc(self.links_seq()) && unique_urls(self.links_seq()) && unique_ids(
            self.links_seq(),
        )
    }

    /// The store after migration: the table exists, the rows are untouched.
    pub closed spec fn with_migrated(self) -> LinkStore {
        LinkStore { migrated: true, links: self.links }
    }

    /// Law: migration is idempotent — migrating an already-migrated store
    /// changes nothing.
    pub proof fn lemma_migrate_idempotent(s: LinkStore)
        ensures
            s.with_migrated().with_migrated() == s.with_migrated(),
            s.with_migrated().links_seq() == s.links_seq(),
            s.with_migrated().is_migrated(),
    {
    }

    /// A fresh store for a database file that does not exist yet: no table,
    /// no rows.
    pub fn new() -> (r: LinkStore)
        ensures
            r.wf(),
            !r.is_migrated(),
            r.links_seq() == Seq::<Link>::empty(),
    {
        let r = LinkStore { migrated: false, links: Vec::new() };
        proof {
            assert(r.links_seq() =~= Seq::<Link>::empty());
        }
        r
    }

    /// Creates the `links` table and its unique index if absent. Safe to
    /// call on every start: re-running against a migrated store is a no-op
    /// and never an error.
    pub fn migrate(&mut self) -> (r: Result<(), Error>)
        ensures
            r is Ok,
            *final(self) == old(self).with_migrated(),
            final(self).is_migrated(),
            final(self).links_seq() == old(self).links_seq(),
            final(self).wf() == old(self).wf(),
    {
        self.migrated = true;
        Ok(())
    }

    fn contains_url(&self, url: &str) -> (r: bool)
        ensures
            r == has_url(self.links_seq(), url@),
    {
        let n = self.links.len();
        let mut i: usize = 0;
        while i < n
            invariant
                i <= n,
                n == self.links@.len(),
                forall|j: int| 0 <= j < i ==> self.links@[j].url@ != url@,
            decreases n - i,
        {
            if str_eq(self.links[i].url.as_str(), url) {
                return true;
            }
            i = i + 1;
        }
        false
    }

    fn contains_id(&self, id: &str) -> (r: bool)
        ensures
            r == has_id(self.links_seq(), id@),
    {
        let n = self.links.len();
        let mut i: usize = 0;
        while i < n
            invariant
                i <= n,
                n == self.links@.len(),
                forall|j: int| 0 <= j < i ==> self.links@[j].id@ != id@,
            decreases n - i,
        {
            if str_eq(self.links[i].id.as_str(), id) {
                return true;
            }
            i = i + 1;
        }
        false
    }

    /// Inserts a new row. Fails with a `Database` error when the table is
    /// missing or when the unique constraint on `url` or the primary key on
    /// `id` is violated, leaving the store unchanged; on success the row
    /// lands at its ordered position and the count of affected rows is 1.
    pub fn insert(&mut self, link: Link) -> (r: Result<u64, Error>)
        requires
            old(self).wf(),
        ensures
            final(self).wf(),
            final(self).is_migrated() == old(self).is_migrated(),
            !old(self).is_migrated() ==> (r matches Err(Error::Database(m)) && m@
                == "no such table: links"@ && *final(self) == *old(self)),
            old(self).is_migrated() && has_url(old(self).links_seq(), link.url@) ==> (r matches Err(
                Error::Database(m),
            ) && m@ == "UNIQUE constraint failed: links.url"@ && *final(self) == *old(self)),
            old(self).is_migrated() && !has_url(old(self).links_seq(), link.url@) && has_id(
                old(self).links_seq(),
                link.id@,
            ) ==> (r matches Err(Error::Database(m)) && m@ == "UNIQUE constraint failed: links.id"@
                && *final(self) == *old(self)),
            old(self).is_migrated() && !has_url(old(self).links_seq(), link.url@) && !has_id(
                old(self).links_seq(),
                link.id@,
            ) ==> r == Ok::<u64, Error>(1u64) && final(self).links_seq() == spec_insert(
                old(self).links_seq(),
                link,
            ),
    {
        if !self.migrated {
            return Err(Error::Database(String::from_str("no such table: links")));
        }
        if self.contains_url(link.url.as_str()) {
            return Err(Error::Database(String::from_str("UNIQUE constraint failed: links.url")));
        }
        if self.contains_id(link.id.as_str()) {
            return Err(Error::Database(String::from_str("UNIQUE constraint failed: links.id")));
        }
        let n = self.links.len();
        let mut pos: usize = 0;
        while pos < n && self.links[pos].created_at >= link.created_at
            invariant
                pos <= n,
                n == self.links@.len(),
                forall|j: int| 0 <= j < pos ==> self.links@[j].created_at >= link.created_at,
            decreases n - pos,
        {
            pos = pos + 1;
        }
        proof {
            lemma_insert_pos_unique(self.links@, link.created_at, pos as int);
            lemma_spec_insert_props(self.links@, link);
        }
        self.links.insert(pos, link);
        Ok(1)
    }

    /// Returns the newest rows, ordered by `created_at` descending and
    /// limited to `limit` rows; an empty store yields an empty list. Fails
    /// only when the table is missing.
    pub fn list_recent(&self, limit: usize) -> (r: Result<Vec<Link>, Error>)
        requires
            self.wf(),
        ensures
            !self.is_migrated() ==> (r matches Err(Error::Database(m)) && m@
                == "no such table: links"@),
            self.is_migrated() ==> (r matches Ok(v) && v@ == spec_listed(
                self.links_seq(),
                limit as int,
            ) && v@.len() <= limit && sorted_desc(v@)),
    {
        if !self.migrated {
            return Err(Error::Database(String::from_str("no such table: links")));
        }
        let n = self.links.len();
        let count = if limit <= n {
            limit
        } else {
            n
        };
        let mut v: Vec<Link> = Vec::new();
        let mut i: usize = 0;
        while i < count
            invariant
                i <= count <= n,
                n == self.links@.len(),
                v@ =~= self.links@.take(i as int),
            decreases count - i,
        {
            v.push(self.links[i].clone());
            proof {
                assert(v@ =~= self.links@.take(i + 1 as int));
            }
            i = i + 1;
        }
        proof {
            if limit as int <= self.links@.len() {
                assert(v@ =~= spec_listed(self.links_seq(), limit as int));
            } else {
                assert(v@ =~= self.links@);
            }
        }
        Ok(v)
    }
}

} // verus!
