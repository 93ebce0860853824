//! The decisions of the episode search that rehydrating runs against
//! LISTEN: which page of which status bucket to ask for next, which rows
//! of a reply to keep, and when to stop. The caller performs the requests.
use vstd::prelude::*;
use crate::upload::listen::EpisodeSummary;

verus! {

/// How many status buckets the search walks through.
pub const SEARCH_BUCKETS: usize = 3;

/// The episode status a bucket lists, in search order.
pub fn bucket_status(bucket: usize) -> (r: &'static str)
    requires
        bucket < SEARCH_BUCKETS,
    ensures
        r@ == if bucket == 0 {
            "PUBLISHED"@
        } else if bucket == 1 {
            "DRAFT"@
        } else {
            "SCHEDULED"@
        },
{
    if bucket == 0 {
        "PUBLISHED"
    } else if bucket == 1 {
        "DRAFT"
    } else {
        "SCHEDULED"
    }
}

/// `id` is one of `ids`.
pub open spec fn has_id(ids: Seq<String>, id: Seq<char>) -> bool {
    exists|i: int| 0 <= i < ids.len() && #[trigger] ids[i]@ == id
}

/// Some row of `rows` has the id `id`.
pub open spec fn has_row(rows: Seq<EpisodeSummary>, id: Seq<char>) -> bool {
    exists|i: int| 0 <= i < rows.len() && #[trigger] rows[i].id@ == id
}

/// `found` after taking in `rows` in order: a row is kept when its id is
/// wanted and no kept row has that id yet.
pub open spec fn take_in(found: Seq<EpisodeSummary>, wanted: Seq<String>, rows: Seq<EpisodeSummary>) -> Seq<EpisodeSummary>
    decreases rows.len(),
{
    if rows.len() == 0 {
        found
    } else {
        let before = take_in(found, wanted, rows.drop_last());
        let row = rows.last();
        if has_id(wanted, row.id@) && !has_row(before, row.id@) {
            before.push(row)
        } else {
            before
        }
    }
}

/// Every wanted id has been found.
pub open spec fn all_found(wanted: Seq<String>, found: Seq<EpisodeSummary>) -> bool {
    forall|i: int| 0 <= i < wanted.len() ==> has_row(found, #[trigger] wanted[i]@)
}

/// Every kept row is wanted and no id is kept twice.
pub open spec fn kept_once(found: Seq<EpisodeSummary>, wanted: Seq<String>) -> bool {
    &&& forall|i: int| 0 <= i < found.len() ==> has_id(wanted, #[trigger] found[i].id@)
    &&& forall|i: int, j: int| 0 <= i < j < found.len() ==> #[trigger] found[i].id@ != #[trigger] found[j].id@
}

/// Taking in a page keeps only wanted rows, never the same id twice, and
/// never drops or reorders what was already found.
pub proof fn take_in_keeps_rows_once(found: Seq<EpisodeSummary>, wanted: Seq<String>, rows: Seq<EpisodeSummary>)
    requires
        kept_once(found, wanted),
    ensures
        kept_once(take_in(found, wanted, rows), wanted),
        take_in(found, wanted, rows).subrange(0, found.len() as int) == found,
        found.len() <= take_in(found, wanted, rows).len(),
    decreases rows.len(),
{
    if rows.len() > 0 {
        take_in_keeps_rows_once(found, wanted, rows.drop_last());
        let before = take_in(found, wanted, rows.drop_last());
        let row = rows.last();
        if has_id(wanted, row.id@) && !has_row(before, row.id@) {
            let after = before.push(row);
            assert forall|i: int, j: int| 0 <= i < j < after.len() implies #[trigger] after[i].id@ != #[trigger] after[j].id@ by {
                if j == after.len() - 1 {
                    if after[i].id@ == after[j].id@ {
                        assert(before[i].id@ == row.id@);
                        assert(has_row(before, row.id@));
                    }
                }
            }
            assert(after.subrange(0, found.len() as int) =~= before.subrange(0, found.len() as int));
        }
    }
}

/// After a page is taken in, every wanted id on that page is among the
/// found rows, and every id found before still is: one page can resolve
/// several episodes at once.
pub proof fn take_in_finds_every_wanted_row(found: Seq<EpisodeSummary>, wanted: Seq<String>, rows: Seq<EpisodeSummary>)
    ensures
        forall|i: int| 0 <= i < rows.len() && has_id(wanted, #[trigger] rows[i].id@)
            ==> has_row(take_in(found, wanted, rows), rows[i].id@),
        forall|i: int| 0 <= i < found.len() ==> has_row(take_in(found, wanted, rows), #[trigger] found[i].id@),
    decreases rows.len(),
{
    if rows.len() > 0 {
        let front = rows.drop_last();
        take_in_finds_every_wanted_row(found, wanted, front);
        let before = take_in(found, wanted, front);
        let after = take_in(found, wanted, rows);
        let row = rows.last();
        // Whatever `before` holds, `after` holds too.
        assert forall|id: Seq<char>| has_row(before, id) implies has_row(after, id) by {
            let j = choose|j: int| 0 <= j < before.len() && #[trigger] before[j].id@ == id;
            if has_id(wanted, row.id@) && !has_row(before, row.id@) {
                assert(after[j] == before[j]);
            }
        }
        assert forall|i: int| 0 <= i < rows.len() && has_id(wanted, #[trigger] rows[i].id@)
            implies has_row(after, rows[i].id@) by {
            if i < rows.len() - 1 {
                assert(front[i] == rows[i]);
                assert(has_row(before, front[i].id@));
            } else if has_row(before, row.id@) {
            } else {
                assert(after[after.len() - 1] == row);
            }
        }
        assert forall|i: int| 0 <= i < found.len() implies has_row(after, #[trigger] found[i].id@) by {
            assert(has_row(before, found[i].id@));
        }
    } else {
        assert forall|i: int| 0 <= i < found.len() implies has_row(found, #[trigger] found[i].id@) by {
            assert(found[i].id@ == found[i].id@);
        }
    }
}

/// What the search asks for next.
#[derive(Debug, PartialEq, Eq)]
pub enum SearchStep {
    /// Request page `page` (from 1) of bucket `bucket`.
    Fetch { bucket: usize, page: u64 },
    /// Every id was found or every bucket was exhausted.
    Finished,
}

/// A search for the current summaries of a set of episode ids.
pub struct EpisodeSearch {
    wanted: Vec<String>,
    found: Vec<EpisodeSummary>,
    bucket: usize,
    page: u64,
}

impl EpisodeSearch {
    pub closed spec fn wanted_ids(self) -> Seq<String> {
        self.wanted@
    }

    /// The summaries kept so far, in the order they arrived.
    pub closed spec fn found_rows(self) -> Seq<EpisodeSummary> {
        self.found@
    }

    pub closed spec fn bucket_index(self) -> usize {
        self.bucket
    }

    pub closed spec fn page_number(self) -> u64 {
        self.page
    }

    /// A search for `ids`, starting at the first page of the first bucket.
    pub fn new(ids: Vec<String>) -> (r: Self)
        ensures
            r.wanted_ids() == ids@,
            r.found_rows() == Seq::<EpisodeSummary>::empty(),
            r.bucket_index() == 0,
            r.page_number() == 1,
    {
        EpisodeSearch { wanted: ids, found: Vec::new(), bucket: 0, page: 1 }
    }

    /// The next request, or `Finished` once every wanted id was found or
    /// the last bucket ran out of pages.
    pub fn next_step(&self) -> (r: SearchStep)
        ensures
            r == if all_found(self.wanted_ids(), self.found_rows()) || self.bucket_index() >= SEARCH_BUCKETS {
                SearchStep::Finished
            } else {
                SearchStep::Fetch { bucket: self.bucket_index(), page: self.page_number() }
            },
    {
        if self.bucket >= SEARCH_BUCKETS || self.everything_found() {
            SearchStep::Finished
        } else {
            SearchStep::Fetch { bucket: self.bucket, page: self.page }
        }
    }

    fn everything_found(&self) -> (r: bool)
        ensures
            r == all_found(self.wanted_ids(), self.found_rows()),
    {
        let mut i: usize = 0;
        while i < self.wanted.len()
            invariant
                i <= self.wanted@.len(),
                forall|k: int| 0 <= k < i ==> has_row(self.found@, #[trigger] self.wanted@[k]@),
            decreases self.wanted@.len() - i,
        {
            if !row_with_id(&self.found, &self.wanted[i]) {
                return false;
            }
            i = i + 1;
        }
        true
    }

    /// Takes in one page of a reply: keeps the wanted rows not found yet,
    /// then moves to the next page, or to the next bucket's first page when
    /// LISTEN says there are no more pages.
    pub fn absorb(&mut self, rows: Vec<EpisodeSummary>, more_pages: bool)
        requires
            more_pages ==> old(self).page_number() < u64::MAX,
            !more_pages ==> old(self).bucket_index() < usize::MAX,
        ensures
            final(self).wanted_ids() == old(self).wanted_ids(),
            final(self).found_rows() == take_in(old(self).found_rows(), old(self).wanted_ids(), rows@),
            more_pages ==> final(self).bucket_index() == old(self).bucket_index()
                && final(self).page_number() == old(self).page_number() + 1,
            !more_pages ==> final(self).bucket_index() == old(self).bucket_index() + 1
                && final(self).page_number() == 1,
    {
        let ghost found0 = self.found@;
        let mut i: usize = 0;
        while i < rows.len()
            invariant
                i <= rows@.len(),
                self.wanted@ == old(self).wanted@,
                self.bucket == old(self).bucket,
                self.page == old(self).page,
                found0 == old(self).found@,
                self.found@ == take_in(found0, self.wanted@, rows@.subrange(0, i as int)),
            decreases rows@.len() - i,
        {
            let row = &rows[i];
            proof {
                let next = rows@.subrange(0, i + 1);
                assert(next.drop_last() =~= rows@.subrange(0, i as int));
                assert(next.last() == rows@[i as int]);
            }
            if id_wanted(&self.wanted, &row.id) && !row_with_id(&self.found, &row.id) {
                self.found.push(copy_summary(row));
            }
            i = i + 1;
        }
        proof {
            assert(rows@.subrange(0, rows@.len() as int) =~= rows@);
        }
        if more_pages {
            self.page = self.page + 1;
        } else {
            self.bucket = self.bucket + 1;
            self.page = 1;
        }
    }

    /// The summaries found, in the order they arrived.
    pub fn into_found(self) -> (r: Vec<EpisodeSummary>)
        ensures
            r@ == self.found_rows(),
    {
        self.found
    }
}

/// A field-by-field copy of a summary.
fn copy_summary(s: &EpisodeSummary) -> (r: EpisodeSummary)
    ensures
        r == *s,
{
    let title = match &s.title {
        Some(t) => Some(t.clone()),
        None => None,
    };
    EpisodeSummary { id: s.id.clone(), title, webview_url: s.webview_url.clone() }
}

/// Whether `id` is among `ids`.
fn id_wanted(ids: &Vec<String>, id: &String) -> (r: bool)
    ensures
        r == has_id(ids@, id@),
{
    let mut i: usize = 0;
    while i < ids.len()
        invariant
            i <= ids@.len(),
            forall|k: int| 0 <= k < i ==> #[trigger] ids@[k]@ != id@,
        decreases ids@.len() - i,
    {
        if ids[i] == *id {
            return true;
        }
        i = i + 1;
    }
    false
}

/// Whether some row of `rows` has the id `id`.
fn row_with_id(rows: &Vec<EpisodeSummary>, id: &String) -> (r: bool)
    ensures
        r == has_row(rows@, id@),
{
    let mut i: usize = 0;
    while i < rows.len()
        invariant
            i <= rows@.len(),
            forall|k: int| 0 <= k < i ==> #[trigger] rows@[k].id@ != id@,
        decreases rows@.len() - i,
    {
        if rows[i].id == *id {
            return true;
        }
        i = i + 1;
    }
    false
}

} // verus!
