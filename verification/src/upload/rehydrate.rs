//! Startup pass that re-syncs local sidecars against LISTEN: titles and
//! page URLs edited on listen.style after upload are copied into the
//! sidecars, so the Recent panel shows the current names.
use vstd::prelude::*;
use crate::upload::listen::EpisodeSummary;
use crate::upload::metadata::{apply_remote, drifted, is_applied, EpisodeMetadata};

verus! {

/// `i` is the last summary LISTEN returned for episode `id` (a lookup table
/// keyed by id keeps the last of duplicate rows).
pub open spec fn last_summary(summaries: Seq<EpisodeSummary>, id: Seq<char>, i: int) -> bool {
    &&& 0 <= i < summaries.len()
    &&& summaries[i].id@ == id
    &&& forall|j: int| i < j < summaries.len() ==> #[trigger] summaries[j].id@ != id
}

/// The server's summary for episode `id`, if LISTEN returned one.
pub open spec fn summary_for(summaries: Seq<EpisodeSummary>, id: Seq<char>) -> Option<EpisodeSummary> {
    if exists|i: int| last_summary(summaries, id, i) {
        Some(summaries[choose|i: int| last_summary(summaries, id, i)])
    } else {
        None
    }
}

/// What the pass does to one sidecar: when LISTEN knows the episode, its
/// summary is applied and `rewrite` tells whether anything changed; when
/// LISTEN does not know it, the sidecar is left as it is.
pub open spec fn rehydrated(before: (String, EpisodeMetadata), summaries: Seq<EpisodeSummary>, after: (String, EpisodeMetadata, bool)) -> bool {
    &&& after.0 == before.0
    &&& match summary_for(summaries, before.1.episode_id@) {
        Some(s) => is_applied(before.1, s, after.1) && after.2 == drifted(before.1, s),
        None => after.1 == before.1 && !after.2,
    }
}

proof fn lemma_last_summary_unique(summaries: Seq<EpisodeSummary>, id: Seq<char>, i: int, k: int)
    requires
        last_summary(summaries, id, i),
        last_summary(summaries, id, k),
    ensures
        i == k,
{
    if i < k {
        assert(summaries[k].id@ != id);
    } else if k < i {
        assert(summaries[i].id@ != id);
    }
}

fn find_summary<'a>(summaries: &'a Vec<EpisodeSummary>, id: &String) -> (r: Option<&'a EpisodeSummary>)
    ensures
        match r {
            Some(s) => summary_for(summaries@, id@) == Some(*s),
            None => summary_for(summaries@, id@) is None,
        },
{
    let mut i: usize = summaries.len();
    while i > 0
        invariant
            i <= summaries@.len(),
            forall|j: int| i <= j < summaries@.len() ==> #[trigger] summaries@[j].id@ != id@,
        decreases i,
    {
        i = i - 1;
        if summaries[i].id == *id {
            proof {
                assert(last_summary(summaries@, id@, i as int));
                assert forall|k: int| last_summary(summaries@, id@, k) implies k == i by {
                    lemma_last_summary_unique(summaries@, id@, i as int, k);
                }
            }
            return Some(&summaries[i]);
        }
    }
    proof {
        assert forall|k: int| !last_summary(summaries@, id@, k) by {
            if 0 <= k < summaries@.len() {
                assert(summaries@[k].id@ != id@);
            }
        }
    }
    None
}

/// Bring every `(mp3 path, sidecar)` pair in line with the summaries
/// LISTEN returned. The result keeps the pairs' order; its flag marks the
/// sidecars that changed and must be written back (`uploaded_at` is never
/// touched). Episodes LISTEN did not return are left alone.
pub fn rehydrate(pairs: Vec<(String, EpisodeMetadata)>, summaries: &Vec<EpisodeSummary>) -> (r: Vec<(String, EpisodeMetadata, bool)>)
    ensures
        r@.len() == pairs@.len(),
        forall|k: int| 0 <= k < pairs@.len() ==> rehydrated(#[trigger] pairs@[k], summaries@, r@[k]),
{
    let ghost orig = pairs@;
    let mut pairs = pairs;
    let mut out: Vec<(String, EpisodeMetadata, bool)> = Vec::new();
    while pairs.len() > 0
        invariant
            out@.len() + pairs@.len() == orig.len(),
            pairs@ == orig.subrange(out@.len() as int, orig.len() as int),
            forall|k: int| 0 <= k < out@.len() ==> rehydrated(#[trigger] orig[k], summaries@, out@[k]),
        decreases pairs@.len(),
    {
        let ghost k = out@.len() as int;
        let (path, mut meta) = pairs.remove(0);
        assert(orig[k] == (path, meta));
        let changed = match find_summary(summaries, &meta.episode_id) {
            Some(s) => apply_remote(&mut meta, s),
            None => false,
        };
        out.push((path, meta, changed));
        assert(pairs@ =~= orig.subrange(out@.len() as int, orig.len() as int));
    }
    out
}

/// Rehydrating never alters what records the local upload: the mp3 a
/// sidecar belongs to, the episode id and `uploaded_at` stay as they were.
pub proof fn rehydrate_keeps_upload_record(
    before: (String, EpisodeMetadata),
    summaries: Seq<EpisodeSummary>,
    after: (String, EpisodeMetadata, bool),
)
    requires
        rehydrated(before, summaries, after),
    ensures
        after.0 == before.0,
        after.1.episode_id == before.1.episode_id,
        after.1.uploaded_at == before.1.uploaded_at,
        !after.2 ==> after.1.title@ == before.1.title@ && after.1.webview_url@ == before.1.webview_url@,
{
}

/// A sidecar takes the page URL (and the title, when one is given) of the
/// last row LISTEN returned for its episode, and is flagged for rewriting
/// exactly when that changed what it holds; a sidecar whose episode LISTEN
/// did not return is kept as it is and not flagged.
pub proof fn rehydrate_follows_the_server(
    before: (String, EpisodeMetadata),
    summaries: Seq<EpisodeSummary>,
    after: (String, EpisodeMetadata, bool),
    i: int,
)
    requires
        rehydrated(before, summaries, after),
    ensures
        (forall|j: int| 0 <= j < summaries.len() ==> #[trigger] summaries[j].id@ != before.1.episode_id@)
            ==> after.1 == before.1 && !after.2,
        last_summary(summaries, before.1.episode_id@, i) ==> {
            &&& after.1.webview_url@ == summaries[i].webview_url@
            &&& (summaries[i].title matches Some(t) ==> after.1.title@ == t@)
            &&& (summaries[i].title is None ==> after.1.title@ == before.1.title@)
            &&& after.2 <==> (after.1.title@ != before.1.title@ || after.1.webview_url@ != before.1.webview_url@)
        },
{
    let id = before.1.episode_id@;
    if exists|k: int| last_summary(summaries, id, k) {
        let k = choose|k: int| last_summary(summaries, id, k);
        if last_summary(summaries, id, i) {
            lemma_last_summary_unique(summaries, id, i, k);
        }
        assert(summaries[k].id@ == id);
    } else {
        if exists|j: int| 0 <= j < summaries.len() && #[trigger] summaries[j].id@ == id {
            lemma_some_row_has_a_last(summaries, id);
        }
    }
}

proof fn lemma_some_row_has_a_last(summaries: Seq<EpisodeSummary>, id: Seq<char>)
    requires
        exists|j: int| 0 <= j < summaries.len() && #[trigger] summaries[j].id@ == id,
    ensures
        exists|k: int| last_summary(summaries, id, k),
    decreases summaries.len(),
{
    let n = summaries.len() as int;
    if summaries[n - 1].id@ == id {
        assert(last_summary(summaries, id, n - 1));
    } else {
        let front = summaries.drop_last();
        let j = choose|j: int| 0 <= j < summaries.len() && #[trigger] summaries[j].id@ == id;
        assert(front[j].id@ == id);
        lemma_some_row_has_a_last(front, id);
        let k = choose|k: int| last_summary(front, id, k);
        assert forall|m: int| k < m < n implies #[trigger] summaries[m].id@ != id by {
            if m < n - 1 {
                assert(front[m] == summaries[m]);
            }
        }
        assert(last_summary(summaries, id, k));
    }
}

} // verus!
