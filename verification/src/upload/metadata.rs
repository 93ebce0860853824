//! Sidecar JSON that records what a local mp3 was uploaded as on LISTEN.
//!
//! Written next to the audio file as `<name>.mp3.json`, so deleting the
//! recording naturally cleans up its metadata too.
use vstd::prelude::*;
use crate::text::{has_suffix, trim_end_all, ends_with, trim_end_matches, push_str};
use crate::upload::listen::EpisodeSummary;
use crate::clock::{chrono_rfc3339, nanos_of, secs_of, placeable_now, within_four_digit_years, is_rfc3339_at, rfc3339_stamp};

verus! {

/// What we know about an mp3 after a successful LISTEN upload.
/// `uploaded_at` is an RFC 3339 timestamp.
#[derive(Debug, Clone, PartialEq, Eq)]
pub struct EpisodeMetadata {
    pub episode_id: String,
    pub title: String,
    pub webview_url: String,
    pub uploaded_at: String,
}

/// The title a sidecar holds once `summary` has been applied to it: the
/// server's title when it reports one, the local one otherwise.
pub open spec fn title_after(local_title: Seq<char>, summary: EpisodeSummary) -> Seq<char> {
    match summary.title {
        Some(t) => t@,
        None => local_title,
    }
}

/// Whether applying `summary` would change the sidecar `meta`.
pub open spec fn drifted(meta: EpisodeMetadata, summary: EpisodeSummary) -> bool {
    title_after(meta.title@, summary) != meta.title@
        || summary.webview_url@ != meta.webview_url@
}

/// `meta` after `summary` was applied: same id and upload time, server's
/// title (when present) and server's page URL.
pub open spec fn is_applied(before: EpisodeMetadata, summary: EpisodeSummary, after: EpisodeMetadata) -> bool {
    &&& after.episode_id == before.episode_id
    &&& after.uploaded_at == before.uploaded_at
    &&& after.title@ == title_after(before.title@, summary)
    &&& after.webview_url@ == summary.webview_url@
}

/// Apply a server-side episode summary onto a local sidecar in place.
/// Returns `true` when something actually changed. `uploaded_at` is kept:
/// it records when this user uploaded the file.
pub fn apply_remote(meta: &mut EpisodeMetadata, summary: &EpisodeSummary) -> (changed: bool)
    ensures
        is_applied(*old(meta), *summary, *final(meta)),
        changed == drifted(*old(meta), *summary),
{
    let mut changed = false;
    match &summary.title {
        Some(remote_title) => {
            if *remote_title != meta.title {
                meta.title = remote_title.clone();
                changed = true;
            }
        },
        None => {},
    }
    if summary.webview_url != meta.webview_url {
        meta.webview_url = summary.webview_url.clone();
        changed = true;
    }
    changed
}

/// After a summary is applied the sidecar shows the server's page URL, and
/// the server's title when it reports one, whatever else changed; the
/// episode id and upload time stay.
pub proof fn applied_summary_takes_server_fields(before: EpisodeMetadata, summary: EpisodeSummary, after: EpisodeMetadata)
    requires
        is_applied(before, summary, after),
    ensures
        after.webview_url@ == summary.webview_url@,
        summary.title matches Some(t) ==> after.title@ == t@,
        summary.title is None ==> after.title@ == before.title@,
        after.episode_id == before.episode_id,
        after.uploaded_at == before.uploaded_at,
{
}

/// A sidecar needs rewriting exactly when the server's page URL differs
/// from it, or the server reports a title that differs from it: a slug
/// edit alone is enough.
pub proof fn drift_is_a_differing_field(meta: EpisodeMetadata, summary: EpisodeSummary)
    ensures
        drifted(meta, summary) <==> (summary.webview_url@ != meta.webview_url@
            || (summary.title matches Some(t) && t@ != meta.title@)),
{
}

/// Applying a summary changes the sidecar exactly when it had drifted.
pub proof fn applying_changes_only_drifted(before: EpisodeMetadata, summary: EpisodeSummary, after: EpisodeMetadata)
    requires
        is_applied(before, summary, after),
    ensures
        drifted(before, summary) <==> (after.title@ != before.title@ || after.webview_url@ != before.webview_url@),
{
}

/// Applying the same summary a second time changes nothing: once a sidecar
/// is in sync with the server, rehydrating again does not rewrite it.
pub proof fn apply_remote_is_idempotent(before: EpisodeMetadata, summary: EpisodeSummary, after: EpisodeMetadata)
    requires
        is_applied(before, summary, after),
    ensures
        !drifted(after, summary),
{
}

/// The sidecar for a fresh upload: the episode's id, title and page URL as
/// LISTEN reported them, stamped with the time `now` (nanoseconds since the
/// Unix epoch) as RFC 3339 at the local offset `offset` (seconds east of
/// UTC); `None` when that instant cannot be placed.
pub fn upload_record(episode_id: &str, title: &str, webview_url: &str, now: i128, offset: i32) -> (r: Option<EpisodeMetadata>)
    ensures
        placeable_now(now as int, offset as int) ==> r is Some,
        r matches Some(m) ==> {
            &&& m.episode_id@ == episode_id@
            &&& m.title@ == title@
            &&& m.webview_url@ == webview_url@
            &&& m.uploaded_at@ == chrono_rfc3339(secs_of(now as int), nanos_of(now as int), offset)
            &&& within_four_digit_years(now / 1_000_000_000)
                ==> is_rfc3339_at(m.uploaded_at@, (now as int) % 1_000_000_000, offset as int)
        },
{
    match rfc3339_stamp(now, offset) {
        Some(uploaded_at) => Some(EpisodeMetadata {
            episode_id: String::from_str(episode_id),
            title: String::from_str(title),
            webview_url: String::from_str(webview_url),
            uploaded_at,
        }),
        None => None,
    }
}

/// The sidecar path for an mp3: `recording_xxx.mp3` → `recording_xxx.mp3.json`
/// (an append, so extra dots in the name are kept).
pub fn sidecar_path(mp3_path: &str) -> (r: String)
    ensures
        r@ == mp3_path@ + ".json"@,
{
    let mut s = String::from_str(mp3_path);
    push_str(&mut s, ".json");
    s
}

/// The mp3 a directory entry is the sidecar of, when it is one: an entry
/// whose file name ends in `.mp3.json` pairs with its full path minus the
/// trailing `.json`. Other entries (plain `.json` files included) pair
/// with nothing.
pub fn sidecar_mp3(file_name: &str, full_path: &str) -> (r: Option<String>)
    ensures
        r is Some <==> has_suffix(file_name@, ".mp3.json"@),
        r matches Some(p) ==> p@ == trim_end_all(full_path@, ".json"@),
{
    if ends_with(file_name, ".mp3.json") {
        Some(trim_end_matches(full_path, ".json"))
    } else {
        None
    }
}

/// The sidecar of an mp3 leads back to that mp3: for a path ending in
/// `.mp3`, trimming `.json` off its sidecar path gives the path again.
pub proof fn sidecar_of_mp3_leads_back(mp3_path: Seq<char>)
    requires
        has_suffix(mp3_path, ".mp3"@),
    ensures
        has_suffix(mp3_path + ".json"@, ".mp3.json"@),
        trim_end_all(mp3_path + ".json"@, ".json"@) == mp3_path,
{
    reveal_strlit(".json");
    reveal_strlit(".mp3");
    reveal_strlit(".mp3.json");
    let s = mp3_path + ".json"@;
    let n = mp3_path.len();
    assert(mp3_path.subrange(n - 4, n as int) == ".mp3"@);
    assert(s.subrange(s.len() - 9, s.len() as int) =~= mp3_path.subrange(n - 4, n as int) + ".json"@);
    assert(".mp3"@ + ".json"@ =~= ".mp3.json"@);
    assert(s.subrange(s.len() - 5, s.len() as int) =~= ".json"@);
    assert(s.subrange(0, s.len() - 5) =~= mp3_path);
    assert(!has_suffix(mp3_path, ".json"@)) by {
        if has_suffix(mp3_path, ".json"@) {
            assert(mp3_path.subrange(n - 5, n as int)[4] == 'n');
            assert(mp3_path.subrange(n - 4, n as int)[3] == '3');
            assert(mp3_path[n - 1] == 'n');
            assert(mp3_path[n - 1] == '3');
        }
    }
    assert(trim_end_all(mp3_path, ".json"@) == mp3_path);
}

} // verus!
