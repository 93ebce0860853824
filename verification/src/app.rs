//! The recorder's state machine and the Recent-panel bookkeeping.
//!
//! The terminal loop reads a key, asks [`on_key`] what it means in the
//! current state, performs the returned [`Command`] (audio, threads, the
//! browser, the upload) and feeds finished uploads back through
//! [`resolve_upload`].
use vstd::prelude::*;
use std::collections::VecDeque;
use crate::upload::metadata::EpisodeMetadata;

verus! {

/// Number of peak-level samples retained for the sparkline waveform.
pub const PEAK_HISTORY_CAPACITY: usize = 120;

/// How often, in milliseconds, the Recent panel rescans the output folder.
pub const RECENT_REFRESH_MS: u64 = 750;

/// Whether a Recent-panel rescan should start now: none is running, and
/// either none has finished yet or the last one finished at least
/// `RECENT_REFRESH_MS` ago (`since_last_ms`).
pub fn rescan_due(scan_running: bool, since_last_ms: Option<u64>) -> (r: bool)
    ensures
        r == (!scan_running && match since_last_ms {
            None => true,
            Some(ms) => ms >= RECENT_REFRESH_MS,
        }),
{
    !scan_running && match since_last_ms {
        None => true,
        Some(ms) => ms >= RECENT_REFRESH_MS,
    }
}

/// How many previous recordings to surface in the "Recent" panel.
pub const MAX_RECENT_RECORDINGS: usize = 16;

/// One row in the "Recent" panel, with its display strings pre-formatted.
#[derive(Debug, Clone)]
pub struct RecentRecording {
    pub path: String,
    pub size: String,
    pub duration: String,
    pub timestamp: String,
    /// LISTEN upload metadata, if a sidecar JSON exists next to the mp3.
    pub episode: Option<EpisodeMetadata>,
}

/// Phase of the startup pass that re-syncs sidecars against LISTEN.
#[derive(Debug, Clone, PartialEq)]
pub enum SyncState {
    /// Either no LISTEN config, or no sidecars to sync: nothing happened.
    Idle,
    Syncing,
    /// `updated` sidecars had their title or URL changed.
    Done { updated: usize },
    Failed(String),
}

/// The most recent peak-meter samples for the sparkline, oldest first,
/// never more than `PEAK_HISTORY_CAPACITY` of them.
pub struct PeakHistory<T> {
    samples: VecDeque<T>,
}

impl<T> PeakHistory<T> {
    #[verifier::type_invariant]
    spec fn within_capacity(self) -> bool {
        self.samples@.len() <= PEAK_HISTORY_CAPACITY
    }

    /// The samples, oldest first.
    pub closed spec fn samples_seq(self) -> Seq<T> {
        self.samples@
    }

    /// An empty history.
    pub fn new() -> (r: Self)
        ensures
            r.samples_seq() == Seq::<T>::empty(),
    {
        PeakHistory { samples: VecDeque::with_capacity(PEAK_HISTORY_CAPACITY) }
    }

    /// Appends a sample; once the history is full the oldest one drops out.
    pub fn push(&mut self, sample: T)
        ensures
            final(self).samples_seq() == if old(self).samples_seq().len() == PEAK_HISTORY_CAPACITY {
                old(self).samples_seq().drop_first().push(sample)
            } else {
                old(self).samples_seq().push(sample)
            },
            final(self).samples_seq().len() <= PEAK_HISTORY_CAPACITY,
    {
        proof { use_type_invariant(&*self); }
        let mut samples = VecDeque::new();
        std::mem::swap(&mut samples, &mut self.samples);
        if samples.len() == PEAK_HISTORY_CAPACITY {
            samples.pop_front();
        }
        samples.push_back(sample);
        self.samples = samples;
    }

    /// The samples, oldest first.
    pub fn samples(&self) -> (r: &VecDeque<T>)
        ensures
            r@ == self.samples_seq(),
    {
        &self.samples
    }
}

/// The sync indicator once a rehydrate pass has finished: `Ok(None)` means
/// there were no sidecars to sync, so nothing happened and the indicator
/// stays `Idle`; `Ok(Some(n))` is `Done` with `n` rewritten sidecars; an
/// error is shown as `Failed` with its text.
pub fn sync_outcome(result: Result<Option<usize>, String>) -> (r: SyncState)
    ensures
        r == match result {
            Ok(None) => SyncState::Idle,
            Ok(Some(n)) => SyncState::Done { updated: n },
            Err(e) => SyncState::Failed(e),
        },
{
    match result {
        Ok(None) => SyncState::Idle,
        Ok(Some(n)) => SyncState::Done { updated: n },
        Err(e) => SyncState::Failed(e),
    }
}

#[derive(Debug, PartialEq)]
pub enum AppState {
    Idle,
    Recording,
    Processing,
    Done(String),
    Uploading(String),
    Uploaded { path: String, webview_url: String },
    UploadFailed { path: String, error: String },
    ConfirmQuit { previous: Box<AppState> },
}

/// The states in which the Recent-panel cursor may move.
pub open spec fn navigable(state: AppState) -> bool {
    match state {
        AppState::Idle => true,
        AppState::Done(_) => true,
        AppState::Uploaded { .. } => true,
        AppState::UploadFailed { .. } => true,
        _ => false,
    }
}

impl AppState {
    /// True when the user is free to move the Recent-panel cursor and open
    /// an uploaded row: Idle, Done, Uploaded and UploadFailed. Busy states
    /// and the quit prompt swallow those keys.
    pub fn allows_recent_navigation(&self) -> (r: bool)
        ensures
            r == navigable(*self),
    {
        match self {
            AppState::Idle => true,
            AppState::Done(_) => true,
            AppState::Uploaded { .. } => true,
            AppState::UploadFailed { .. } => true,
            _ => false,
        }
    }
}

/// Whether `path` occurs among the first `n` rows of `rows`.
pub open spec fn path_among(rows: Seq<RecentRecording>, n: int, path: Seq<char>) -> bool {
    exists|j: int| 0 <= j < n && #[trigger] same_path(rows[j].path@, path)
}

/// Whether two path strings name the same path as std's `Path` compares
/// them (component by component, so `/d/./a.mp3` and `/d/a.mp3` agree).
pub uninterp spec fn same_path(a: Seq<char>, b: Seq<char>) -> bool;

/// std: `Path::new(a) == Path::new(b)`.
///
/// Trusted. std compares paths by their components, ignoring repeated
/// separators, a trailing separator and `.` components other than a
/// leading one; the result is a function of the two strings alone, named
/// `same_path`. Equal strings name the same path (`Path` is `Eq`).
#[verifier::external_body]
fn paths_equal(a: &str, b: &str) -> (r: bool)
    ensures
        r == same_path(a@, b@),
        a@ == b@ ==> r,
{
    std::path::Path::new(a) == std::path::Path::new(b)
}

/// Where the cursor lands after a rescan: on the first row naming the
/// previously selected path when it is still listed, on the first row
/// otherwise, and nowhere when the list is empty.
pub open spec fn reconciled(rows: Seq<RecentRecording>, previous: Option<Seq<char>>, r: Option<usize>) -> bool {
    if rows.len() == 0 {
        r is None
    } else if previous is Some && path_among(rows, rows.len() as int, previous->0) {
        &&& r is Some
        &&& r->0 < rows.len()
        &&& same_path(rows[r->0 as int].path@, previous->0)
        &&& !path_among(rows, r->0 as int, previous->0)
    } else {
        r == Some(0usize)
    }
}

/// Pick the selection index for `new_recent` given the previously selected
/// path: the cursor follows the path across rescans, falls back to the
/// first row when the path is gone, and is `None` for an empty list.
pub fn reconcile_selected(new_recent: &[RecentRecording], previous_path: Option<&String>) -> (r: Option<usize>)
    ensures
        reconciled(new_recent@, match previous_path {
            Some(p) => Some(p@),
            None => None,
        }, r),
{
    if new_recent.len() == 0 {
        return None;
    }
    match previous_path {
        Some(p) => {
            let mut i: usize = 0;
            while i < new_recent.len()
                invariant
                    previous_path == Some(p),
                    new_recent@.len() > 0,
                    i <= new_recent@.len(),
                    !path_among(new_recent@, i as int, p@),
                decreases new_recent@.len() - i,
            {
                if paths_equal(new_recent[i].path.as_str(), p.as_str()) {
                    assert(same_path(new_recent@[i as int].path@, p@));
                    assert(path_among(new_recent@, new_recent@.len() as int, p@));
                    return Some(i);
                }
                assert(!path_among(new_recent@, i + 1, p@)) by {
                    if path_among(new_recent@, i + 1, p@) {
                        let j = choose|j: int| 0 <= j < i + 1 && #[trigger] same_path(new_recent@[j].path@, p@);
                        assert(j != i);
                    }
                }
                i = i + 1;
            }
            Some(0)
        },
        None => Some(0),
    }
}

/// The Recent-panel rows and the row the user has highlighted.
/// Invariant: the cursor always points at an existing row.
pub struct RecentList {
    recent: Vec<RecentRecording>,
    selected: Option<usize>,
}

impl RecentList {
    #[verifier::type_invariant]
    spec fn cursor_in_bounds(self) -> bool {
        self.selected matches Some(i) ==> i < self.recent@.len()
    }

    /// The rows, newest first.
    pub closed spec fn rows(self) -> Seq<RecentRecording> {
        self.recent@
    }

    /// The highlighted row's index.
    pub closed spec fn cursor(self) -> Option<usize> {
        self.selected
    }

    /// No rows and no selection, as before the first scan.
    pub fn new() -> (r: Self)
        ensures
            r.rows().len() == 0,
            r.cursor() is None,
    {
        RecentList { recent: Vec::new(), selected: None }
    }

    pub fn recent(&self) -> (r: &[RecentRecording])
        ensures
            r@ == self.rows(),
    {
        self.recent.as_slice()
    }

    /// Index of the row currently highlighted, if any; always a valid row.
    pub fn selected_recent(&self) -> (r: Option<usize>)
        ensures
            r == self.cursor(),
            r matches Some(i) ==> i < self.rows().len(),
    {
        proof { use_type_invariant(self); }
        self.selected
    }

    /// The highlighted recording, or `None` when the list is empty.
    pub fn selected_recording(&self) -> (r: Option<&RecentRecording>)
        ensures
            match self.cursor() {
                Some(i) => r == Some(&self.rows()[i as int]),
                None => r is None,
            },
    {
        proof { use_type_invariant(self); }
        match self.selected {
            Some(i) => Some(&self.recent[i]),
            None => None,
        }
    }

    /// Move the cursor one row up, clamping at the first row.
    pub fn select_recent_prev(&mut self)
        ensures
            final(self).rows() == old(self).rows(),
            final(self).cursor() == cursor_up(old(self).cursor()),
    {
        proof { use_type_invariant(&*self); }
        match self.selected {
            Some(i) => {
                if i > 0 {
                    self.selected = Some(i - 1);
                }
            },
            None => {},
        }
    }

    /// Move the cursor one row down, clamping at the last row.
    pub fn select_recent_next(&mut self)
        ensures
            final(self).rows() == old(self).rows(),
            final(self).cursor() == cursor_down(old(self).cursor(), old(self).rows().len()),
    {
        proof { use_type_invariant(&*self); }
        match self.selected {
            Some(i) => {
                assert(i < self.recent.len());
                if i + 1 < self.recent.len() {
                    self.selected = Some(i + 1);
                }
            },
            None => {},
        }
    }

    /// Install a fresh scan, re-anchoring the cursor on the previously
    /// selected recording's path.
    pub fn replace(&mut self, list: Vec<RecentRecording>)
        ensures
            final(self).rows() == list@,
            reconciled(list@, match old(self).cursor() {
                Some(i) => Some(old(self).rows()[i as int].path@),
                None => None,
            }, final(self).cursor()),
    {
        proof { use_type_invariant(&*self); }
        let selected = match self.selected {
            Some(i) => reconcile_selected(list.as_slice(), Some(&self.recent[i].path)),
            None => reconcile_selected(list.as_slice(), None),
        };
        *self = RecentList { recent: list, selected };
    }
}

/// Where the cursor goes on "up": one row up, clamping at the first row.
pub open spec fn cursor_up(c: Option<usize>) -> Option<usize> {
    match c {
        Some(i) => if i > 0 { Some((i - 1) as usize) } else { Some(i) },
        None => None,
    }
}

/// Where the cursor goes on "down": one row down, clamping at the last of
/// `len` rows.
pub open spec fn cursor_down(c: Option<usize>, len: nat) -> Option<usize> {
    match c {
        Some(i) => if i + 1 < len { Some((i + 1) as usize) } else { Some(i) },
        None => None,
    }
}

/// Moving the cursor down and back up returns it to where it was, unless
/// it was already on the last row; moving it up and back down returns it
/// unless it was already on the first row.
pub proof fn cursor_moves_undo_each_other(c: Option<usize>, len: nat)
    requires
        len <= usize::MAX,
        c matches Some(i) ==> i < len,
    ensures
        (c matches Some(i) && i + 1 < len) ==> cursor_up(cursor_down(c, len)) == c,
        (c matches Some(i) && i > 0) ==> cursor_down(cursor_up(c), len) == c,
        c is None ==> cursor_up(c) is None && cursor_down(c, len) is None,
{
}

/// The cursor never leaves the list: moving it keeps it on a row.
pub proof fn cursor_moves_stay_in_bounds(c: Option<usize>, len: nat)
    requires
        len <= usize::MAX,
        c matches Some(i) ==> i < len,
    ensures
        cursor_up(c) matches Some(i) ==> i < len,
        cursor_down(c, len) matches Some(i) ==> i < len,
{
}

/// A key press, as the terminal loop reports it.
#[derive(Debug, Clone, Copy, PartialEq, Eq)]
pub enum Key {
    Char(char),
    Up,
    Down,
    Other,
}

/// The work a key press asks the terminal loop to do.
#[derive(Debug, PartialEq, Eq)]
pub enum Command {
    Nothing,
    /// Leave the main loop.
    Quit,
    /// Stop and save the take in progress, then leave the main loop.
    StopRecordingThenQuit,
    /// Open the input device and start a take.
    StartRecording,
    /// Discard the finished take's screen and start a new take.
    StartNewRecording,
    /// Stop and save the take in progress.
    StopRecording,
    /// Open this page in the browser.
    OpenUrl(String),
    /// Move the Recent-panel cursor up.
    SelectPrev,
    /// Move the Recent-panel cursor down.
    SelectNext,
    /// Upload the finished take (the state is `Done` with its path).
    StartUpload,
}

/// Shown when `u` is pressed without a `[listen]` section in the config.
pub const LISTEN_NOT_CONFIGURED: &'static str = "LISTEN not configured: add a [listen] section with podcast_id to ~/.config/radi/config.toml";

/// The page that `o` opens: the highlighted row's episode page, else the
/// page of the upload that just finished.
pub open spec fn open_target(state: AppState, selected_url: Option<String>) -> Option<String> {
    match selected_url {
        Some(u) => Some(u),
        None => match state {
            AppState::Uploaded { webview_url, .. } => Some(webview_url),
            _ => None,
        },
    }
}

/// What a key does in a state: the next state and the work to perform.
/// `selected_url` is the episode page of the highlighted Recent row, and
/// `listen_configured` tells whether the config has a `[listen]` section.
pub open spec fn key_outcome(
    state: AppState,
    key: Key,
    selected_url: Option<String>,
    listen_configured: bool,
    next: AppState,
    cmd: Command,
) -> bool {
    match state {
        AppState::ConfirmQuit { previous } => match key {
            Key::Char('y') => {
                &&& next == *previous
                &&& cmd == (if *previous is Recording {
                    Command::StopRecordingThenQuit
                } else {
                    Command::Quit
                })
            },
            Key::Char('n') => next == *previous && cmd == Command::Nothing,
            _ => next == state && cmd == Command::Nothing,
        },
        _ => match key {
            Key::Char('r') => {
                &&& next == state
                &&& cmd == (match state {
                    AppState::Idle => Command::StartRecording,
                    AppState::Done(_) => Command::StartNewRecording,
                    AppState::Uploaded { .. } => Command::StartNewRecording,
                    AppState::UploadFailed { .. } => Command::StartNewRecording,
                    _ => Command::Nothing,
                })
            },
            Key::Char('s') => {
                &&& next == state
                &&& cmd == (if state is Recording {
                    Command::StopRecording
                } else {
                    Command::Nothing
                })
            },
            Key::Char('o') => {
                &&& next == state
                &&& cmd == (match open_target(state, selected_url) {
                    Some(u) => Command::OpenUrl(u),
                    None => Command::Nothing,
                })
            },
            Key::Up => {
                &&& next == state
                &&& cmd == (if navigable(state) { Command::SelectPrev } else { Command::Nothing })
            },
            Key::Down => {
                &&& next == state
                &&& cmd == (if navigable(state) { Command::SelectNext } else { Command::Nothing })
            },
            Key::Char('u') => match state {
                AppState::Done(p) => upload_outcome(p, listen_configured, next, cmd),
                AppState::UploadFailed { path, .. } => upload_outcome(path, listen_configured, next, cmd),
                _ => next == state && cmd == Command::Nothing,
            },
            Key::Char('q') => {
                &&& next == AppState::ConfirmQuit { previous: Box::new(state) }
                &&& cmd == Command::Nothing
            },
            _ => next == state && cmd == Command::Nothing,
        },
    }
}

/// `u` on a finished (or failed) take: upload it when LISTEN is configured,
/// otherwise report the missing configuration as a failed upload.
pub open spec fn upload_outcome(path: String, listen_configured: bool, next: AppState, cmd: Command) -> bool {
    if listen_configured {
        next == AppState::Done(path) && cmd == Command::StartUpload
    } else {
        &&& next matches AppState::UploadFailed { path: p, error }
        &&& p == path
        &&& error@ == LISTEN_NOT_CONFIGURED@
        &&& cmd == Command::Nothing
    }
}

fn upload_key(path: String, listen_configured: bool) -> (r: (AppState, Command))
    ensures
        upload_outcome(path, listen_configured, r.0, r.1),
{
    if listen_configured {
        (AppState::Done(path), Command::StartUpload)
    } else {
        let error = String::from_str(LISTEN_NOT_CONFIGURED);
        (AppState::UploadFailed { path, error }, Command::Nothing)
    }
}

/// Decide what a key press means in `state`.
pub fn on_key(state: AppState, key: Key, selected_url: Option<String>, listen_configured: bool) -> (r: (AppState, Command))
    ensures
        key_outcome(state, key, selected_url, listen_configured, r.0, r.1),
{
    match state {
        AppState::ConfirmQuit { previous } => {
            match key {
                Key::Char(c) => {
                    if c == 'y' {
                        let prev = *previous;
                        let cmd = match prev {
                            AppState::Recording => Command::StopRecordingThenQuit,
                            _ => Command::Quit,
                        };
                        (prev, cmd)
                    } else if c == 'n' {
                        (*previous, Command::Nothing)
                    } else {
                        (AppState::ConfirmQuit { previous }, Command::Nothing)
                    }
                },
                _ => (AppState::ConfirmQuit { previous }, Command::Nothing),
            }
        },
        state => {
            match key {
                Key::Up => {
                    let cmd = if state.allows_recent_navigation() {
                        Command::SelectPrev
                    } else {
                        Command::Nothing
                    };
                    (state, cmd)
                },
                Key::Down => {
                    let cmd = if state.allows_recent_navigation() {
                        Command::SelectNext
                    } else {
                        Command::Nothing
                    };
                    (state, cmd)
                },
                Key::Other => (state, Command::Nothing),
                Key::Char(c) => {
                    if c == 'r' {
                        let cmd = match &state {
                            AppState::Idle => Command::StartRecording,
                            AppState::Done(_) => Command::StartNewRecording,
                            AppState::Uploaded { .. } => Command::StartNewRecording,
                            AppState::UploadFailed { .. } => Command::StartNewRecording,
                            _ => Command::Nothing,
                        };
                        (state, cmd)
                    } else if c == 's' {
                        let cmd = match &state {
                            AppState::Recording => Command::StopRecording,
                            _ => Command::Nothing,
                        };
                        (state, cmd)
                    } else if c == 'o' {
                        let target = match selected_url {
                            Some(u) => Some(u),
                            None => match &state {
                                AppState::Uploaded { webview_url, .. } => Some(webview_url.clone()),
                                _ => None,
                            },
                        };
                        let cmd = match target {
                            Some(u) => Command::OpenUrl(u),
                            None => Command::Nothing,
                        };
                        (state, cmd)
                    } else if c == 'u' {
                        match state {
                            AppState::Done(p) => upload_key(p, listen_configured),
                            AppState::UploadFailed { path, error } => upload_key(path, listen_configured),
                            other => (other, Command::Nothing),
                        }
                    } else if c == 'q' {
                        (AppState::ConfirmQuit { previous: Box::new(state) }, Command::Nothing)
                    } else {
                        (state, Command::Nothing)
                    }
                },
            }
        },
    }
}

/// `r` leaves the state as it is and asks for a take: a first one from
/// `Idle`, a new one after a finished take (`Done`, `Uploaded` or
/// `UploadFailed`); while a take is running or being processed or
/// uploaded it does nothing.
pub proof fn record_key_starts_takes(
    state: AppState,
    selected_url: Option<String>,
    listen_configured: bool,
    next: AppState,
    cmd: Command,
)
    requires
        !(state is ConfirmQuit),
        key_outcome(state, Key::Char('r'), selected_url, listen_configured, next, cmd),
    ensures
        next == state,
        state is Idle ==> cmd == Command::StartRecording,
        (state is Done || state is Uploaded || state is UploadFailed) ==> cmd == Command::StartNewRecording,
        (state is Recording || state is Processing || state is Uploading) ==> cmd == Command::Nothing,
{
}

/// `s` stops a running take and does nothing in any other state.
pub proof fn stop_key_stops_only_recording(
    state: AppState,
    selected_url: Option<String>,
    listen_configured: bool,
    next: AppState,
    cmd: Command,
)
    requires
        !(state is ConfirmQuit),
        key_outcome(state, Key::Char('s'), selected_url, listen_configured, next, cmd),
    ensures
        next == state,
        cmd == Command::StopRecording <==> state is Recording,
        !(state is Recording) ==> cmd == Command::Nothing,
{
}

/// `u` on a finished or failed take uploads that take when LISTEN is
/// configured and otherwise fails it with the configuration message, on
/// the same path; in other states it does nothing.
pub proof fn upload_key_uploads_finished_takes(
    state: AppState,
    selected_url: Option<String>,
    listen_configured: bool,
    next: AppState,
    cmd: Command,
)
    requires
        !(state is ConfirmQuit),
        key_outcome(state, Key::Char('u'), selected_url, listen_configured, next, cmd),
    ensures
        state matches AppState::Done(p) ==> (listen_configured ==> next == AppState::Done(p) && cmd == Command::StartUpload),
        state matches AppState::UploadFailed { path, .. } ==> (listen_configured
            ==> next == AppState::Done(path) && cmd == Command::StartUpload),
        (state is Done || state is UploadFailed) && !listen_configured ==> ({
            &&& next matches AppState::UploadFailed { error, .. } && error@ == LISTEN_NOT_CONFIGURED@
            &&& cmd == Command::Nothing
        }),
        state matches AppState::Done(p) ==> (!listen_configured ==> (next matches AppState::UploadFailed { path, .. } && path == p)),
        !(state is Done || state is UploadFailed) ==> next == state && cmd == Command::Nothing,
{
}

/// `o` opens the highlighted Recent row's page when it has one, else the
/// page of the episode just uploaded; otherwise it does nothing. The state
/// is left as it is.
pub proof fn open_key_prefers_selected_row(
    state: AppState,
    selected_url: Option<String>,
    listen_configured: bool,
    next: AppState,
    cmd: Command,
)
    requires
        !(state is ConfirmQuit),
        key_outcome(state, Key::Char('o'), selected_url, listen_configured, next, cmd),
    ensures
        next == state,
        selected_url matches Some(u) ==> cmd == Command::OpenUrl(u),
        selected_url is None ==> (state matches AppState::Uploaded { webview_url, .. } ==> cmd == Command::OpenUrl(webview_url)),
        selected_url is None && !(state is Uploaded) ==> cmd == Command::Nothing,
{
}

/// Opening the quit prompt and answering "n" leaves the state exactly as
/// it was, whatever was going on.
pub proof fn quit_prompt_cancel_restores(
    state: AppState,
    url1: Option<String>,
    url2: Option<String>,
    configured: bool,
    prompt: AppState,
    cmd1: Command,
    back: AppState,
    cmd2: Command,
)
    requires
        !(state is ConfirmQuit),
        key_outcome(state, Key::Char('q'), url1, configured, prompt, cmd1),
        key_outcome(prompt, Key::Char('n'), url2, configured, back, cmd2),
    ensures
        back == state,
        cmd1 == Command::Nothing,
        cmd2 == Command::Nothing,
{
}

/// Answering "y" to the quit prompt always quits, stopping the take first
/// when one was being recorded.
pub proof fn quit_prompt_confirm_quits(
    previous: AppState,
    url: Option<String>,
    configured: bool,
    next: AppState,
    cmd: Command,
)
    requires
        key_outcome(AppState::ConfirmQuit { previous: Box::new(previous) }, Key::Char('y'), url, configured, next, cmd),
    ensures
        next == previous,
        cmd == Command::Quit || cmd == Command::StopRecordingThenQuit,
        cmd == Command::StopRecordingThenQuit <==> previous is Recording,
{
}

/// The Up/Down keys move the Recent-panel cursor exactly in the states
/// that `allows_recent_navigation` names, so the key handler and the hint
/// row cannot disagree.
pub proof fn navigation_keys_follow_predicate(
    state: AppState,
    url: Option<String>,
    configured: bool,
    next_up: AppState,
    cmd_up: Command,
    next_down: AppState,
    cmd_down: Command,
)
    requires
        key_outcome(state, Key::Up, url, configured, next_up, cmd_up),
        key_outcome(state, Key::Down, url, configured, next_down, cmd_down),
    ensures
        cmd_up == Command::SelectPrev <==> navigable(state),
        cmd_down == Command::SelectNext <==> navigable(state),
        next_up == state,
        next_down == state,
{
}

/// While the take is being processed or uploaded the state only changes
/// through `q`, which opens the quit prompt; the only work a key can ask
/// for is opening the highlighted row's page.
pub proof fn busy_states_ignore_keys(
    state: AppState,
    key: Key,
    url: Option<String>,
    configured: bool,
    next: AppState,
    cmd: Command,
)
    requires
        (state is Processing) || (state is Uploading),
        key_outcome(state, key, url, configured, next, cmd),
    ensures
        cmd == Command::Nothing || (cmd is OpenUrl),
        key != Key::Char('q') ==> next == state,
        key == Key::Char('q') ==> next == (AppState::ConfirmQuit { previous: Box::new(state) }),
{
}

/// The upload a state is waiting for, if any: either the plain Uploading
/// state or the quit prompt opened on top of it.
pub open spec fn pending_upload(state: AppState) -> Option<String> {
    match state {
        AppState::Uploading(p) => Some(p),
        AppState::ConfirmQuit { previous } => match *previous {
            AppState::Uploading(p) => Some(p),
            _ => None,
        },
        _ => None,
    }
}

/// The state an upload of `path` ends in: the episode page on success,
/// the error text on failure.
pub open spec fn upload_finished(path: String, outcome: Result<String, String>) -> AppState {
    match outcome {
        Ok(url) => AppState::Uploaded { path, webview_url: url },
        Err(e) => AppState::UploadFailed { path, error: e },
    }
}

/// `state` once the upload it waits for has finished with `outcome`; a quit
/// prompt opened meanwhile stays open over the result.
pub open spec fn after_upload(state: AppState, outcome: Result<String, String>) -> AppState {
    match state {
        AppState::Uploading(p) => upload_finished(p, outcome),
        AppState::ConfirmQuit { previous } => match *previous {
            AppState::Uploading(p) => AppState::ConfirmQuit { previous: Box::new(upload_finished(p, outcome)) },
            _ => state,
        },
        _ => state,
    }
}

/// Whether `state` waits for an upload to finish.
pub fn upload_pending(state: &AppState) -> (r: bool)
    ensures
        r == (pending_upload(*state) is Some),
{
    match state {
        AppState::Uploading(_) => true,
        AppState::ConfirmQuit { previous } => match &**previous {
            AppState::Uploading(_) => true,
            _ => false,
        },
        _ => false,
    }
}

/// Install the result of a finished upload: `Ok(webview_url)` or
/// `Err(error text)`. States that wait for no upload are returned as they are.
pub fn resolve_upload(state: AppState, outcome: Result<String, String>) -> (r: AppState)
    ensures
        r == after_upload(state, outcome),
{
    match state {
        AppState::Uploading(p) => finish_upload(p, outcome),
        AppState::ConfirmQuit { previous } => {
            match *previous {
                AppState::Uploading(p) => AppState::ConfirmQuit { previous: Box::new(finish_upload(p, outcome)) },
                other => AppState::ConfirmQuit { previous: Box::new(other) },
            }
        },
        other => other,
    }
}

fn finish_upload(path: String, outcome: Result<String, String>) -> (r: AppState)
    ensures
        r == upload_finished(path, outcome),
{
    match outcome {
        Ok(url) => AppState::Uploaded { path, webview_url: url },
        Err(e) => AppState::UploadFailed { path, error: e },
    }
}

/// A finished upload always leaves the waiting state for Uploaded or
/// UploadFailed on the same recording, keeping an open quit prompt open.
pub proof fn finished_upload_settles(state: AppState, outcome: Result<String, String>)
    requires
        pending_upload(state) is Some,
    ensures
        pending_upload(after_upload(state, outcome)) is None,
        (state is ConfirmQuit) == (after_upload(state, outcome) is ConfirmQuit),
        ({
            let done = match after_upload(state, outcome) {
                AppState::ConfirmQuit { previous } => *previous,
                s => s,
            };
            match done {
                AppState::Uploaded { path, webview_url } => outcome == Ok::<String, String>(webview_url)
                    && Some(path) == pending_upload(state),
                AppState::UploadFailed { path, error } => outcome == Err::<String, String>(error)
                    && Some(path) == pending_upload(state),
                _ => false,
            }
        }),
{
}

/// What the recording pipeline reports: the user asked to start a take,
/// asked to stop it, or the encoder finished writing the file at a path.
pub enum TakeEvent {
    Start,
    Stop,
    Encoded(String),
}

/// The state a take moves to on `event`: `Idle` starts `Recording`,
/// `Recording` stops into `Processing`, and `Processing` becomes `Done` on
/// the encoded file once the encoder is through. Any other pairing has no
/// effect (`None`).
pub open spec fn take_next(state: AppState, event: TakeEvent) -> Option<AppState> {
    match (state, event) {
        (AppState::Idle, TakeEvent::Start) => Some(AppState::Recording),
        (AppState::Recording, TakeEvent::Stop) => Some(AppState::Processing),
        (AppState::Processing, TakeEvent::Encoded(path)) => Some(AppState::Done(path)),
        _ => None,
    }
}

/// One step of a take's life; see `take_next`.
pub fn take_step(state: &AppState, event: TakeEvent) -> (r: Option<AppState>)
    ensures
        r == take_next(*state, event),
{
    match state {
        AppState::Idle => match event {
            TakeEvent::Start => Some(AppState::Recording),
            _ => None,
        },
        AppState::Recording => match event {
            TakeEvent::Stop => Some(AppState::Processing),
            _ => None,
        },
        AppState::Processing => match event {
            TakeEvent::Encoded(path) => Some(AppState::Done(path)),
            _ => None,
        },
        _ => None,
    }
}

/// Starting an upload: a finished take (`Done`) moves to `Uploading` on the
/// same path, and the path is handed back for the upload worker; any other
/// state is left alone.
pub fn begin_upload(state: AppState) -> (r: (AppState, Option<String>))
    ensures
        match state {
            AppState::Done(p) => r.0 == AppState::Uploading(p) && r.1 == Some(p),
            _ => r.0 == state && r.1 is None,
        },
{
    match state {
        AppState::Done(p) => {
            let q = p.clone();
            (AppState::Uploading(p), Some(q))
        },
        other => (other, None),
    }
}

/// The file a new take is written to, named after the moment the app
/// started (`timestamp` as `YYYY-MM-DD_HH-MM-SS`).
pub fn recording_file_name(timestamp: &str) -> (r: String)
    ensures
        r@ == "recording_"@ + timestamp@ + ".mp3"@,
{
    let mut s = String::from_str("recording_");
    crate::text::push_str(&mut s, timestamp);
    crate::text::push_str(&mut s, ".mp3");
    s
}

} // verus!
