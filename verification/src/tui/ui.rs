//! What the main screen says and how it is tinted, for every state: the
//! status badge, the accent colour, the key hints, the upload gauge label,
//! the timer, the Recent rows and the sync indicator. The renderer turns
//! these pieces into terminal widgets.
use vstd::prelude::*;
use crate::app::{navigable, AppState, RecentRecording, SyncState};
use crate::size::{format_size, size_text};
use crate::text::{all_digits, decimal, digits_value, lemma_zero_padded_reads_back, pad_left, pad_right, push_char, push_decimal, push_decimal_zero_padded, push_padded_left, push_padded_right, push_str};
use crate::tui::splash::{BANNER_HEIGHT, BANNER_WIDTH};
use crate::upload::progress::UploadPhase;

verus! {

/// The palette. Recording and errors share red, caution and "busy, input
/// ignored" share yellow, but the meanings are kept apart.
#[derive(Debug, Clone, Copy, PartialEq, Eq)]
pub enum Tone {
    Accent,
    AccentDim,
    Rec,
    Good,
    Warn,
    Bad,
    Busy,
    White,
    Gray,
}

/// Foreground, optional background and modifiers of a piece of text.
#[derive(Debug, Clone, Copy, PartialEq, Eq)]
pub struct TextStyle {
    pub fg: Option<Tone>,
    pub bg: Option<Tone>,
    pub bold: bool,
    pub dim: bool,
    pub underlined: bool,
}

pub open spec fn plain(fg: Tone) -> TextStyle {
    TextStyle { fg: Some(fg), bg: None, bold: false, dim: false, underlined: false }
}

pub open spec fn bold(fg: Tone) -> TextStyle {
    TextStyle { fg: Some(fg), bg: None, bold: true, dim: false, underlined: false }
}

pub open spec fn dimmed(fg: Tone) -> TextStyle {
    TextStyle { fg: Some(fg), bg: None, bold: false, dim: true, underlined: false }
}

pub open spec fn unstyled() -> TextStyle {
    TextStyle { fg: None, bg: None, bold: false, dim: false, underlined: false }
}

fn style(fg: Tone, is_bold: bool, is_dim: bool) -> (r: TextStyle)
    ensures
        r == (TextStyle { fg: Some(fg), bg: None, bold: is_bold, dim: is_dim, underlined: false }),
{
    TextStyle { fg: Some(fg), bg: None, bold: is_bold, dim: is_dim, underlined: false }
}

/// A piece of a rendered line: styled text, or the animated spinner.
#[derive(Debug, PartialEq, Eq)]
pub enum Piece {
    Text(String, TextStyle),
    Spinner(Tone),
}

/// The header's status badge for each state.
pub open spec fn badge_of(state: AppState) -> (Seq<char>, TextStyle) {
    match state {
        AppState::Idle => ("\u{25a0} IDLE"@, bold(Tone::AccentDim)),
        AppState::Recording => ("\u{25cf} REC"@, TextStyle { fg: Some(Tone::White), bg: Some(Tone::Rec), bold: true, dim: false, underlined: false }),
        AppState::Processing => ("\u{25cc} PROC"@, bold(Tone::Busy)),
        AppState::Uploading(_) => ("\u{21ea} UP"@, bold(Tone::Busy)),
        AppState::Uploaded { .. } => ("\u{2713} DONE"@, bold(Tone::Good)),
        AppState::UploadFailed { .. } => ("\u{2717} FAIL"@, bold(Tone::Bad)),
        AppState::Done(_) => ("\u{2713} SAVED"@, bold(Tone::Good)),
        AppState::ConfirmQuit { .. } => ("? QUIT"@, bold(Tone::Warn)),
    }
}

pub fn status_badge(state: &AppState) -> (r: (&'static str, TextStyle))
    ensures
        r.0@ == badge_of(*state).0,
        r.1 == badge_of(*state).1,
{
    match state {
        AppState::Idle => ("\u{25a0} IDLE", style(Tone::AccentDim, true, false)),
        AppState::Recording => ("\u{25cf} REC", TextStyle { fg: Some(Tone::White), bg: Some(Tone::Rec), bold: true, dim: false, underlined: false }),
        AppState::Processing => ("\u{25cc} PROC", style(Tone::Busy, true, false)),
        AppState::Uploading(_) => ("\u{21ea} UP", style(Tone::Busy, true, false)),
        AppState::Uploaded { .. } => ("\u{2713} DONE", style(Tone::Good, true, false)),
        AppState::UploadFailed { .. } => ("\u{2717} FAIL", style(Tone::Bad, true, false)),
        AppState::Done(_) => ("\u{2713} SAVED", style(Tone::Good, true, false)),
        AppState::ConfirmQuit { .. } => ("? QUIT", style(Tone::Warn, true, false)),
    }
}

/// The accent used for borders and highlights. Processing and Uploading
/// share the busy tone: both ignore keypresses.
pub open spec fn accent_of(state: AppState) -> Tone {
    match state {
        AppState::Idle => Tone::AccentDim,
        AppState::Recording => Tone::Rec,
        AppState::Processing => Tone::Busy,
        AppState::Done(_) => Tone::Good,
        AppState::Uploading(_) => Tone::Busy,
        AppState::Uploaded { .. } => Tone::Good,
        AppState::UploadFailed { .. } => Tone::Bad,
        AppState::ConfirmQuit { .. } => Tone::AccentDim,
    }
}

/// The sparkline's tint: the record tone while recording, the dim accent
/// while idle, the state's accent otherwise.
pub open spec fn sparkline_of(state: AppState) -> Tone {
    match state {
        AppState::Recording => Tone::Rec,
        AppState::Idle => Tone::AccentDim,
        _ => accent_of(state),
    }
}

pub fn sparkline_tone(state: &AppState) -> (r: Tone)
    ensures
        r == sparkline_of(*state),
{
    match state {
        AppState::Recording => Tone::Rec,
        AppState::Idle => Tone::AccentDim,
        _ => state_accent(state),
    }
}

/// The sparkline always takes the tint of the frame it sits in.
pub proof fn sparkline_follows_accent(state: AppState)
    ensures
        sparkline_of(state) == accent_of(state),
{
}

pub fn state_accent(state: &AppState) -> (r: Tone)
    ensures
        r == accent_of(*state),
{
    match state {
        AppState::Idle => Tone::AccentDim,
        AppState::Recording => Tone::Rec,
        AppState::Processing => Tone::Busy,
        AppState::Done(_) => Tone::Good,
        AppState::Uploading(_) => Tone::Busy,
        AppState::Uploaded { .. } => Tone::Good,
        AppState::UploadFailed { .. } => Tone::Bad,
        AppState::ConfirmQuit { .. } => Tone::AccentDim,
    }
}

/// The timer panel's title.
pub open spec fn timer_label_of(state: AppState) -> Seq<char> {
    match state {
        AppState::Idle => "Ready"@,
        AppState::Recording => "Recording"@,
        AppState::Processing => "Processing\u{2026}"@,
        AppState::Done(_) => "Saved"@,
        _ => ""@,
    }
}

pub fn timer_label(state: &AppState) -> (r: &'static str)
    ensures
        r@ == timer_label_of(*state),
{
    match state {
        AppState::Idle => "Ready",
        AppState::Recording => "Recording",
        AppState::Processing => "Processing\u{2026}",
        AppState::Done(_) => "Saved",
        _ => "",
    }
}

/// The question the quit prompt asks.
pub fn quit_question(previous: &AppState) -> (r: &'static str)
    ensures
        r@ == if *previous is Recording { "Stop recording and quit?"@ } else { "Quit radi?"@ },
{
    match previous {
        AppState::Recording => "Stop recording and quit?",
        _ => "Quit radi?",
    }
}

/// The key hints of a state, as `(key, label)` pairs: the state's own
/// actions, then `↑↓`/`o` where the Recent panel can be navigated, `r` for
/// a new take after one finished, and `q` wherever quitting is accepted.
pub open spec fn hints_of(state: AppState) -> Seq<(Seq<char>, Seq<char>)> {
    let base: Seq<(Seq<char>, Seq<char>)> = match state {
        AppState::Idle => seq![("r"@, " Record  "@)],
        AppState::Recording => seq![("s"@, " Stop & Save  "@), ("q"@, " Stop & Quit"@)],
        AppState::Done(_) => seq![("u"@, " Upload to LISTEN  "@)],
        AppState::Uploaded { .. } => seq![("o"@, " Open in browser  "@)],
        AppState::UploadFailed { .. } => seq![("u"@, " Retry Upload  "@)],
        _ => seq![],
    };
    let nav: Seq<(Seq<char>, Seq<char>)> = if navigable(state) {
        if state is Uploaded {
            seq![("\u{2191}\u{2193}"@, " Select  "@)]
        } else {
            seq![("\u{2191}\u{2193}"@, " Select  "@), ("o"@, " Open in browser  "@)]
        }
    } else {
        seq![]
    };
    let again: Seq<(Seq<char>, Seq<char>)> = if state is Done || state is Uploaded || state is UploadFailed {
        seq![("r"@, " New Recording  "@)]
    } else {
        seq![]
    };
    let quit: Seq<(Seq<char>, Seq<char>)> = if state is Recording || state is Processing || state is Uploading {
        seq![]
    } else {
        seq![("q"@, " Quit"@)]
    };
    base + nav + again + quit
}

/// The hint row under the panels.
#[derive(Debug, PartialEq, Eq)]
pub enum HintRow {
    /// A busy state: keypresses are ignored.
    Locked,
    /// Nothing to offer.
    Empty,
    /// `(key, label)` pairs.
    Keys(Vec<(&'static str, &'static str)>),
}

pub open spec fn views_of(v: Seq<(&'static str, &'static str)>) -> Seq<(Seq<char>, Seq<char>)> {
    v.map_values(|p: (&'static str, &'static str)| (p.0@, p.1@))
}

fn push_hint(v: &mut Vec<(&'static str, &'static str)>, key: &'static str, label: &'static str)
    ensures
        views_of(final(v)@) == views_of(old(v)@).push((key@, label@)),
{
    v.push((key, label));
    assert(views_of(final(v)@) =~= views_of(old(v)@).push((key@, label@)));
}

/// The hint row of a state. The quit prompt is drawn as a popup and has
/// no hint row of its own.
pub fn render_hints(state: &AppState) -> (r: HintRow)
    requires
        !(*state is ConfirmQuit),
    ensures
        match r {
            HintRow::Keys(v) => hints_of(*state).len() > 0 && views_of(v@) == hints_of(*state),
            HintRow::Locked => hints_of(*state).len() == 0 && ((*state is Processing) || (*state is Uploading)),
            HintRow::Empty => hints_of(*state).len() == 0 && !(*state is Processing) && !(*state is Uploading),
        },
{
    let mut hints: Vec<(&'static str, &'static str)> = Vec::new();
    assert(views_of(hints@) =~= seq![]);
    match state {
        AppState::Idle => push_hint(&mut hints, "r", " Record  "),
        AppState::Recording => {
            push_hint(&mut hints, "s", " Stop & Save  ");
            push_hint(&mut hints, "q", " Stop & Quit");
        },
        AppState::Done(_) => push_hint(&mut hints, "u", " Upload to LISTEN  "),
        AppState::Uploaded { .. } => push_hint(&mut hints, "o", " Open in browser  "),
        AppState::UploadFailed { .. } => push_hint(&mut hints, "u", " Retry Upload  "),
        _ => {},
    }
    let ghost base = views_of(hints@);
    if state.allows_recent_navigation() {
        push_hint(&mut hints, "\u{2191}\u{2193}", " Select  ");
        match state {
            AppState::Uploaded { .. } => {},
            _ => push_hint(&mut hints, "o", " Open in browser  "),
        }
    }
    let ghost nav = views_of(hints@);
    match state {
        AppState::Done(_) => push_hint(&mut hints, "r", " New Recording  "),
        AppState::Uploaded { .. } => push_hint(&mut hints, "r", " New Recording  "),
        AppState::UploadFailed { .. } => push_hint(&mut hints, "r", " New Recording  "),
        _ => {},
    }
    match state {
        AppState::Recording => {},
        AppState::Processing => {},
        AppState::Uploading(_) => {},
        _ => push_hint(&mut hints, "q", " Quit"),
    }
    assert(views_of(hints@) =~= hints_of(*state));
    if hints.len() == 0 {
        match state {
            AppState::Processing => HintRow::Locked,
            AppState::Uploading(_) => HintRow::Locked,
            _ => HintRow::Empty,
        }
    } else {
        HintRow::Keys(hints)
    }
}

/// The hint row advertises `↑↓` exactly in the states where the Up/Down
/// keys move the cursor, so the hints and the key handler cannot drift
/// apart.
pub proof fn hints_advertise_navigation_exactly(state: AppState)
    ensures
        navigable(state) <==> exists|i: int| 0 <= i < hints_of(state).len()
            && #[trigger] hints_of(state)[i].0 == "\u{2191}\u{2193}"@,
{
    reveal_strlit("\u{2191}\u{2193}");
    reveal_strlit("r");
    reveal_strlit("s");
    reveal_strlit("q");
    reveal_strlit("u");
    reveal_strlit("o");
    let h = hints_of(state);
    if navigable(state) {
        let base_len: int = match state {
            AppState::Idle => 1,
            AppState::Recording => 2,
            AppState::Done(_) => 1,
            AppState::Uploaded { .. } => 1,
            AppState::UploadFailed { .. } => 1,
            _ => 0,
        };
        assert(h[base_len].0 == "\u{2191}\u{2193}"@);
    } else {
        assert forall|i: int| 0 <= i < h.len() implies #[trigger] h[i].0 != "\u{2191}\u{2193}"@ by {
            assert(h[i].0.len() == 1);
        }
    }
}

/// The phase line of the upload panel.
pub fn phase_label(phase: UploadPhase) -> (r: &'static str)
    ensures
        r@ == match phase {
            UploadPhase::Preparing => "Preparing upload\u{2026}"@,
            UploadPhase::Uploading => "Uploading"@,
            UploadPhase::Finalizing => "Finalizing episode\u{2026}"@,
        },
{
    match phase {
        UploadPhase::Preparing => "Preparing upload\u{2026}",
        UploadPhase::Uploading => "Uploading",
        UploadPhase::Finalizing => "Finalizing episode\u{2026}",
    }
}

/// Percentage shown on the upload gauge: `uploaded * 100 / total`
/// (the product saturating), 0 for an unknown total, never above 100.
pub open spec fn upload_percent(uploaded: u64, total: u64) -> nat {
    if total == 0 {
        0
    } else {
        let prod: nat = if uploaded * 100 > u64::MAX { u64::MAX as nat } else { (uploaded * 100) as nat };
        let p = prod / (total as nat);
        if p > 100 { 100 } else { p }
    }
}

/// "48% · 2.3 MB / 4.8 MB".
pub open spec fn upload_label_text(uploaded: u64, total: u64) -> Seq<char> {
    decimal(upload_percent(uploaded, total)) + "% \u{b7} "@ + size_text(uploaded as nat) + " / "@ + size_text(total as nat)
}

/// The compact label of the progress gauge.
pub fn format_upload_label(uploaded: u64, total: u64) -> (r: String)
    ensures
        r@ == upload_label_text(uploaded, total),
{
    let wide: u128 = uploaded as u128 * 100;
    let prod: u64 = if wide > u64::MAX as u128 { u64::MAX } else { wide as u64 };
    let pct: u64 = if total == 0 {
        0
    } else {
        let p = prod / total;
        if p < 100 { p } else { 100 }
    };
    let mut s = String::new();
    push_decimal(&mut s, pct as u128);
    push_str(&mut s, "% \u{b7} ");
    let a = format_size(uploaded);
    push_str(&mut s, a.as_str());
    push_str(&mut s, " / ");
    let b = format_size(total);
    push_str(&mut s, b.as_str());
    assert(s@ =~= upload_label_text(uploaded, total));
    s
}

/// The gauge never claims more than the whole file, claims nothing before
/// the size is known, and shows 100% once everything is sent (for files
/// below 2^64/100 bytes, where the saturating product is exact).
pub proof fn upload_percent_bounded(uploaded: u64, total: u64)
    ensures
        upload_percent(uploaded, total) <= 100,
        total == 0 ==> upload_percent(uploaded, total) == 0,
        0 < total <= u64::MAX / 100 && uploaded >= total ==> upload_percent(uploaded, total) == 100,
{
    if 0 < total <= u64::MAX / 100 && uploaded >= total {
        let prod: nat = if uploaded * 100 > u64::MAX { u64::MAX as nat } else { (uploaded * 100) as nat };
        if uploaded * 100 > u64::MAX {
            assert(prod / (total as nat) >= 100) by (nonlinear_arith)
                requires prod == u64::MAX as nat, total <= u64::MAX / 100, total > 0;
        } else {
            assert(prod / (total as nat) >= 100) by (nonlinear_arith)
                requires prod == uploaded * 100, total > 0, uploaded >= total;
        }
    }
}

/// While the sent bytes are at most the total (and their hundredfold fits
/// 64 bits), the percentage is the whole part of `100 * uploaded / total`.
pub proof fn upload_percent_is_whole_percent(uploaded: u64, total: u64)
    requires
        0 < total,
        uploaded <= total,
        uploaded * 100 <= u64::MAX,
    ensures
        upload_percent(uploaded, total) * total <= 100 * uploaded,
        100 * uploaded < (upload_percent(uploaded, total) + 1) * total,
{
    let p = (uploaded * 100) as nat / (total as nat);
    vstd::arithmetic::div_mod::lemma_fundamental_div_mod((uploaded * 100) as int, total as int);
    assert(p <= 100) by (nonlinear_arith)
        requires p == (uploaded * 100) as nat / (total as nat), uploaded <= total, total > 0;
    assert(p * total == total * p) by (nonlinear_arith);
    assert((p + 1) * total == total * p + total) by (nonlinear_arith);
}

/// The gauge label reads: the percentage digits, `% · `, the sent size,
/// ` / ` and the total size, in that order.
pub proof fn upload_label_reads_back(uploaded: u64, total: u64)
    ensures
        ({
            let s = upload_label_text(uploaded, total);
            let a = size_text(uploaded as nat);
            let b = size_text(total as nat);
            let k = s.len() - 4 - a.len() - 3 - b.len();
            &&& 1 <= k
            &&& all_digits(s.subrange(0, k))
            &&& digits_value(s.subrange(0, k)) == upload_percent(uploaded, total)
            &&& s.subrange(k, k + 4) == "% \u{b7} "@
            &&& s.subrange(k + 4, k + 4 + a.len()) == a
            &&& s.subrange(k + 4 + a.len(), k + 7 + a.len()) == " / "@
            &&& s.subrange(s.len() - b.len(), s.len() as int) == b
        }),
{
    reveal_strlit("% \u{b7} ");
    reveal_strlit(" / ");
    let d = decimal(upload_percent(uploaded, total));
    crate::text::lemma_decimal_reads_back(upload_percent(uploaded, total));
    let s = upload_label_text(uploaded, total);
    let a = size_text(uploaded as nat);
    let b = size_text(total as nat);
    let k = d.len() as int;
    assert(s =~= d + "% \u{b7} "@ + a + " / "@ + b);
    assert(s.subrange(0, k) =~= d);
    assert(s.subrange(k, k + 4) =~= "% \u{b7} "@);
    assert(s.subrange(k + 4, k + 4 + a.len()) =~= a);
    assert(s.subrange(k + 4 + a.len(), k + 7 + a.len()) =~= " / "@);
    assert(s.subrange(s.len() - b.len(), s.len() as int) =~= b);
}

/// The label inside the gauge: a placeholder until the total is known.
pub fn upload_gauge_label(uploaded: u64, total: u64) -> (r: String)
    ensures
        r@ == if total == 0 { "starting\u{2026}"@ } else { upload_label_text(uploaded, total) },
{
    if total == 0 {
        String::from_str("starting\u{2026}")
    } else {
        format_upload_label(uploaded, total)
    }
}

/// `hh:mm:ss` of the elapsed recording time (hours keep all their digits).
pub open spec fn clock_text(total_secs: u64) -> Seq<char> {
    pad_left(decimal((total_secs / 3600) as nat), 2, '0') + seq![':']
        + pad_left(decimal(((total_secs % 3600) / 60) as nat), 2, '0') + seq![':']
        + pad_left(decimal((total_secs % 60) as nat), 2, '0')
}

/// The timer text reads back as the elapsed time: the last field is the
/// seconds within the minute and the one before it the minutes within the
/// hour, two digits each, and everything before the first `:` is the whole
/// hours (at least two digits, exactly two below 100 hours).
pub proof fn clock_text_reads_back(total_secs: u64)
    ensures
        ({
            let s = clock_text(total_secs);
            let n = s.len() as int;
            &&& n >= 8
            &&& s[n - 6] == ':'
            &&& s[n - 3] == ':'
            &&& all_digits(s.subrange(0, n - 6))
            &&& all_digits(s.subrange(n - 5, n - 3))
            &&& all_digits(s.subrange(n - 2, n))
            &&& digits_value(s.subrange(0, n - 6)) == total_secs / 3600
            &&& digits_value(s.subrange(n - 5, n - 3)) == (total_secs % 3600) / 60
            &&& digits_value(s.subrange(n - 2, n)) == total_secs % 60
            &&& (total_secs < 360_000 ==> n == 8)
        }),
{
    let h = (total_secs / 3600) as nat;
    let m = ((total_secs % 3600) / 60) as nat;
    let sec = (total_secs % 60) as nat;
    lemma_zero_padded_reads_back(h, 2);
    lemma_zero_padded_reads_back(m, 2);
    lemma_zero_padded_reads_back(sec, 2);
    let a = pad_left(decimal(h), 2, '0');
    let b = pad_left(decimal(m), 2, '0');
    let c = pad_left(decimal(sec), 2, '0');
    let s = clock_text(total_secs);
    let n = s.len() as int;
    assert(s =~= a + seq![':'] + b + seq![':'] + c);
    assert(s.subrange(0, n - 6) =~= a);
    assert(s.subrange(n - 5, n - 3) =~= b);
    assert(s.subrange(n - 2, n) =~= c);
}

pub fn format_duration(total_secs: u64) -> (r: String)
    ensures
        r@ == clock_text(total_secs),
{
    let mut s = String::new();
    push_decimal_zero_padded(&mut s, (total_secs / 3600) as u128, 2);
    push_char(&mut s, ':');
    push_decimal_zero_padded(&mut s, ((total_secs % 3600) / 60) as u128, 2);
    push_char(&mut s, ':');
    push_decimal_zero_padded(&mut s, (total_secs % 60) as u128, 2);
    assert(s@ =~= clock_text(total_secs));
    s
}

/// The file name of a path, when it has one.
pub uninterp spec fn path_file_name(path: Seq<char>) -> Option<Seq<char>>;

/// The last component of `path`.
///
/// Trusted: calls `std::path::Path::file_name` and converts the name to a
/// string; the contract only ties the result to `path_file_name`, without
/// stating how paths are split into components.
#[verifier::external_body]
pub(crate) fn file_name(path: &str) -> (r: Option<String>)
    ensures
        match r {
            Some(n) => path_file_name(path@) == Some(n@),
            None => path_file_name(path@) is None,
        },
{
    match std::path::Path::new(path).file_name() {
        Some(n) => match n.to_str() {
            Some(s) => Some(s.to_string()),
            None => None,
        },
        None => None,
    }
}

/// The name shown for a Recent row: the LISTEN title once the recording was
/// uploaded, else its file name ("?" for a path without one).
pub open spec fn row_label(rec: RecentRecording, file_name: Option<Seq<char>>) -> Seq<char> {
    match rec.episode {
        Some(e) => e.title@,
        None => match file_name {
            Some(n) => n,
            None => "?"@,
        },
    }
}

/// The pieces of a Recent row: cursor marker, timestamp (12 cells), size
/// (9 cells), duration (7 cells), upload badge and name.
pub open spec fn recent_line_is(rec: RecentRecording, file_name: Option<Seq<char>>, is_selected: bool, line: Seq<Piece>) -> bool {
    &&& line.len() == 6
    &&& line[0] matches Piece::Text(t, st) && t@ == (if is_selected { "\u{25b8} "@ } else { "  "@ })
        && st == (if is_selected { bold(Tone::Accent) } else { plain(Tone::AccentDim) })
    &&& line[1] matches Piece::Text(t, st) && t@ == pad_right(rec.timestamp@, 12) && st == plain(Tone::AccentDim)
    &&& line[2] matches Piece::Text(t, st) && t@ == pad_left(rec.size@, 9, ' ') + "  "@ && st == plain(Tone::AccentDim)
    &&& line[3] matches Piece::Text(t, st) && t@ == pad_left(rec.duration@, 7, ' ') + "  "@ && st == plain(Tone::AccentDim)
    &&& line[4] matches Piece::Text(t, st) && t@ == (if rec.episode is Some { "\u{2191} "@ } else { "  "@ })
        && st == (if rec.episode is Some { bold(Tone::Good) } else { plain(Tone::AccentDim) })
    &&& line[5] matches Piece::Text(t, st) && t@ == row_label(rec, file_name)
        && st == (if is_selected { bold(Tone::White) } else { plain(Tone::Gray) })
}

/// The text of a row piece (empty for a spinner).
pub open spec fn piece_text(p: Piece) -> Seq<char> {
    match p {
        Piece::Text(t, _) => t@,
        Piece::Spinner(_) => Seq::empty(),
    }
}

/// A Recent row shows, in order: the timestamp, the size, the duration,
/// an upload arrow exactly for uploaded recordings, and the name, which is
/// the LISTEN title once uploaded and the file name before.
pub proof fn recent_line_shows_the_recording(
    rec: RecentRecording,
    file_name: Option<Seq<char>>,
    is_selected: bool,
    line: Seq<Piece>,
)
    requires
        recent_line_is(rec, file_name, is_selected, line),
    ensures
        piece_text(line[1]).subrange(0, rec.timestamp@.len() as int) == rec.timestamp@,
        ({
            let t = piece_text(line[2]);
            t.subrange(t.len() - rec.size@.len() - 2, t.len() - 2) == rec.size@
        }),
        ({
            let t = piece_text(line[3]);
            t.subrange(t.len() - rec.duration@.len() - 2, t.len() - 2) == rec.duration@
        }),
        rec.episode is Some <==> piece_text(line[4]) == "\u{2191} "@,
        rec.episode matches Some(e) ==> piece_text(line[5]) == e.title@,
        rec.episode is None ==> (file_name matches Some(n) ==> piece_text(line[5]) == n),
{
    reveal_strlit("\u{2191} ");
    reveal_strlit("  ");
    crate::text::lemma_space_padded(rec.size@, 9);
    crate::text::lemma_space_padded(rec.duration@, 7);
    let ts = pad_right(rec.timestamp@, 12);
    assert(ts.subrange(0, rec.timestamp@.len() as int) =~= rec.timestamp@);
    let sz = pad_left(rec.size@, 9, ' ') + "  "@;
    assert(sz.subrange(sz.len() - rec.size@.len() - 2, sz.len() - 2)
        =~= pad_left(rec.size@, 9, ' ').subrange(pad_left(rec.size@, 9, ' ').len() - rec.size@.len(), pad_left(rec.size@, 9, ' ').len() as int));
    let du = pad_left(rec.duration@, 7, ' ') + "  "@;
    assert(du.subrange(du.len() - rec.duration@.len() - 2, du.len() - 2)
        =~= pad_left(rec.duration@, 7, ' ').subrange(pad_left(rec.duration@, 7, ' ').len() - rec.duration@.len(), pad_left(rec.duration@, 7, ' ').len() as int));
    assert("\u{2191} "@ != "  "@) by {
        assert("\u{2191} "@[0] != "  "@[0]);
    }
}

fn text_piece(t: String, st: TextStyle) -> (r: Piece)
    ensures
        r == Piece::Text(t, st),
{
    Piece::Text(t, st)
}

/// One Recent-panel row, given the file name of the row's path. Once a
/// recording was uploaded its LISTEN title replaces the file name and an
/// upload badge appears.
pub fn recent_line(rec: &RecentRecording, file_name: Option<String>, is_selected: bool) -> (r: Vec<Piece>)
    ensures
        recent_line_is(*rec, match file_name {
            Some(n) => Some(n@),
            None => None,
        }, is_selected, r@),
{
    let mut line: Vec<Piece> = Vec::new();
    let (marker, marker_style) = if is_selected {
        ("\u{25b8} ", style(Tone::Accent, true, false))
    } else {
        ("  ", style(Tone::AccentDim, false, false))
    };
    line.push(text_piece(String::from_str(marker), marker_style));

    let mut ts = String::new();
    push_padded_right(&mut ts, rec.timestamp.as_str(), 12);
    line.push(text_piece(ts, style(Tone::AccentDim, false, false)));

    let mut size = String::new();
    push_padded_left(&mut size, rec.size.as_str(), 9, ' ');
    push_str(&mut size, "  ");
    line.push(text_piece(size, style(Tone::AccentDim, false, false)));

    let mut dur = String::new();
    push_padded_left(&mut dur, rec.duration.as_str(), 7, ' ');
    push_str(&mut dur, "  ");
    line.push(text_piece(dur, style(Tone::AccentDim, false, false)));

    let (badge, badge_style) = match &rec.episode {
        Some(_) => ("\u{2191} ", style(Tone::Good, true, false)),
        None => ("  ", style(Tone::AccentDim, false, false)),
    };
    line.push(text_piece(String::from_str(badge), badge_style));

    let label = match &rec.episode {
        Some(e) => e.title.clone(),
        None => match file_name {
            Some(n) => n,
            None => String::from_str("?"),
        },
    };
    let name_style = if is_selected {
        style(Tone::White, true, false)
    } else {
        style(Tone::Gray, false, false)
    };
    line.push(text_piece(label, name_style));
    line
}

/// One Recent-panel row, naming the recording by its path's file name.
pub fn format_recent_line(rec: &RecentRecording, is_selected: bool) -> (r: Vec<Piece>)
    ensures
        recent_line_is(*rec, path_file_name(rec.path@), is_selected, r@),
{
    let name = file_name(rec.path.as_str());
    recent_line(rec, name, is_selected)
}

/// The indicator after the Recent panel's title: a spinner and "syncing…"
/// while the rehydrate pass runs, a discreet warning when it failed (the
/// error text itself is not shown), nothing otherwise.
pub open spec fn sync_indicator_is(state: SyncState, pieces: Seq<Piece>) -> bool {
    match state {
        SyncState::Idle => pieces.len() == 0,
        SyncState::Done { .. } => pieces.len() == 0,
        SyncState::Syncing => {
            &&& pieces.len() == 4
            &&& pieces[0] == Piece::Spinner(Tone::Accent)
            &&& pieces[1] matches Piece::Text(t, st) && t@ == " "@ && st == unstyled()
            &&& pieces[2] matches Piece::Text(t, st) && t@ == "syncing\u{2026}"@ && st == dimmed(Tone::AccentDim)
            &&& pieces[3] matches Piece::Text(t, st) && t@ == " "@ && st == unstyled()
        },
        SyncState::Failed(_) => {
            &&& pieces.len() == 3
            &&& pieces[0] matches Piece::Text(t, st) && t@ == "\u{26a0} "@ && st == bold(Tone::Warn)
            &&& pieces[1] matches Piece::Text(t, st) && t@ == "sync failed"@ && st == dimmed(Tone::AccentDim)
            &&& pieces[2] matches Piece::Text(t, st) && t@ == " "@ && st == unstyled()
        },
    }
}

fn unstyled_piece(t: &str) -> (r: Piece)
    ensures
        r matches Piece::Text(s, st) && s@ == t@ && st == unstyled(),
{
    Piece::Text(String::from_str(t), TextStyle { fg: None, bg: None, bold: false, dim: false, underlined: false })
}

fn styled_piece(t: &str, st: TextStyle) -> (r: Piece)
    ensures
        r matches Piece::Text(s, x) && s@ == t@ && x == st,
{
    Piece::Text(String::from_str(t), st)
}

pub fn sync_indicator_spans(state: &SyncState) -> (r: Vec<Piece>)
    ensures
        sync_indicator_is(*state, r@),
{
    let mut v: Vec<Piece> = Vec::new();
    match state {
        SyncState::Idle => {},
        SyncState::Done { .. } => {},
        SyncState::Syncing => {
            v.push(Piece::Spinner(Tone::Accent));
            v.push(unstyled_piece(" "));
            v.push(styled_piece("syncing\u{2026}", style(Tone::AccentDim, false, true)));
            v.push(unstyled_piece(" "));
        },
        SyncState::Failed(_) => {
            v.push(styled_piece("\u{26a0} ", style(Tone::Warn, true, false)));
            v.push(styled_piece("sync failed", style(Tone::AccentDim, false, true)));
            v.push(unstyled_piece(" "));
        },
    }
    v
}

/// The Recent panel's title counter: " (n) ".
pub fn recent_count_label(count: usize) -> (r: String)
    ensures
        r@ == " ("@ + decimal(count as nat) + ") "@,
{
    let mut s = String::new();
    push_str(&mut s, " (");
    push_decimal(&mut s, count as u128);
    push_str(&mut s, ") ");
    assert(s@ =~= " ("@ + decimal(count as nat) + ") "@);
    s
}

/// A cell rectangle of the terminal.
#[derive(Debug, Clone, Copy, PartialEq, Eq)]
pub struct Rect {
    pub x: u16,
    pub y: u16,
    pub width: u16,
    pub height: u16,
}

/// Height below which the big timer gives way to a plain line.
pub const BIG_TIMER_MIN_HEIGHT: u16 = 22;
/// Height below which the banner header gives way to a three-row header.
pub const BIG_HEADER_MIN_HEIGHT: u16 = 27;
/// Vertical budget of the banner header.
pub const BIG_HEADER_HEIGHT: u16 = 9;
/// Narrowest info column beside the banner before the header stacks.
pub const HEADER_INFO_MIN_WIDTH: u16 = 18;

/// How the main screen divides a terminal of `height` rows.
#[derive(Debug, Clone, Copy, PartialEq, Eq)]
pub struct MainLayout {
    pub use_big_header: bool,
    pub use_big_timer: bool,
    pub header_height: u16,
    pub timer_height: u16,
}

pub fn main_layout(height: u16) -> (r: MainLayout)
    ensures
        r.use_big_timer == (height >= BIG_TIMER_MIN_HEIGHT),
        r.use_big_header == (height >= BIG_HEADER_MIN_HEIGHT),
        r.header_height == if r.use_big_header { BIG_HEADER_HEIGHT } else { 3 },
        r.timer_height == if r.use_big_timer { 9u16 } else { 3 },
{
    let use_big_timer = height >= BIG_TIMER_MIN_HEIGHT;
    let use_big_header = height >= BIG_HEADER_MIN_HEIGHT;
    MainLayout {
        use_big_header,
        use_big_timer,
        header_height: if use_big_header { BIG_HEADER_HEIGHT } else { 3 },
        timer_height: if use_big_timer { 9 } else { 3 },
    }
}

/// Whether the big header's inner area (`inner_width` cells) is wide
/// enough for the banner column and the info column side by side.
pub open spec fn side_by_side(inner_width: int) -> bool {
    inner_width >= BANNER_WIDTH + 2 + HEADER_INFO_MIN_WIDTH
}

pub fn header_side_by_side(inner_width: u16) -> (r: bool)
    ensures
        r == side_by_side(inner_width as int),
{
    inner_width >= BANNER_WIDTH + 2 + HEADER_INFO_MIN_WIDTH
}

/// Where the banner header draws the banner inside a frame, if the frame
/// is tall and wide enough for it: one cell in from the border, beside the
/// info column when both fit, else centred above it.
pub open spec fn banner_slot(area: Rect) -> Option<Rect> {
    let inner_x = area.x + 1;
    let inner_y = area.y + 1;
    let inner_width: int = if area.width >= 2 { area.width - 2 } else { 0 };
    if area.height < BIG_HEADER_MIN_HEIGHT || inner_width < BANNER_WIDTH {
        None
    } else {
        let slot_x = if side_by_side(inner_width) { inner_x + 1 } else { inner_x + (inner_width - BANNER_WIDTH) / 2 };
        Some(Rect { x: slot_x as u16, y: inner_y as u16, width: BANNER_WIDTH, height: BANNER_HEIGHT })
    }
}

/// The exact rect where the big-header banner is drawn (the landing spot
/// of the splash's slide-in), or `None` when the compact header is in use.
/// `area` lies within the terminal's coordinate range.
pub fn header_banner_slot(area: Rect) -> (r: Option<Rect>)
    requires
        area.x + area.width <= u16::MAX,
        area.y + area.height <= u16::MAX,
        area.height >= BIG_HEADER_MIN_HEIGHT ==> area.x < u16::MAX,
    ensures
        r == banner_slot(area),
{
    if area.height < BIG_HEADER_MIN_HEIGHT {
        return None;
    }
    let inner_x = area.x + 1;
    let inner_y = area.y + 1;
    let inner_width = if area.width >= 2 { area.width - 2 } else { 0 };
    if inner_width < BANNER_WIDTH {
        return None;
    }
    let slot_x = if header_side_by_side(inner_width) {
        inner_x + 1
    } else {
        inner_x + (inner_width - BANNER_WIDTH) / 2
    };
    Some(Rect { x: slot_x, y: inner_y, width: BANNER_WIDTH, height: BANNER_HEIGHT })
}

/// The banner slot lies inside the frame's border.
pub proof fn banner_slot_inside_frame(area: Rect)
    requires
        area.x + area.width <= u16::MAX,
        area.y + area.height <= u16::MAX,
    ensures
        banner_slot(area) matches Some(s) ==> {
            &&& area.x < s.x
            &&& s.x + s.width < area.x + area.width
            &&& area.y < s.y
            &&& s.y + s.height < area.y + area.height
        },
{
}

} // verus!
