use radi::app::{AppState, RecentRecording, SyncState};
use radi::tui::splash::{splash_layout, SplashLayout, BANNER, BANNER_HEIGHT, BANNER_WIDTH};
use radi::tui::ui::{
    format_duration, format_recent_line, recent_line, format_upload_label, header_banner_slot, main_layout, phase_label,
    quit_question, recent_count_label, render_hints, state_accent, status_badge, sync_indicator_spans,
    timer_label, upload_gauge_label, header_side_by_side, sparkline_tone, HintRow, Piece, Rect, Tone,
    HEADER_INFO_MIN_WIDTH,
};
use radi::upload::metadata::EpisodeMetadata;
use radi::upload::progress::UploadPhase;

fn pieces_text(pieces: &[Piece]) -> String {
    pieces
        .iter()
        .map(|p| match p {
            Piece::Text(t, _) => t.as_str(),
            Piece::Spinner(_) => "",
        })
        .collect()
}

#[test]
fn banner_dimensions_match_constants() {
    let lines: Vec<&str> = BANNER.lines().collect();
    assert_eq!(lines.len(), BANNER_HEIGHT as usize);
    for l in &lines {
        assert_eq!(l.chars().count(), BANNER_WIDTH as usize, "line width mismatch: {l:?}");
    }
}

#[test]
fn upload_label_shows_percent_and_sizes() {
    let s = format_upload_label(1_572_864, 5_242_880);
    assert!(s.contains("30%"), "got: {s}");
    assert!(s.contains("1.5 MB"), "got: {s}");
    assert!(s.contains("5.0 MB"), "got: {s}");
}

#[test]
fn upload_label_with_zero_total_is_zero_percent() {
    let s = format_upload_label(0, 0);
    assert!(s.starts_with("0%"), "got: {s}");
}

#[test]
fn upload_label_clamps_over_100_percent() {
    let s = format_upload_label(10, 5);
    assert!(s.contains("100%"), "got: {s}");
}

#[test]
fn upload_label_exact_text() {
    assert_eq!(format_upload_label(1_572_864, 5_242_880), "30% \u{b7} 1.5 MB / 5.0 MB");
    assert_eq!(upload_gauge_label(5, 0), "starting\u{2026}");
    assert_eq!(upload_gauge_label(512, 1024), "50% \u{b7} 512 B / 1 KB");
    // The saturating product makes a huge, complete upload read 1%.
    assert!(format_upload_label(u64::MAX, u64::MAX).starts_with("1%"));
}

fn rec_with_episode(episode: Option<EpisodeMetadata>) -> RecentRecording {
    RecentRecording {
        path: "/tmp/recording_2026.mp3".into(),
        size: "1 KB".into(),
        duration: "0:01".into(),
        timestamp: "05-01 12:34".into(),
        episode,
    }
}

#[test]
fn recent_line_uses_filename_when_no_episode() {
    let rec = rec_with_episode(None);
    let line = format_recent_line(&rec, false);
    let text = pieces_text(&line);
    assert!(text.contains("recording_2026.mp3"), "got: {text}");
    assert!(!text.contains('\u{2191}'), "got: {text}");
}

#[test]
fn recent_line_uses_episode_title_and_badge_when_uploaded() {
    let meta = EpisodeMetadata {
        episode_id: "ep1".into(),
        title: "Cool Episode".into(),
        webview_url: "https://listen.style/p/x/ep1".into(),
        uploaded_at: "2026-05-01T12:34:56+09:00".into(),
    };
    let rec = rec_with_episode(Some(meta));
    let line = format_recent_line(&rec, false);
    let text = pieces_text(&line);
    assert!(text.contains("Cool Episode"), "title should replace filename, got: {text}");
    assert!(
        !text.contains("recording_2026.mp3"),
        "filename should not leak through alongside the title, got: {text}"
    );
    assert!(text.contains('\u{2191}'), "uploaded badge missing, got: {text}");
}

#[test]
fn recent_line_exact_columns() {
    let rec = rec_with_episode(None);
    let line = format_recent_line(&rec, true);
    assert_eq!(
        pieces_text(&line),
        format!("\u{25b8} {:<12}{:>9}  {:>7}    recording_2026.mp3", "05-01 12:34", "1 KB", "0:01")
    );
    let mut odd = rec_with_episode(None);
    odd.path = "/".into();
    assert!(pieces_text(&format_recent_line(&odd, false)).ends_with('?'));
}

#[test]
fn sync_indicator_idle_renders_nothing() {
    assert!(sync_indicator_spans(&SyncState::Idle).is_empty());
}

#[test]
fn sync_indicator_done_renders_nothing() {
    assert!(sync_indicator_spans(&SyncState::Done { updated: 0 }).is_empty());
    assert!(sync_indicator_spans(&SyncState::Done { updated: 5 }).is_empty());
}

#[test]
fn sync_indicator_syncing_includes_label() {
    let spans = sync_indicator_spans(&SyncState::Syncing);
    let text = pieces_text(&spans);
    assert!(text.contains("syncing"), "got: {text}");
    assert_eq!(spans[0], Piece::Spinner(Tone::Accent));
}

#[test]
fn sync_indicator_failed_includes_warning_label() {
    let spans = sync_indicator_spans(&SyncState::Failed("network: timed out".into()));
    let text = pieces_text(&spans);
    assert!(text.contains("sync failed"), "got: {text}");
    assert!(!text.contains("network"), "raw error should not leak into the title bar, got: {text}");
}

fn keys(row: HintRow) -> Vec<&'static str> {
    match row {
        HintRow::Keys(v) => v.into_iter().map(|(k, _)| k).collect(),
        _ => vec![],
    }
}

#[test]
fn hints_per_state() {
    assert_eq!(keys(render_hints(&AppState::Idle)), vec!["r", "\u{2191}\u{2193}", "o", "q"]);
    assert_eq!(keys(render_hints(&AppState::Recording)), vec!["s", "q"]);
    assert_eq!(render_hints(&AppState::Processing), HintRow::Locked);
    assert_eq!(render_hints(&AppState::Uploading("/a".into())), HintRow::Locked);
    assert_eq!(keys(render_hints(&AppState::Done("/a".into()))), vec!["u", "\u{2191}\u{2193}", "o", "r", "q"]);
    assert_eq!(
        keys(render_hints(&AppState::Uploaded { path: "/a".into(), webview_url: "u".into() })),
        vec!["o", "\u{2191}\u{2193}", "r", "q"]
    );
    assert_eq!(
        keys(render_hints(&AppState::UploadFailed { path: "/a".into(), error: "e".into() })),
        vec!["u", "\u{2191}\u{2193}", "o", "r", "q"]
    );
}

#[test]
fn badges_labels_and_accents() {
    assert_eq!(status_badge(&AppState::Recording).0, "\u{25cf} REC");
    assert_eq!(status_badge(&AppState::Idle).0, "\u{25a0} IDLE");
    assert_eq!(state_accent(&AppState::Processing), Tone::Busy);
    assert_eq!(state_accent(&AppState::Uploading("/a".into())), Tone::Busy);
    assert_eq!(timer_label(&AppState::Done("/a".into())), "Saved");
    assert_eq!(quit_question(&AppState::Recording), "Stop recording and quit?");
    assert_eq!(quit_question(&AppState::Idle), "Quit radi?");
    assert_eq!(phase_label(UploadPhase::Uploading), "Uploading");
    assert_eq!(recent_count_label(3), " (3) ");
}

#[test]
fn elapsed_clock() {
    assert_eq!(format_duration(0), "00:00:00");
    assert_eq!(format_duration(3661), "01:01:01");
    assert_eq!(format_duration(360_000), "100:00:00");
}

#[test]
fn banner_slot_geometry() {
    assert_eq!(header_banner_slot(Rect { x: 0, y: 0, width: 80, height: 26 }), None);
    assert_eq!(
        header_banner_slot(Rect { x: 0, y: 0, width: 80, height: 30 }),
        Some(Rect { x: 2, y: 1, width: BANNER_WIDTH, height: BANNER_HEIGHT })
    );
    // 40 columns: inner 38 < 29 + 18, so the banner is centred.
    assert_eq!(
        header_banner_slot(Rect { x: 0, y: 0, width: 40, height: 30 }),
        Some(Rect { x: 6, y: 1, width: BANNER_WIDTH, height: BANNER_HEIGHT })
    );
    assert_eq!(header_banner_slot(Rect { x: 0, y: 0, width: 28, height: 30 }), None);
}

#[test]
fn layouts_by_size() {
    let l = main_layout(30);
    assert!(l.use_big_header && l.use_big_timer);
    assert_eq!((l.header_height, l.timer_height), (9, 9));
    let l = main_layout(24);
    assert!(!l.use_big_header && l.use_big_timer);
    let l = main_layout(10);
    assert_eq!((l.header_height, l.timer_height), (3, 3));
    assert_eq!(splash_layout(80, 24), SplashLayout::Full);
    assert_eq!(splash_layout(25, 10), SplashLayout::BigText);
    assert_eq!(splash_layout(10, 5), SplashLayout::Plain);
}

#[test]
fn recent_line_names_by_given_file_name() {
    let rec = rec_with_episode(None);
    let line = recent_line(&rec, Some("take.mp3".into()), false);
    assert!(pieces_text(&line).ends_with("take.mp3"));
    let line = recent_line(&rec, None, false);
    assert!(pieces_text(&line).ends_with("  ?"));
}

#[test]
fn sparkline_tint_by_state() {
    assert_eq!(sparkline_tone(&AppState::Recording), Tone::Rec);
    assert_eq!(sparkline_tone(&AppState::Idle), Tone::AccentDim);
    assert_eq!(sparkline_tone(&AppState::Processing), state_accent(&AppState::Processing));
    let failed = AppState::UploadFailed { path: "/x.mp3".to_string(), error: "e".to_string() };
    assert_eq!(sparkline_tone(&failed), Tone::Bad);
}

#[test]
fn header_side_by_side_threshold() {
    let need = BANNER_WIDTH + 2 + HEADER_INFO_MIN_WIDTH;
    assert_eq!(need, 47);
    assert!(header_side_by_side(need));
    assert!(!header_side_by_side(need - 1));
}
