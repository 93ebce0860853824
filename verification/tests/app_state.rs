use radi::app::{
    begin_upload, on_key, reconcile_selected, rescan_due, recording_file_name, resolve_upload, sync_outcome, take_step,
    upload_pending, AppState, Command, Key, PeakHistory, RecentList, RecentRecording, SyncState, TakeEvent,
    LISTEN_NOT_CONFIGURED, PEAK_HISTORY_CAPACITY,
};

/// A row with just the path set; selection logic ignores the other fields.
fn rec(path: &str) -> RecentRecording {
    RecentRecording {
        path: path.to_string(),
        size: String::new(),
        duration: String::new(),
        timestamp: String::new(),
        episode: None,
    }
}

#[test]
fn allows_recent_navigation_matches_input_accepting_states() {
    assert!(AppState::Idle.allows_recent_navigation());
    assert!(AppState::Done("/x.mp3".to_string()).allows_recent_navigation());
    assert!(AppState::Uploaded {
        path: "/x.mp3".to_string(),
        webview_url: "https://example.invalid".into(),
    }
    .allows_recent_navigation());
    assert!(AppState::UploadFailed {
        path: "/x.mp3".to_string(),
        error: "boom".into(),
    }
    .allows_recent_navigation());

    assert!(!AppState::Recording.allows_recent_navigation());
    assert!(!AppState::Processing.allows_recent_navigation());
    assert!(!AppState::Uploading("/x.mp3".to_string()).allows_recent_navigation());
    assert!(!AppState::ConfirmQuit {
        previous: Box::new(AppState::Idle)
    }
    .allows_recent_navigation());
}

#[test]
fn selected_recent_is_none_on_empty_list() {
    let list = RecentList::new();
    assert!(list.selected_recent().is_none());
    assert!(list.selected_recording().is_none());
}

#[test]
fn reconcile_selected_returns_none_on_empty_list() {
    let prev = "/x.mp3".to_string();
    assert_eq!(reconcile_selected(&[], Some(&prev)), None);
    assert_eq!(reconcile_selected(&[], None), None);
}

#[test]
fn reconcile_selected_defaults_to_first_row_when_no_previous() {
    let list = vec![rec("/a.mp3"), rec("/b.mp3")];
    assert_eq!(reconcile_selected(&list, None), Some(0));
}

#[test]
fn reconcile_selected_follows_path_when_present() {
    let list = vec![rec("/c.mp3"), rec("/a.mp3"), rec("/b.mp3")];
    let prev = "/b.mp3".to_string();
    assert_eq!(reconcile_selected(&list, Some(&prev)), Some(2));
}

#[test]
fn reconcile_selected_falls_back_to_first_when_previous_is_gone() {
    let list = vec![rec("/a.mp3"), rec("/b.mp3")];
    let prev = "/gone.mp3".to_string();
    assert_eq!(reconcile_selected(&list, Some(&prev)), Some(0));
}

#[test]
fn reconcile_selected_picks_first_of_duplicate_paths() {
    let list = vec![rec("/a.mp3"), rec("/b.mp3"), rec("/b.mp3")];
    let prev = "/b.mp3".to_string();
    assert_eq!(reconcile_selected(&list, Some(&prev)), Some(1));
}

#[test]
fn select_recent_prev_clamps_at_zero() {
    let mut list = RecentList::new();
    list.replace(vec![rec("/a.mp3"), rec("/b.mp3")]);
    assert_eq!(list.selected_recent(), Some(0));
    list.select_recent_prev();
    assert_eq!(list.selected_recent(), Some(0));
}

#[test]
fn select_recent_next_clamps_at_last_row() {
    let mut list = RecentList::new();
    list.replace(vec![rec("/a.mp3"), rec("/b.mp3")]);
    list.select_recent_next();
    assert_eq!(list.selected_recent(), Some(1));
    list.select_recent_next();
    assert_eq!(list.selected_recent(), Some(1));
}

#[test]
fn select_recent_moves_within_bounds() {
    let mut list = RecentList::new();
    list.replace(vec![rec("/a.mp3"), rec("/b.mp3"), rec("/c.mp3")]);
    assert_eq!(list.selected_recent(), Some(0));
    list.select_recent_next();
    assert_eq!(list.selected_recent(), Some(1));
    list.select_recent_next();
    assert_eq!(list.selected_recent(), Some(2));
    list.select_recent_prev();
    assert_eq!(list.selected_recent(), Some(1));
}

#[test]
fn select_recent_is_noop_when_list_is_empty() {
    let mut list = RecentList::new();
    assert!(list.recent().is_empty());
    list.select_recent_next();
    list.select_recent_prev();
    assert_eq!(list.selected_recent(), None);
}

#[test]
fn rescan_keeps_cursor_on_the_same_recording() {
    let mut list = RecentList::new();
    list.replace(vec![rec("/a.mp3"), rec("/b.mp3")]);
    list.select_recent_next();
    assert_eq!(list.selected_recording().map(|r| r.path.clone()), Some("/b.mp3".to_string()));
    list.replace(vec![rec("/c.mp3"), rec("/a.mp3"), rec("/b.mp3")]);
    assert_eq!(list.selected_recent(), Some(2));
    list.replace(vec![rec("/c.mp3")]);
    assert_eq!(list.selected_recent(), Some(0));
    list.replace(vec![]);
    assert_eq!(list.selected_recent(), None);
}

#[test]
fn q_then_n_restores_the_state() {
    let (prompt, cmd) = on_key(AppState::Recording, Key::Char('q'), None, true);
    assert_eq!(cmd, Command::Nothing);
    assert_eq!(prompt, AppState::ConfirmQuit { previous: Box::new(AppState::Recording) });
    let (back, cmd) = on_key(prompt, Key::Char('n'), None, true);
    assert_eq!(back, AppState::Recording);
    assert_eq!(cmd, Command::Nothing);
}

#[test]
fn y_in_quit_prompt_stops_recording_then_quits() {
    let prompt = AppState::ConfirmQuit { previous: Box::new(AppState::Recording) };
    let (next, cmd) = on_key(prompt, Key::Char('y'), None, true);
    assert_eq!(next, AppState::Recording);
    assert_eq!(cmd, Command::StopRecordingThenQuit);

    let prompt = AppState::ConfirmQuit { previous: Box::new(AppState::Idle) };
    let (next, cmd) = on_key(prompt, Key::Char('y'), None, true);
    assert_eq!(next, AppState::Idle);
    assert_eq!(cmd, Command::Quit);
}

#[test]
fn other_keys_are_swallowed_by_quit_prompt() {
    let prompt = AppState::ConfirmQuit { previous: Box::new(AppState::Idle) };
    let (next, cmd) = on_key(prompt, Key::Char('r'), Some("u".into()), true);
    assert_eq!(next, AppState::ConfirmQuit { previous: Box::new(AppState::Idle) });
    assert_eq!(cmd, Command::Nothing);
}

#[test]
fn r_starts_or_restarts_recording() {
    assert_eq!(on_key(AppState::Idle, Key::Char('r'), None, false).1, Command::StartRecording);
    assert_eq!(
        on_key(AppState::Done("/a.mp3".into()), Key::Char('r'), None, false).1,
        Command::StartNewRecording
    );
    assert_eq!(on_key(AppState::Recording, Key::Char('r'), None, false).1, Command::Nothing);
    assert_eq!(on_key(AppState::Recording, Key::Char('s'), None, false).1, Command::StopRecording);
    assert_eq!(on_key(AppState::Idle, Key::Char('s'), None, false).1, Command::Nothing);
}

#[test]
fn o_prefers_selected_row_then_fresh_upload() {
    let uploaded = AppState::Uploaded { path: "/a.mp3".into(), webview_url: "https://l/ep".into() };
    let (_, cmd) = on_key(uploaded, Key::Char('o'), Some("https://l/sel".into()), true);
    assert_eq!(cmd, Command::OpenUrl("https://l/sel".into()));
    let uploaded = AppState::Uploaded { path: "/a.mp3".into(), webview_url: "https://l/ep".into() };
    let (_, cmd) = on_key(uploaded, Key::Char('o'), None, true);
    assert_eq!(cmd, Command::OpenUrl("https://l/ep".into()));
    assert_eq!(on_key(AppState::Idle, Key::Char('o'), None, true).1, Command::Nothing);
}

#[test]
fn arrows_follow_navigation_predicate() {
    assert_eq!(on_key(AppState::Idle, Key::Up, None, true).1, Command::SelectPrev);
    assert_eq!(on_key(AppState::Idle, Key::Down, None, true).1, Command::SelectNext);
    assert_eq!(on_key(AppState::Recording, Key::Down, None, true).1, Command::Nothing);
    assert_eq!(on_key(AppState::Uploading("/a".into()), Key::Up, None, true).1, Command::Nothing);
}

#[test]
fn u_uploads_when_configured_and_reports_otherwise() {
    let failed = AppState::UploadFailed { path: "/a.mp3".into(), error: "x".into() };
    let (next, cmd) = on_key(failed, Key::Char('u'), None, true);
    assert_eq!(next, AppState::Done("/a.mp3".into()));
    assert_eq!(cmd, Command::StartUpload);

    let (next, cmd) = on_key(AppState::Done("/a.mp3".into()), Key::Char('u'), None, false);
    assert_eq!(
        next,
        AppState::UploadFailed { path: "/a.mp3".into(), error: LISTEN_NOT_CONFIGURED.to_string() }
    );
    assert_eq!(cmd, Command::Nothing);
    assert_eq!(on_key(AppState::Idle, Key::Char('u'), None, true), (AppState::Idle, Command::Nothing));
}

#[test]
fn begin_upload_moves_done_to_uploading() {
    let (next, path) = begin_upload(AppState::Done("/a.mp3".into()));
    assert_eq!(next, AppState::Uploading("/a.mp3".into()));
    assert_eq!(path, Some("/a.mp3".to_string()));
    let (next, path) = begin_upload(AppState::Idle);
    assert_eq!(next, AppState::Idle);
    assert_eq!(path, None);
}

#[test]
fn resolve_upload_installs_result_and_keeps_prompt() {
    let s = AppState::Uploading("/a.mp3".into());
    assert!(upload_pending(&s));
    assert_eq!(
        resolve_upload(s, Ok("https://l/ep".into())),
        AppState::Uploaded { path: "/a.mp3".into(), webview_url: "https://l/ep".into() }
    );
    let s = AppState::ConfirmQuit { previous: Box::new(AppState::Uploading("/a.mp3".into())) };
    assert!(upload_pending(&s));
    assert_eq!(
        resolve_upload(s, Err("upload thread panicked".into())),
        AppState::ConfirmQuit {
            previous: Box::new(AppState::UploadFailed {
                path: "/a.mp3".into(),
                error: "upload thread panicked".into()
            })
        }
    );
    let s = AppState::ConfirmQuit { previous: Box::new(AppState::Idle) };
    assert!(!upload_pending(&s));
    assert_eq!(
        resolve_upload(s, Ok("u".into())),
        AppState::ConfirmQuit { previous: Box::new(AppState::Idle) }
    );
}

#[test]
fn recording_file_name_has_timestamp() {
    let name = recording_file_name("2026-05-01_12-34-56");
    assert_eq!(name, "recording_2026-05-01_12-34-56.mp3");
    assert!(name.starts_with("recording_"));
    assert!(name.ends_with(".mp3"));
}

#[test]
fn sync_state_compares_by_value() {
    assert_eq!(SyncState::Done { updated: 1 }, SyncState::Done { updated: 1 });
    assert_ne!(SyncState::Syncing, SyncState::Idle);
}

#[test]
fn take_moves_idle_recording_processing_done() {
    assert_eq!(take_step(&AppState::Idle, TakeEvent::Start), Some(AppState::Recording));
    assert_eq!(take_step(&AppState::Recording, TakeEvent::Stop), Some(AppState::Processing));
    assert_eq!(
        take_step(&AppState::Processing, TakeEvent::Encoded("/x.mp3".to_string())),
        Some(AppState::Done("/x.mp3".to_string()))
    );
}

#[test]
fn take_steps_out_of_order_do_nothing() {
    assert_eq!(take_step(&AppState::Recording, TakeEvent::Start), None);
    assert_eq!(take_step(&AppState::Idle, TakeEvent::Stop), None);
    assert_eq!(take_step(&AppState::Done("/x.mp3".to_string()), TakeEvent::Start), None);
    assert_eq!(take_step(&AppState::Idle, TakeEvent::Encoded("/x.mp3".to_string())), None);
    let quitting = AppState::ConfirmQuit { previous: Box::new(AppState::Recording) };
    assert_eq!(take_step(&quitting, TakeEvent::Stop), None);
}

#[test]
fn sync_outcome_keeps_idle_when_nothing_to_sync() {
    assert_eq!(sync_outcome(Ok(None)), SyncState::Idle);
    assert_eq!(sync_outcome(Ok(Some(0))), SyncState::Done { updated: 0 });
    assert_eq!(sync_outcome(Ok(Some(3))), SyncState::Done { updated: 3 });
    assert_eq!(sync_outcome(Err("boom".to_string())), SyncState::Failed("boom".to_string()));
}

#[test]
fn peak_history_keeps_the_latest_capacity_samples() {
    let mut h: PeakHistory<u32> = PeakHistory::new();
    assert!(h.samples().is_empty());
    for i in 0..(PEAK_HISTORY_CAPACITY as u32 + 5) {
        h.push(i);
    }
    let kept: Vec<u32> = h.samples().iter().copied().collect();
    assert_eq!(kept.len(), PEAK_HISTORY_CAPACITY);
    assert_eq!(kept[0], 5);
    assert_eq!(*kept.last().unwrap(), PEAK_HISTORY_CAPACITY as u32 + 4);
}

#[test]
fn peak_history_below_capacity_keeps_everything() {
    let mut h = PeakHistory::new();
    h.push(0.5f32);
    h.push(0.25f32);
    let kept: Vec<f32> = h.samples().iter().copied().collect();
    assert_eq!(kept, vec![0.5, 0.25]);
}

#[test]
fn reconcile_selected_compares_paths_by_component() {
    let rows = vec![rec("/d/b.mp3"), rec("/d/a.mp3")];
    let prev = "/d/./a.mp3".to_string();
    assert_eq!(reconcile_selected(&rows, Some(&prev)), Some(1));
    let prev = "//d/a.mp3/".to_string();
    assert_eq!(reconcile_selected(&rows, Some(&prev)), Some(1));
    let prev = "/d/../d/a.mp3".to_string();
    assert_eq!(reconcile_selected(&rows, Some(&prev)), Some(0));
}

#[test]
fn rescan_waits_for_the_refresh_interval() {
    assert!(rescan_due(false, None));
    assert!(!rescan_due(true, None));
    assert!(!rescan_due(false, Some(749)));
    assert!(rescan_due(false, Some(750)));
    assert!(!rescan_due(true, Some(10_000)));
}
