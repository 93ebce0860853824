use radi::upload::listen::{
    create_episode_variables, graphql_data, is_empty_errors, parse_created_episode, parse_episode_page,
    parse_presigned_upload, presigned_variables, request_body, string_field, EpisodeStatus, EpisodeSummary,
    Json, ListenError, Visibility,
};
use radi::upload::metadata::{apply_remote, sidecar_mp3, sidecar_path, upload_record, EpisodeMetadata};
use radi::upload::search::{EpisodeSearch, SearchStep};
use radi::upload::progress::{settle, ProgressReader, UploadPhase, UploadProgress};
use radi::upload::rehydrate::rehydrate;
use std::io::{Cursor, ErrorKind, Read};

fn fixture() -> EpisodeMetadata {
    EpisodeMetadata {
        episode_id: "ep_abc123".to_string(),
        title: "My great episode".to_string(),
        webview_url: "https://listen.style/p/foo/ep_abc123".to_string(),
        uploaded_at: "2026-05-01T12:34:56+09:00".to_string(),
    }
}

fn s(x: &str) -> Json {
    Json::Str(x.to_string())
}

fn obj(fields: Vec<(&str, Json)>) -> Json {
    Json::Object(fields.into_iter().map(|(k, v)| (k.to_string(), v)).collect())
}

#[test]
fn visibility_enum_serializes_as_expected() {
    assert_eq!(Visibility::Public.as_str(), "PUBLIC");
}

#[test]
fn episode_status_enum_serializes_as_expected() {
    assert_eq!(EpisodeStatus::Draft.as_str(), "DRAFT");
}

#[test]
fn apply_remote_updates_title_and_url_when_changed() {
    let mut meta = fixture();
    let summary = EpisodeSummary {
        id: meta.episode_id.clone(),
        title: Some("New title".into()),
        webview_url: "https://listen.style/p/foo/new".into(),
    };
    assert!(apply_remote(&mut meta, &summary));
    assert_eq!(meta.title, "New title");
    assert_eq!(meta.webview_url, "https://listen.style/p/foo/new");
}

#[test]
fn apply_remote_preserves_uploaded_at() {
    let mut meta = fixture();
    let original_uploaded_at = meta.uploaded_at.clone();
    let summary = EpisodeSummary {
        id: meta.episode_id.clone(),
        title: Some("Edited".into()),
        webview_url: meta.webview_url.clone(),
    };
    apply_remote(&mut meta, &summary);
    assert_eq!(meta.uploaded_at, original_uploaded_at);
}

#[test]
fn apply_remote_returns_false_when_nothing_changed() {
    let mut meta = fixture();
    let summary = EpisodeSummary {
        id: meta.episode_id.clone(),
        title: Some(meta.title.clone()),
        webview_url: meta.webview_url.clone(),
    };
    assert!(!apply_remote(&mut meta, &summary));
}

#[test]
fn apply_remote_keeps_local_title_when_remote_title_is_null() {
    let mut meta = fixture();
    let original_title = meta.title.clone();
    let summary = EpisodeSummary {
        id: meta.episode_id.clone(),
        title: None,
        webview_url: meta.webview_url.clone(),
    };
    assert!(!apply_remote(&mut meta, &summary));
    assert_eq!(meta.title, original_title);
}

#[test]
fn apply_remote_twice_reports_no_change() {
    let mut meta = fixture();
    let summary = EpisodeSummary {
        id: meta.episode_id.clone(),
        title: Some("New".into()),
        webview_url: "https://l/new".into(),
    };
    assert!(apply_remote(&mut meta, &summary));
    assert!(!apply_remote(&mut meta, &summary));
}

#[test]
fn sidecar_path_appends_json_to_mp3() {
    let p = sidecar_path("/tmp/recording_2026.mp3");
    assert_eq!(p, "/tmp/recording_2026.mp3.json");
}

#[test]
fn sidecar_path_preserves_extra_dots_in_name() {
    let p = sidecar_path("/tmp/r.foo.mp3");
    assert_eq!(p, "/tmp/r.foo.mp3.json");
}

#[test]
fn sidecar_entries_pair_with_their_mp3() {
    assert_eq!(
        sidecar_mp3("recording.mp3.json", "/d/recording.mp3.json"),
        Some("/d/recording.mp3".to_string())
    );
    assert_eq!(sidecar_mp3("notes.json", "/d/notes.json"), None);
    assert_eq!(sidecar_mp3("recording.mp3", "/d/recording.mp3"), None);
    let back = sidecar_mp3("r.mp3.json", &sidecar_path("/d/r.mp3")).unwrap();
    assert_eq!(back, "/d/r.mp3");
}

#[test]
fn add_uploaded_accumulates() {
    let p = UploadProgress::new();
    p.add_uploaded(10);
    p.add_uploaded(5);
    assert_eq!(p.uploaded(), 15);
}

#[test]
fn phase_round_trip() {
    let p = UploadProgress::new();
    for phase in [UploadPhase::Preparing, UploadPhase::Uploading, UploadPhase::Finalizing] {
        p.set_phase(phase);
        assert_eq!(p.phase(), phase);
    }
}

#[test]
fn progress_starts_at_zero_and_preparing() {
    let p = UploadProgress::new();
    assert_eq!(p.uploaded(), 0);
    assert_eq!(p.total(), 0);
    assert_eq!(p.phase(), UploadPhase::Preparing);
}

#[test]
fn progress_total_reads_back_and_codes_saturate() {
    let p = UploadProgress::new();
    p.set_total(17);
    assert_eq!(p.total(), 17);
    assert_eq!(UploadPhase::from_code(7), UploadPhase::Finalizing);
}

#[test]
fn progress_reader_counts_bytes_read() {
    let p = UploadProgress::new();
    let mut r = ProgressReader::new(Cursor::new(b"abcdefgh".to_vec()), p.clone());
    let mut buf = [0u8; 3];
    let n1 = r.read(&mut buf).unwrap();
    let n2 = r.read(&mut buf).unwrap();
    assert_eq!(n1, 3);
    assert_eq!(n2, 3);
    assert_eq!(p.uploaded(), 6);
    let n3 = r.read(&mut buf).unwrap();
    assert_eq!(n3, 2);
    assert_eq!(p.uploaded(), 8);
}

#[test]
fn progress_reader_zero_read_does_not_increment() {
    struct EofReader;
    impl Read for EofReader {
        fn read(&mut self, _buf: &mut [u8]) -> std::io::Result<usize> {
            Ok(0)
        }
    }
    let p = UploadProgress::new();
    let mut r = ProgressReader::new(EofReader, p.clone());
    let mut buf = [0u8; 8];
    assert_eq!(r.read(&mut buf).unwrap(), 0);
    assert_eq!(p.uploaded(), 0);
}

#[test]
fn progress_reader_propagates_errors() {
    struct ErrReader;
    impl Read for ErrReader {
        fn read(&mut self, _buf: &mut [u8]) -> std::io::Result<usize> {
            Err(std::io::Error::new(ErrorKind::Interrupted, "boom"))
        }
    }
    let p = UploadProgress::new();
    let mut r = ProgressReader::new(ErrReader, p.clone());
    let mut buf = [0u8; 8];
    let err = r.read(&mut buf).unwrap_err();
    assert_eq!(err.kind(), ErrorKind::Interrupted);
    assert_eq!(p.uploaded(), 0);
}

#[test]
fn settle_credits_successful_reads_and_passes_results_on() {
    let p = UploadProgress::new();
    assert_eq!(settle(Ok(5), &p).unwrap(), 5);
    assert_eq!(p.uploaded(), 5);
    assert_eq!(settle(Ok(0), &p).unwrap(), 0);
    assert_eq!(p.uploaded(), 5);
    let err = settle(Err(std::io::Error::new(ErrorKind::Interrupted, "boom")), &p).unwrap_err();
    assert_eq!(err.kind(), ErrorKind::Interrupted);
    assert_eq!(err.to_string(), "boom");
    assert_eq!(p.uploaded(), 5);
}

fn contains_text(j: &Json, needle: &str) -> bool {
    match j {
        Json::Str(t) => t.contains(needle),
        Json::Array(items) => items.iter().any(|x| contains_text(x, needle)),
        Json::Object(fields) => fields.iter().any(|(_, x)| contains_text(x, needle)),
        _ => false,
    }
}

#[test]
fn graphql_errors_are_surfaced() {
    let reply = obj(vec![("errors", Json::Array(vec![obj(vec![("message", s("forbidden"))])]))]);
    match graphql_data(reply) {
        Err(ListenError::GraphqlErrors(errors)) => assert!(contains_text(&errors, "forbidden")),
        other => panic!("unexpected {other:?}"),
    }
}

#[test]
fn graphql_errors_non_array_is_surfaced() {
    let reply = obj(vec![("errors", obj(vec![("message", s("boom"))]))]);
    match graphql_data(reply) {
        Err(ListenError::GraphqlErrors(errors)) => assert!(contains_text(&errors, "boom")),
        other => panic!("unexpected {other:?}"),
    }
}

#[test]
fn graphql_empty_errors_array_is_ignored() {
    let reply = obj(vec![
        ("errors", Json::Array(vec![])),
        (
            "data",
            obj(vec![(
                "createPresignedUploadUrl",
                obj(vec![("uploadUrl", s("u")), ("path", s("p")), ("publicUrl", s("pu"))]),
            )]),
        ),
    ]);
    let data = graphql_data(reply).expect("empty errors array should not fail");
    parse_presigned_upload(&data).expect("empty errors array should not fail");
}

#[test]
fn graphql_null_errors_and_missing_data() {
    let reply = obj(vec![("errors", Json::Null), ("data", s("d"))]);
    assert_eq!(graphql_data(reply), Ok(s("d")));
    assert!(is_empty_errors(&Json::Null));
    assert!(!is_empty_errors(&Json::Bool(false)));
    assert_eq!(graphql_data(obj(vec![])), Err(ListenError::MissingData));
}

#[test]
fn create_presigned_parses_response() {
    let reply = obj(vec![(
        "data",
        obj(vec![(
            "createPresignedUploadUrl",
            obj(vec![
                ("uploadUrl", s("https://s3.example/put?sig=1")),
                ("path", s("uploads/2026/abc.mp3")),
                ("publicUrl", s("https://cdn.example/abc.mp3")),
            ]),
        )]),
    )]);
    let data = graphql_data(reply).unwrap();
    let p = parse_presigned_upload(&data).unwrap();
    assert_eq!(p.upload_url, "https://s3.example/put?sig=1");
    assert_eq!(p.path, "uploads/2026/abc.mp3");
    assert_eq!(p.public_url, "https://cdn.example/abc.mp3");
    let partial = obj(vec![("createPresignedUploadUrl", obj(vec![("uploadUrl", s("u"))]))]);
    assert_eq!(parse_presigned_upload(&partial), Err(ListenError::MissingField("path".into())));
    assert_eq!(
        parse_presigned_upload(&obj(vec![])),
        Err(ListenError::MissingNode("createPresignedUploadUrl"))
    );
    assert_eq!(
        presigned_variables("foo.mp3", "audio/mpeg"),
        obj(vec![("fileName", s("foo.mp3")), ("type", s("AUDIO")), ("contentType", s("audio/mpeg"))])
    );
}

#[test]
fn create_episode_sends_variables() {
    let v = create_episode_variables("pod", "t", None, "uploads/x.mp3", Visibility::Public, EpisodeStatus::Draft);
    assert_eq!(
        v,
        obj(vec![
            ("podcastId", s("pod")),
            ("title", s("t")),
            ("description", Json::Null),
            ("visibility", s("PUBLIC")),
            ("audioPath", s("uploads/x.mp3")),
            ("status", s("DRAFT")),
        ])
    );
    let body = request_body("q", Json::Null);
    assert_eq!(body, obj(vec![("query", s("q")), ("variables", Json::Null)]));
    let data = obj(vec![(
        "createEpisode",
        obj(vec![("id", s("ep123")), ("webviewUrl", s("https://listen.style/p/pod/ep123"))]),
    )]);
    let ep = parse_created_episode(&data).unwrap();
    assert_eq!(ep.id, "ep123");
    assert_eq!(ep.webview_url, "https://listen.style/p/pod/ep123");
    let bad = obj(vec![("createEpisode", obj(vec![("id", Json::Number("1".into()))]))]);
    assert_eq!(parse_created_episode(&bad), Err(ListenError::MissingField("id".into())));
    assert_eq!(string_field(&s("x"), "id"), Err(ListenError::MissingField("id".into())));
}

#[test]
fn episode_page_is_read() {
    let data = obj(vec![(
        "podcast",
        obj(vec![(
            "episodes",
            obj(vec![
                ("paginatorInfo", obj(vec![("hasMorePages", Json::Bool(false))])),
                (
                    "data",
                    Json::Array(vec![
                        obj(vec![("id", s("ep_a")), ("title", s("new A")), ("webviewUrl", s("https://l/a"))]),
                        obj(vec![("id", s("ep_b")), ("title", Json::Null), ("webviewUrl", s("https://l/b"))]),
                    ]),
                ),
            ]),
        )]),
    )]);
    let (rows, more) = parse_episode_page(&data).unwrap();
    assert!(!more);
    assert_eq!(rows.len(), 2);
    assert_eq!(rows[0], EpisodeSummary { id: "ep_a".into(), title: Some("new A".into()), webview_url: "https://l/a".into() });
    assert_eq!(rows[1].title, None);
    assert_eq!(parse_episode_page(&obj(vec![])), Err(ListenError::MissingNode("podcast.episodes")));
}

fn meta(id: &str, title: &str) -> EpisodeMetadata {
    EpisodeMetadata {
        episode_id: id.to_string(),
        title: title.to_string(),
        webview_url: format!("https://listen.style/old/{id}"),
        uploaded_at: "2026-04-01T00:00:00+00:00".to_string(),
    }
}

#[test]
fn rehydrate_updates_drifted_titles_and_returns_change_count() {
    let pairs = vec![
        ("/d/a.mp3".to_string(), meta("ep_a", "old A")),
        ("/d/b.mp3".to_string(), meta("ep_b", "B unchanged")),
    ];
    let summaries = vec![
        EpisodeSummary { id: "ep_a".into(), title: Some("new A".into()), webview_url: "https://listen.style/new/ep_a".into() },
        EpisodeSummary { id: "ep_b".into(), title: Some("B unchanged".into()), webview_url: "https://listen.style/old/ep_b".into() },
    ];
    let out = rehydrate(pairs, &summaries);
    assert_eq!(out.iter().filter(|r| r.2).count(), 1);
    assert_eq!(out[0].0, "/d/a.mp3");
    assert_eq!(out[0].1.title, "new A");
    assert_eq!(out[0].1.webview_url, "https://listen.style/new/ep_a");
    assert_eq!(out[0].1.uploaded_at, "2026-04-01T00:00:00+00:00", "uploaded_at must be preserved across rehydrate");
    assert_eq!(out[1].1.title, "B unchanged");
}

#[test]
fn rehydrate_leaves_sidecar_untouched_when_episode_missing_server_side() {
    let pairs = vec![("/d/gone.mp3".to_string(), meta("ep_gone", "still here"))];
    let out = rehydrate(pairs, &Vec::new());
    assert_eq!(out.iter().filter(|r| r.2).count(), 0);
    assert_eq!(out[0].1.title, "still here");
    assert_eq!(out[0].1, meta("ep_gone", "still here"));
}

#[test]
fn rehydrate_uses_last_duplicate_summary() {
    let pairs = vec![("/d/a.mp3".to_string(), meta("ep_a", "old"))];
    let summaries = vec![
        EpisodeSummary { id: "ep_a".into(), title: Some("first".into()), webview_url: "u1".into() },
        EpisodeSummary { id: "ep_a".into(), title: Some("second".into()), webview_url: "u2".into() },
    ];
    let out = rehydrate(pairs, &summaries);
    assert_eq!(out[0].1.title, "second");
    assert_eq!(out[0].1.webview_url, "u2");
}

#[test]
fn rehydrate_with_no_sidecars_skips_network() {
    // No sidecars: the episode search is finished before any request, and
    // there is nothing to rewrite.
    let search = EpisodeSearch::new(Vec::new());
    assert_eq!(search.next_step(), SearchStep::Finished);
    let plan = rehydrate(Vec::new(), &search.into_found());
    let updated = plan.iter().filter(|(_, _, changed)| *changed).count();
    assert_eq!(updated, 0);
}

#[test]
fn record_upload_writes_sidecar_with_rfc3339_timestamp() {
    let now: i128 = 1_777_593_600_123_000_000;
    let written = upload_record("ep_xyz", "Hello world", "https://listen.style/p/x/ep_xyz", now, 9 * 3600)
        .expect("a present-day time can be placed");
    assert_eq!(written.episode_id, "ep_xyz");
    assert_eq!(written.title, "Hello world");
    assert_eq!(written.webview_url, "https://listen.style/p/x/ep_xyz");
    chrono::DateTime::parse_from_rfc3339(&written.uploaded_at).expect("uploaded_at must be RFC 3339");
    assert_eq!(written.uploaded_at, "2026-05-01T09:00:00.123+09:00");
}
