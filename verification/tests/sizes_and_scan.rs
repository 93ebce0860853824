use radi::scan::{format_mp3_duration, is_mp3_extension, newest_first, recent_row, ScanEntry};
use radi::size::format_size;

/// The size label exactly as the float formatting produces it.
fn float_size(bytes: u64) -> String {
    const KB: f64 = 1024.0;
    const MB: f64 = KB * 1024.0;
    const GB: f64 = MB * 1024.0;
    let b = bytes as f64;
    if b >= GB {
        format!("{:.2} GB", b / GB)
    } else if b >= MB {
        format!("{:.1} MB", b / MB)
    } else if b >= KB {
        format!("{:.0} KB", b / KB)
    } else {
        format!("{bytes} B")
    }
}

#[test]
fn format_size_examples() {
    assert_eq!(format_size(0), "0 B");
    assert_eq!(format_size(1023), "1023 B");
    assert_eq!(format_size(1024), "1 KB");
    assert_eq!(format_size(1_572_864), "1.5 MB");
    assert_eq!(format_size(5_242_880), "5.0 MB");
    assert_eq!(format_size(1_073_741_824), "1.00 GB");
}

#[test]
fn format_size_rounds_ties_to_even() {
    // 1.5 KB and 2.5 KB are exact ties.
    assert_eq!(format_size(1536), float_size(1536));
    assert_eq!(format_size(2560), float_size(2560));
    // 1.25 MB and 1.125 GB are exact ties at one and two digits.
    assert_eq!(format_size(1_310_720), float_size(1_310_720));
    assert_eq!(format_size(1_207_959_552), float_size(1_207_959_552));
}

#[test]
fn format_size_matches_float_formatting() {
    let mut samples: Vec<u64> = Vec::new();
    for i in 0..4096u64 {
        samples.push(i);
        samples.push(i * 512);
        samples.push(i * 262_144 + 7);
        samples.push(i * 134_217_728 + 3);
        samples.push(i.wrapping_mul(0x9E37_79B9_7F4A_7C15));
    }
    for k in 0..64u32 {
        let p = 1u64 << k;
        samples.push(p);
        samples.push(p - 1);
        samples.push(p.wrapping_add(1));
        samples.push(p.wrapping_add(p / 2));
    }
    samples.push(u64::MAX);
    samples.push(u64::MAX - 1024);
    samples.push((1u64 << 53) + 1);
    samples.push((1u64 << 54) + 2);
    samples.push((1u64 << 54) + 6);
    for b in samples {
        assert_eq!(format_size(b), float_size(b), "bytes = {b}");
    }
}

#[test]
fn mp3_duration_column() {
    assert_eq!(format_mp3_duration(Some(0)), "   0:00");
    assert_eq!(format_mp3_duration(Some(61)), "   1:01");
    assert_eq!(format_mp3_duration(Some(3599)), "  59:59");
    assert_eq!(format_mp3_duration(Some(3600)), "1:00:00");
    assert_eq!(format_mp3_duration(Some(36_000 + 62)), "10:01:02");
    assert_eq!(format_mp3_duration(None), "     --");
    for t in [0u64, 5, 59, 60, 61, 599, 3599, 3600, 7322, 86_399] {
        let (h, m, s) = (t / 3600, (t % 3600) / 60, t % 60);
        let expected = if h == 0 { format!("{m:>4}:{s:02}") } else { format!("{h}:{m:02}:{s:02}") };
        assert_eq!(format_mp3_duration(Some(t)), expected);
    }
}

#[test]
fn mp3_extension_ignores_ascii_case() {
    assert!(is_mp3_extension(Some("mp3")));
    assert!(is_mp3_extension(Some("MP3")));
    assert!(is_mp3_extension(Some("Mp3")));
    assert!(!is_mp3_extension(Some("mp4")));
    assert!(!is_mp3_extension(Some("mp33")));
    assert!(!is_mp3_extension(Some("json")));
    assert!(!is_mp3_extension(None));
}

fn entry(modified: Option<i128>, path: &str) -> ScanEntry {
    ScanEntry { modified, path: path.as_bytes().to_vec(), size: 0 }
}

#[test]
fn newest_first_orders_by_time_then_path() {
    let entries = vec![
        entry(Some(10), "/d/a.mp3"),
        entry(None, "/d/z.mp3"),
        entry(Some(30), "/d/b.mp3"),
        entry(Some(30), "/d/c.mp3"),
        entry(Some(20), "/d/d.mp3"),
        entry(None, "/d/y.mp3"),
    ];
    assert_eq!(newest_first(&entries), vec![3, 2, 4, 0, 1, 5]);
}

#[test]
fn newest_first_matches_stable_sort_and_truncates() {
    let mut entries = Vec::new();
    for i in 0..40i128 {
        let m = if i % 7 == 0 { None } else { Some((i * 37) % 11) };
        entries.push(entry(m, &format!("/d/rec_{:02}.mp3", (i * 13) % 40)));
    }
    // A few exact duplicates exercise the tie rule.
    entries.push(entry(Some(5), "/d/rec_05.mp3"));
    entries.push(entry(Some(5), "/d/rec_05.mp3"));
    let mut idx: Vec<usize> = (0..entries.len()).collect();
    idx.sort_by(|&a, &b| {
        entries[b].modified.cmp(&entries[a].modified).then_with(|| entries[b].path.cmp(&entries[a].path))
    });
    idx.truncate(16);
    assert_eq!(newest_first(&entries), idx);
    assert!(newest_first(&Vec::new()).is_empty());
}

#[test]
fn recent_row_formats_columns() {
    let row = recent_row("/d/a.mp3".into(), 1_572_864, Some(61), None, None);
    assert_eq!(row.path, "/d/a.mp3");
    assert_eq!(row.size, "1.5 MB");
    assert_eq!(row.duration, "   1:01");
    assert_eq!(row.timestamp, "\u{2014}");
    assert!(row.episode.is_none());
    let row = recent_row("/d/a.mp3".into(), 10, None, Some("05-01 12:34".into()), None);
    assert_eq!(row.timestamp, "05-01 12:34");
    assert_eq!(row.duration, "     --");
}
