use sonic_flow::format::AudioFormatType;
use sonic_flow::time::Duration;
use sonic_flow::utils::{
    format_duration, format_duration_with_hours, format_file_size, get_format_from_path,
    is_audio_file, is_scanned_audio_path, AUDIO_EXTENSIONS,
};

#[test]
fn test_audio_file_detection() {
    assert!(is_audio_file("test.mp3"));
    assert!(is_audio_file("song.flac"));
    assert!(is_audio_file("audio.wav"));
    assert!(!is_audio_file("document.txt"));
    assert!(!is_audio_file("no_extension"));
}

#[test]
fn test_format_from_path() {
    let format = get_format_from_path("test.mp3");
    assert_eq!(format, Some(AudioFormatType::Mp3));

    let format = get_format_from_path("test.unknown");
    assert_eq!(format, None);
}

#[test]
fn test_duration_formatting() {
    let duration = Duration::from_secs(125); // 2:05
    assert_eq!(format_duration(duration), "02:05");

    let duration = Duration::from_secs(3665); // 1:01:05
    assert_eq!(format_duration_with_hours(duration), "01:01:05");

    let duration = Duration::from_secs(65); // 1:05 (no hours)
    assert_eq!(format_duration_with_hours(duration), "01:05");
}

#[test]
fn test_file_size_formatting() {
    assert_eq!(format_file_size(512), "512 B");
    assert_eq!(format_file_size(1536), "1.5 KB");
    assert_eq!(format_file_size(1024 * 1024), "1.0 MB");
    assert_eq!(format_file_size(1024 * 1024 * 1024), "1.0 GB");
}

/// The rendering agrees with formatting the size as a double.
fn by_floats(size: u64) -> String {
    const UNITS: &[&str] = &["B", "KB", "MB", "GB"];
    let mut s = size as f64;
    let mut u = 0;
    while s >= 1024.0 && u < UNITS.len() - 1 {
        s /= 1024.0;
        u += 1;
    }
    if u == 0 {
        format!("{} {}", s as u64, UNITS[u])
    } else {
        format!("{:.1} {}", s, UNITS[u])
    }
}

#[test]
fn file_size_agrees_with_float_rendering() {
    let samples: Vec<u64> = vec![
        0, 1, 1023, 1024, 1075, 1126, 1280, 1331, 1382, 1433, 1484, 1587, 1638, 1689,
        1048575, 1048576 * 3 / 2, 5 * 1024 * 1024 + 512 * 1024 + 51 * 1024,
        1073741823, 1073741824, 3 * 1073741824 / 2, 999_999_999_999,
        (1u64 << 53) - 1, 1u64 << 53, (1u64 << 53) + 1, (1u64 << 54) + 3,
        u64::MAX, u64::MAX - 1, 123_456_789_012_345_678,
    ];
    for s in samples {
        assert_eq!(format_file_size(s), by_floats(s), "size {}", s);
    }
    let mut x: u64 = 12345;
    for _ in 0..20000 {
        x = x.wrapping_mul(6364136223846793005).wrapping_add(1442695040888963407);
        let s = x >> (x % 60);
        assert_eq!(format_file_size(s), by_floats(s), "size {}", s);
    }
}

#[test]
fn ties_round_to_even_tenth() {
    // 1280 bytes are exactly 1.25 KB; 1.25 rounds to the even tenth.
    assert_eq!(format_file_size(1280), "1.2 KB");
    assert_eq!(format_file_size(1792), "1.8 KB");
}

#[test]
fn durations_past_an_hour_and_long_minutes() {
    assert_eq!(format_duration(Duration::from_secs(0)), "00:00");
    assert_eq!(format_duration(Duration::from_secs(3665)), "61:05");
    assert_eq!(format_duration(Duration::from_secs(6000 * 60)), "6000:00");
    assert_eq!(format_duration(Duration::from_millis(59_999)), "00:59");
    assert_eq!(format_duration_with_hours(Duration::from_secs(100 * 3600 + 1)), "100:00:01");
}

#[test]
fn scanned_paths_are_audio_extensions_in_any_case() {
    assert_eq!(AUDIO_EXTENSIONS, ["mp3", "flac", "wav", "ogg", "m4a", "aac"]);
    assert!(is_scanned_audio_path("/a/b.MP3"));
    assert!(is_scanned_audio_path("c.m4a"));
    assert!(!is_scanned_audio_path("d.opus"));
    assert!(!is_scanned_audio_path("e.txt"));
    assert!(!is_scanned_audio_path("mp3"));
}
