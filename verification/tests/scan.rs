use sonic_flow::scan::{audio_paths, sort_paths};

#[test]
fn keeps_audio_files_in_order() {
    let found = vec![
        "dir/b.FLAC".to_string(),
        "dir/c.txt".to_string(),
        "dir/a.mp3".to_string(),
        "dir/noext".to_string(),
        "dir/d.wav".to_string(),
        "dir/e.opus".to_string(),
    ];
    assert_eq!(
        audio_paths(found),
        vec!["dir/b.FLAC".to_string(), "dir/a.mp3".to_string(), "dir/d.wav".to_string()]
    );
    assert!(audio_paths(Vec::new()).is_empty());
}

#[test]
fn scanned_paths_come_in_path_order() {
    let found = vec![
        "music/b.mp3".to_string(),
        "music-old/a.mp3".to_string(),
        "music/a.flac".to_string(),
        "album/z.wav".to_string(),
    ];
    // Paths are ordered component by component: "music" comes before
    // "music-old", although '-' sorts before '/' as a character.
    assert_eq!(
        sort_paths(found),
        vec![
            "album/z.wav".to_string(),
            "music/a.flac".to_string(),
            "music/b.mp3".to_string(),
            "music-old/a.mp3".to_string(),
        ]
    );
    assert!(sort_paths(Vec::new()).is_empty());
}

#[test]
fn scan_keeps_and_orders_audio_files() {
    let found = vec!["d/c.txt".to_string(), "d/b.wav".to_string(), "d/a.MP3".to_string()];
    assert_eq!(sort_paths(audio_paths(found)), vec!["d/a.MP3".to_string(), "d/b.wav".to_string()]);
}
