use sonic_flow::control::{
    playback_state_label, seek_reply, should_auto_start, skip_backward_target,
    skip_forward_target, status_flags, track_ended, track_summaries, transport_reply,
    status_texts, FormatInfo, TransportRequest, events_after_load, events_after_request,
    toggle_request, LoadEvent,
};
use sonic_flow::errors::{AudioError, Error};
use sonic_flow::format::{AudioFormat, AudioFormatType};
use sonic_flow::playlist::TrackInfo;
use sonic_flow::renderer::AudioRenderer;
use sonic_flow::time::Duration;

#[test]
fn summaries_follow_tracks() {
    let tracks = vec![
        TrackInfo { path: "a".into(), title: "A".into(), artist: "X".into(), duration: None },
        TrackInfo {
            path: "b".into(),
            title: "B".into(),
            artist: "Y".into(),
            duration: Some(Duration::from_secs(3)),
        },
    ];
    let s = track_summaries(&tracks);
    assert_eq!(s.len(), 2);
    assert_eq!(s[1].title, "B");
    assert_eq!(s[1].duration, Some(Duration::from_secs(3)));
}

#[test]
fn track_end_detection() {
    assert!(track_ended(true, false, false, true));
    assert!(!track_ended(true, false, true, true));
    assert!(!track_ended(true, false, false, false));
    assert!(!track_ended(false, false, false, true));
    assert!(should_auto_start(false, None));
    assert!(!should_auto_start(true, None));
    assert!(!should_auto_start(false, Some(0)));
}

#[test]
fn skips_are_clamped() {
    let pos = Duration::from_secs(50);
    let ten = Duration::from_secs(10);
    assert_eq!(skip_forward_target(pos, ten, Some(Duration::from_secs(55))), Duration::from_secs(55));
    assert_eq!(skip_forward_target(pos, ten, None), Duration::from_secs(60));
    assert_eq!(skip_backward_target(Duration::from_secs(5), ten), Duration::zero());
    assert_eq!(skip_backward_target(pos, ten), Duration::from_secs(40));
    let max = Duration::new(u64::MAX, 999_999_999);
    assert_eq!(skip_forward_target(max, ten, None), max);
}

#[test]
fn labels_and_replies() {
    assert_eq!(playback_state_label(true, true), "Playing");
    assert_eq!(playback_state_label(false, true), "Paused");
    assert_eq!(playback_state_label(false, false), "Stopped");
    assert_eq!(transport_reply(TransportRequest::Play, true), Ok(()));
    assert_eq!(
        transport_reply(TransportRequest::Pause, false),
        Err(AudioError::InvalidState { from: "no_player".into(), to: "pause".into() })
    );
    assert_eq!(
        seek_reply(),
        Err(AudioError::UnsupportedFormat { format: "seek_not_implemented".into() })
    );
    assert_eq!(status_flags(None), (false, true));
    assert_eq!(status_flags(Some(true)), (true, false));
}

#[test]
fn format_info_and_errors() {
    let f = AudioFormat { sample_rate: 44100, channels: 2, bit_depth: 16, format_type: AudioFormatType::Flac };
    let i = FormatInfo::from_format(&f);
    assert_eq!((i.sample_rate, i.channels, i.bit_depth), (44100, 2, 16));
    assert_eq!(
        AudioError::InvalidState { from: "a".into(), to: "b".into() }.message(),
        "invalid state transition: a -> b"
    );
    assert_eq!(AudioError::BufferUnderrun.message(), "buffer underrun");
    let e: Error = AudioError::Decode("bad".into()).into();
    assert!(matches!(e, Error::Audio(AudioError::Decode(_))));
    let r = AudioRenderer::new().unwrap();
    assert!(r.is_ready());
}

#[test]
fn durations() {
    let d = Duration::new(1, 1_500_000_000);
    assert_eq!(d.as_secs(), 2);
    assert_eq!(d.subsec_nanos(), 500_000_000);
    assert_eq!(d.checked_add(&Duration::new(u64::MAX, 0)), None);
    assert_eq!(Duration::from_millis(2500).as_nanos(), 2_500_000_000);
    assert_eq!(Duration::from_secs(3).min(Duration::from_secs(2)), Duration::from_secs(2));
}

#[test]
fn display_name_and_format_label() {
    assert_eq!(sonic_flow::control::track_display_name("/a/b/song.flac"), "song");
    assert_eq!(sonic_flow::control::track_display_name("/"), "Unknown");
    assert_eq!(sonic_flow::control::file_format_label("/a/b/song.flac"), Some("FLAC".to_string()));
    assert_eq!(sonic_flow::control::file_format_label("/a/b/song"), None);
}

#[test]
fn status_texts_with_a_track() {
    let t = status_texts(
        Some("music/Song One.flac"),
        false,
        true,
        Duration::from_secs(65),
        Some(Duration::from_secs(3600 + 5)),
        Some(FormatInfo { sample_rate: 96000, channels: 2, bit_depth: 24 }),
    );
    assert_eq!(t.track_title, "Song One");
    assert_eq!(t.track_artist, "Unknown Artist");
    assert_eq!(t.track_album, "Unknown Album");
    assert_eq!(t.file_format.as_deref(), Some("FLAC"));
    assert_eq!(t.playback_state, "Paused");
    assert_eq!(t.position_text, "01:05");
    assert_eq!(t.duration_text, "60:05");
    assert_eq!(
        t.quality,
        Some(("96000 Hz".to_string(), "2".to_string(), "24 bit".to_string()))
    );
}

#[test]
fn status_texts_without_a_track() {
    let t = status_texts(None, false, false, Duration::zero(), None, None);
    assert_eq!(t.track_title, "No track loaded");
    assert_eq!(t.track_artist, "");
    assert_eq!(t.file_format.as_deref(), Some(""));
    assert_eq!(t.playback_state, "Stopped");
    assert_eq!(t.position_text, "00:00");
    assert_eq!(t.duration_text, "--:--");
    assert!(t.quality.is_none());
    let noext = status_texts(Some("track"), true, false, Duration::zero(), None, None);
    assert!(noext.file_format.is_none());
    assert_eq!(noext.playback_state, "Playing");
}

#[test]
fn load_events() {
    let ok = events_after_load("a.mp3".to_string(), Ok(()));
    assert_eq!(
        ok,
        vec![
            LoadEvent::TrackLoadingStarted("a.mp3".to_string()),
            LoadEvent::TrackLoadingCompleted { path: "a.mp3".to_string(), success: true, error: None },
        ]
    );
    let failed = events_after_load(
        "b.xyz".to_string(),
        Err(AudioError::UnsupportedFormat { format: "xyz".to_string() }),
    );
    assert_eq!(
        failed,
        vec![
            LoadEvent::TrackLoadingStarted("b.xyz".to_string()),
            LoadEvent::TrackLoadingCompleted {
                path: "b.xyz".to_string(),
                success: false,
                error: Some("unsupported format: xyz".to_string()),
            },
            LoadEvent::ErrorOccurred("unsupported format: xyz".to_string()),
        ]
    );
}

#[test]
fn request_events_and_toggle() {
    assert!(events_after_request(Ok(())).is_empty());
    assert_eq!(
        events_after_request(Err(AudioError::BufferUnderrun)),
        vec![LoadEvent::ErrorOccurred("buffer underrun".to_string())]
    );
    assert_eq!(toggle_request(true), TransportRequest::Pause);
    assert_eq!(toggle_request(false), TransportRequest::Play);
}
