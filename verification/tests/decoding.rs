use sonic_flow::controller::{handle_playlist_command, ControllerAction, PlaylistCommand};
use sonic_flow::decoding::{
    check_decodable, check_extension, check_loadable, check_playable, mp3_stream_format, mp3_total_samples,
    samples_for_seconds, stream_format_info,
};
use sonic_flow::errors::AudioError;
use sonic_flow::format::AudioFormatType;
use sonic_flow::playlist::{Playlist, RepeatMode, TrackInfo};
use sonic_flow::time::Duration;

#[test]
fn unsupported_extension_rejected_before_io() {
    let result = check_decodable("music.xyz");
    assert!(matches!(result, Err(AudioError::UnsupportedFormat { .. })));
}

#[test]
fn missing_extension_rejected() {
    let result = check_decodable("music_no_ext");
    assert!(matches!(result, Err(AudioError::UnsupportedFormat { .. })));
}

#[test]
fn refusal_names_extension() {
    assert_eq!(
        check_decodable("a.XYZ"),
        Err(AudioError::UnsupportedFormat { format: "XYZ".into() })
    );
    assert_eq!(
        check_decodable("noext"),
        Err(AudioError::UnsupportedFormat { format: "no extension".into() })
    );
    assert_eq!(check_decodable("a.FLAC"), Ok(AudioFormatType::Flac));
}

#[test]
fn load_and_play_checks() {
    assert_eq!(
        check_loadable("gone.mp3", false),
        Err(AudioError::Streaming("File not found: gone.mp3".into()))
    );
    assert_eq!(
        check_loadable("noext", true),
        Err(AudioError::UnsupportedFormat { format: "no_extension".into() })
    );
    assert_eq!(check_loadable("song.Mp3", true), Ok(AudioFormatType::Mp3));
    assert_eq!(
        check_playable("noext", true),
        Err(AudioError::UnsupportedFormat { format: "unknown".into() })
    );
    assert_eq!(
        check_playable("a.doc", true),
        Err(AudioError::UnsupportedFormat { format: "doc".into() })
    );
    assert_eq!(
        check_playable("gone.wav", false),
        Err(AudioError::Streaming("File not found: gone.wav".into()))
    );
}

#[test]
fn stream_formats() {
    let info = stream_format_info("x.flac", None, Some(6), Some(24), Some(Duration::from_secs(2)));
    assert_eq!(info.sample_rate, 44100);
    assert_eq!(info.channels, 6);
    assert_eq!(info.bit_depth, Some(24));
    assert_eq!(info.format_type, AudioFormatType::Flac);
    assert_eq!(info.codec_name, "FLAC");
    let info = stream_format_info("x", Some(8000), None, None, None);
    assert_eq!(info.format_type, AudioFormatType::Unknown("unknown".into()));
    assert_eq!(info.codec_name, "Unknown");
    let f = mp3_stream_format(None, None, Some(65536 + 24));
    assert_eq!((f.sample_rate, f.channels, f.bit_depth), (44100, 2, 24));
    assert_eq!(f.format_type, AudioFormatType::Mp3);
}

fn track(n: usize) -> TrackInfo {
    TrackInfo {
        path: format!("/m/{n}.mp3"),
        title: format!("T{n}"),
        artist: String::new(),
        duration: None,
    }
}

#[test]
fn controller_adds_and_starts_playback() {
    let mut p = Playlist::new();
    let a = handle_playlist_command(&mut p, PlaylistCommand::AddTracks(vec![track(1), track(2)]), false);
    assert_eq!(
        a,
        vec![
            ControllerAction::EmitPlaylistUpdated,
            ControllerAction::LoadAndPlay("/m/1.mp3".into()),
            ControllerAction::EmitPlaylistUpdated
        ]
    );
    assert_eq!(p.current_index(), Some(0));
    let a = handle_playlist_command(&mut p, PlaylistCommand::AddTracks(vec![track(3)]), false);
    assert_eq!(a, vec![ControllerAction::EmitPlaylistUpdated]);
    let a = handle_playlist_command(&mut p, PlaylistCommand::NextTrack, true);
    assert_eq!(
        a,
        vec![
            ControllerAction::LoadAndPlay("/m/2.mp3".into()),
            ControllerAction::EmitPlaylistUpdated
        ]
    );
}

#[test]
fn controller_stops_at_end_of_playlist() {
    let mut p = Playlist::new();
    handle_playlist_command(&mut p, PlaylistCommand::AddTracks(vec![track(1)]), false);
    let a = handle_playlist_command(&mut p, PlaylistCommand::TrackEnded, false);
    assert_eq!(a, vec![ControllerAction::StopPlayer]);
    let a = handle_playlist_command(&mut p, PlaylistCommand::NextTrack, false);
    assert_eq!(
        a,
        vec![
            ControllerAction::LoadAndPlay("/m/1.mp3".into()),
            ControllerAction::EmitPlaylistUpdated
        ]
    );
    handle_playlist_command(&mut p, PlaylistCommand::CycleRepeat, false);
    assert_eq!(p.repeat_mode, RepeatMode::One);
    let a = handle_playlist_command(&mut p, PlaylistCommand::SelectTrack(4), false);
    assert!(a.is_empty());
    let a = handle_playlist_command(&mut p, PlaylistCommand::ClearPlaylist, false);
    assert_eq!(a, vec![ControllerAction::StopPlayer, ControllerAction::EmitPlaylistUpdated]);
    assert!(p.is_empty());
}

#[test]
fn adding_while_playing_does_not_start() {
    let mut p = Playlist::new();
    let a = handle_playlist_command(&mut p, PlaylistCommand::AddTracks(vec![track(1)]), true);
    assert_eq!(a, vec![ControllerAction::EmitPlaylistUpdated]);
    assert_eq!(p.current_index(), None);
    let a = handle_playlist_command(&mut p, PlaylistCommand::AddTracks(vec![]), false);
    assert_eq!(
        a,
        vec![
            ControllerAction::EmitPlaylistUpdated,
            ControllerAction::LoadAndPlay("/m/1.mp3".into()),
            ControllerAction::EmitPlaylistUpdated
        ]
    );
}

#[test]
fn controller_remove_keeps_selection_in_place() {
    let mut p = Playlist::new();
    handle_playlist_command(&mut p, PlaylistCommand::AddTracks(vec![track(1), track(2), track(3)]), false);
    handle_playlist_command(&mut p, PlaylistCommand::SelectTrack(2), false);
    let a = handle_playlist_command(&mut p, PlaylistCommand::RemoveTrack(0), true);
    assert_eq!(a, vec![ControllerAction::EmitPlaylistUpdated]);
    assert_eq!(p.current_index(), Some(1));
    assert_eq!(p.current().unwrap().path, "/m/3.mp3");
    handle_playlist_command(&mut p, PlaylistCommand::ToggleShuffle, true);
    assert!(p.shuffle_enabled);
    assert_eq!(p.shuffle_order()[0], 1);
    handle_playlist_command(&mut p, PlaylistCommand::RemoveTrack(1), true);
    assert_eq!(p.current_index(), Some(0));
    assert_eq!(p.shuffle_order(), &[0]);
    assert_eq!(p.repeat_mode, RepeatMode::Off);
}

#[test]
fn mp3_total_sample_counts() {
    assert_eq!(mp3_total_samples(Some(44100), Some((1, 44100)), Some(441_000)), Some(Some(441_000)));
    assert_eq!(mp3_total_samples(Some(48000), Some((1, 1000)), Some(2_500)), Some(Some(96_000)));
    assert_eq!(mp3_total_samples(None, Some((1, 44100)), Some(441_000)), Some(None));
    assert_eq!(mp3_total_samples(Some(44100), None, Some(1)), Some(None));
    assert_eq!(mp3_total_samples(Some(u32::MAX), Some((1, 1)), Some(u64::MAX)), None);
    assert_eq!(samples_for_seconds(3, 10), Some(30));
    assert_eq!(samples_for_seconds(u64::MAX, 2), None);
}

#[test]
fn extension_checks() {
    assert_eq!(check_extension(Some("Ogg"), "none"), Ok(AudioFormatType::Ogg));
    assert_eq!(
        check_extension(Some("Txt"), "none"),
        Err(AudioError::UnsupportedFormat { format: "Txt".into() })
    );
    assert_eq!(
        check_extension(None, "none"),
        Err(AudioError::UnsupportedFormat { format: "none".into() })
    );
}
