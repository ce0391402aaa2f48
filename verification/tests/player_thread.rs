use sonic_flow::control::TransportRequest;
use sonic_flow::errors::AudioError;
use sonic_flow::player_thread::{player_step, PlayerAction, PlayerEvent, PlayerReply, PlayerThreadState};

fn no_player_error(to: &str) -> AudioError {
    AudioError::InvalidState { from: "no_player".to_string(), to: to.to_string() }
}

#[test]
fn volume_and_status_without_player() {
    let s = PlayerThreadState::new();
    let (s, action, reply) = player_step(s, PlayerEvent::SetVolume, None);
    assert_eq!(action, PlayerAction::Nothing);
    assert!(matches!(reply, PlayerReply::Done(Ok(()))));
    let (s, action, reply) = player_step(s, PlayerEvent::GetStatus, None);
    assert_eq!(action, PlayerAction::Nothing);
    match reply {
        PlayerReply::Status { is_playing, is_paused, current_track, position, duration, format } => {
            assert!(!is_playing);
            assert!(is_paused);
            assert_eq!(current_track, None);
            assert_eq!(position.as_nanos(), 0);
            assert!(duration.is_none());
            assert!(format.is_none());
        }
        other => panic!("unexpected reply {:?}", other),
    }
    assert!(s.running);
}

#[test]
fn transport_and_seek_without_player_then_shutdown() {
    let s = PlayerThreadState::new();
    let (s, _, r1) = player_step(s, PlayerEvent::Request(TransportRequest::Play), None);
    let (s, _, r2) = player_step(s, PlayerEvent::Request(TransportRequest::Pause), None);
    let (s, _, r3) = player_step(s, PlayerEvent::Request(TransportRequest::Stop), None);
    let (s, _, r4) = player_step(s, PlayerEvent::Seek, None);
    assert!(matches!(r1, PlayerReply::Done(Err(e)) if e == no_player_error("play")));
    assert!(matches!(r2, PlayerReply::Done(Err(e)) if e == no_player_error("pause")));
    assert!(matches!(r3, PlayerReply::Done(Err(e)) if e == no_player_error("stop")));
    assert!(matches!(
        r4,
        PlayerReply::Done(Err(AudioError::UnsupportedFormat { format })) if format == "seek_not_implemented"
    ));
    let (s, action, r5) = player_step(s, PlayerEvent::Shutdown, None);
    assert_eq!(action, PlayerAction::Nothing);
    assert!(matches!(r5, PlayerReply::Exit));
    assert!(!s.running);
}

#[test]
fn successful_load_records_track() {
    let s = PlayerThreadState::new();
    let ev = PlayerEvent::Loaded { path: "song.mp3".to_string(), result: Ok(()), has_player: true };
    let (s, action, reply) = player_step(s, ev, Some(true));
    assert_eq!(action, PlayerAction::ApplyVolume);
    assert!(matches!(reply, PlayerReply::Done(Ok(()))));
    assert!(s.has_player);
    assert_eq!(s.current_track.as_deref(), Some("song.mp3"));
    let (s, _, reply) = player_step(s, PlayerEvent::GetStatus, Some(true));
    match reply {
        PlayerReply::Status { is_playing, is_paused, current_track, .. } => {
            assert!(is_playing);
            assert!(!is_paused);
            assert_eq!(current_track.as_deref(), Some("song.mp3"));
        }
        other => panic!("unexpected reply {:?}", other),
    }
    let (s, action, reply) = player_step(s, PlayerEvent::Request(TransportRequest::Pause), Some(true));
    assert_eq!(action, PlayerAction::Pause);
    assert!(matches!(reply, PlayerReply::Done(Ok(()))));
    let (s, action, _) = player_step(s, PlayerEvent::SetVolume, Some(false));
    assert_eq!(action, PlayerAction::ApplyVolume);
    let (s, action, reply) = player_step(s, PlayerEvent::Shutdown, Some(false));
    assert_eq!(action, PlayerAction::Stop);
    assert!(matches!(reply, PlayerReply::Exit));
    assert!(!s.running);
    assert_eq!(s.current_track.as_deref(), Some("song.mp3"));
}

#[test]
fn failed_load_keeps_previous_track() {
    let s = PlayerThreadState::new();
    let ok = PlayerEvent::Loaded { path: "a.wav".to_string(), result: Ok(()), has_player: true };
    let (s, _, _) = player_step(s, ok, Some(true));
    let err = AudioError::UnsupportedFormat { format: "xyz".to_string() };
    let bad = PlayerEvent::Loaded { path: "b.xyz".to_string(), result: Err(err.clone()), has_player: true };
    let (s, action, reply) = player_step(s, bad, Some(true));
    assert_eq!(action, PlayerAction::Nothing);
    assert!(matches!(reply, PlayerReply::Done(Err(e)) if e == err));
    assert_eq!(s.current_track.as_deref(), Some("a.wav"));
}
