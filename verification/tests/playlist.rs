use sonic_flow::playlist::{Playlist, RepeatMode, TrackInfo};
use sonic_flow::time::Duration;

fn make_track(n: usize) -> TrackInfo {
    TrackInfo {
        path: format!("/music/track_{n:02}.mp3"),
        title: format!("Track {n}"),
        artist: "Artist".into(),
        duration: Some(Duration::from_secs(180)),
    }
}

fn playlist_of(n: usize) -> Playlist {
    let mut p = Playlist::new();
    p.add_tracks((1..=n).map(make_track).collect());
    p
}

fn title(t: Option<&TrackInfo>) -> Option<&str> {
    t.map(|t| t.title.as_str())
}

#[test]
fn add_and_select() {
    let mut p = playlist_of(3);
    assert_eq!(p.len(), 3);
    let t = p.select(1).expect("index 1 should exist");
    assert_eq!(t.title, "Track 2");
    assert_eq!(p.current_index(), Some(1));
}

#[test]
fn next_sequential() {
    let mut p = playlist_of(3);
    p.select(0);
    assert_eq!(title(p.next()), Some("Track 2"));
    assert_eq!(title(p.next()), Some("Track 3"));
    assert!(p.next().is_none()); // end of list, no repeat
}

#[test]
fn next_repeat_all() {
    let mut p = playlist_of(3);
    p.repeat_mode = RepeatMode::All;
    p.select(2);
    assert_eq!(title(p.next()), Some("Track 1"));
}

#[test]
fn next_repeat_one() {
    let mut p = playlist_of(3);
    p.repeat_mode = RepeatMode::One;
    p.select(1);
    assert_eq!(title(p.next()), Some("Track 2"));
    assert_eq!(title(p.next()), Some("Track 2"));
}

#[test]
fn previous_sequential() {
    let mut p = playlist_of(3);
    p.select(2);
    assert_eq!(title(p.previous()), Some("Track 2"));
    assert_eq!(title(p.previous()), Some("Track 1"));
    // At first track without repeat — stays at 0
    assert_eq!(title(p.previous()), Some("Track 1"));
}

#[test]
fn remove_current_track() {
    let mut p = playlist_of(3);
    p.select(1);
    p.remove(1);
    assert_eq!(p.len(), 2);
    // current_index clamped to new length
    assert!(p.current_index() <= Some(1));
}

#[test]
fn remove_track_before_current() {
    let mut p = playlist_of(3);
    p.select(2);
    p.remove(0);
    assert_eq!(p.current_index(), Some(1)); // index shifted down
}

#[test]
fn clear_resets_state() {
    let mut p = playlist_of(3);
    p.select(1);
    p.clear();
    assert!(p.is_empty());
    assert_eq!(p.current_index(), None);
}

#[test]
fn total_duration() {
    let p = playlist_of(3);
    assert_eq!(p.total_duration(), Duration::from_secs(540)); // 3 * 180
}

#[test]
fn shuffle_covers_all_tracks() {
    let mut p = playlist_of(5);
    p.select(0);
    p.toggle_shuffle();
    assert!(p.shuffle_enabled);
    assert_eq!(p.shuffle_order().len(), 5);

    let mut visited = std::collections::HashSet::new();
    visited.insert(p.current_index().unwrap());
    for _ in 0..4 {
        p.next();
        if let Some(idx) = p.current_index() {
            visited.insert(idx);
        }
    }
    assert_eq!(visited.len(), 5, "all 5 tracks should be visited");
}

// ---------------------------------------------------------------------------
// Further cases
// ---------------------------------------------------------------------------

#[test]
fn repeat_mode_cycles_with_period_three() {
    let m = RepeatMode::Off;
    assert_eq!(m.cycle(), RepeatMode::One);
    assert_eq!(m.cycle().cycle(), RepeatMode::All);
    assert_eq!(m.cycle().cycle().cycle(), RepeatMode::Off);
    let mut p = playlist_of(1);
    p.cycle_repeat();
    assert_eq!(p.repeat_mode, RepeatMode::One);
    assert_eq!(RepeatMode::default(), RepeatMode::Off);
}

#[test]
fn next_from_nothing_selected_starts_at_first() {
    let mut p = playlist_of(3);
    assert_eq!(title(p.next()), Some("Track 1"));
    assert_eq!(p.current_index(), Some(0));
}

#[test]
fn next_and_previous_on_empty_playlist() {
    let mut p = Playlist::new();
    assert!(p.next().is_none());
    assert!(p.previous().is_none());
    assert!(p.current().is_none());
}

#[test]
fn previous_with_repeat_all_wraps_to_last() {
    let mut p = playlist_of(3);
    p.repeat_mode = RepeatMode::All;
    p.select(0);
    assert_eq!(title(p.previous()), Some("Track 3"));
}

#[test]
fn previous_undoes_next_in_order() {
    let mut p = playlist_of(4);
    p.select(1);
    p.next();
    assert_eq!(title(p.previous()), Some("Track 2"));
}

#[test]
fn repeat_all_returns_after_full_round() {
    let mut p = playlist_of(4);
    p.repeat_mode = RepeatMode::All;
    p.select(2);
    for _ in 0..4 {
        p.next();
    }
    assert_eq!(p.current_index(), Some(2));
}

#[test]
fn select_past_end_changes_nothing() {
    let mut p = playlist_of(2);
    p.select(1);
    assert!(p.select(5).is_none());
    assert_eq!(p.current_index(), Some(1));
}

#[test]
fn remove_last_selected_moves_to_new_last() {
    let mut p = playlist_of(3);
    p.select(2);
    p.remove(2);
    assert_eq!(p.current_index(), Some(1));
    assert_eq!(title(p.current()), Some("Track 2"));
}

#[test]
fn remove_only_track_clears_selection() {
    let mut p = playlist_of(1);
    p.select(0);
    p.remove(0);
    assert!(p.is_empty());
    assert_eq!(p.current_index(), None);
}

#[test]
fn remove_other_track_keeps_selected_track() {
    let mut p = playlist_of(4);
    p.select(1);
    p.remove(3);
    assert_eq!(title(p.current()), Some("Track 2"));
    p.remove(0);
    assert_eq!(title(p.current()), Some("Track 2"));
}

#[test]
fn remove_past_end_changes_nothing() {
    let mut p = playlist_of(2);
    p.remove(7);
    assert_eq!(p.len(), 2);
}

#[test]
fn shuffle_puts_current_track_first() {
    let mut p = playlist_of(6);
    p.select(3);
    p.toggle_shuffle();
    assert_eq!(p.shuffle_order()[0], 3);
    let mut order = p.shuffle_order().to_vec();
    order.sort();
    assert_eq!(order, vec![0, 1, 2, 3, 4, 5]);
    p.toggle_shuffle();
    assert!(!p.shuffle_enabled);
}

#[test]
fn shuffle_end_without_repeat_stops() {
    let mut p = playlist_of(3);
    p.select(0);
    p.toggle_shuffle();
    p.next();
    p.next();
    assert!(p.next().is_none());
    assert_eq!(p.current_index(), None);
}

#[test]
fn adding_tracks_while_shuffled_extends_order() {
    let mut p = playlist_of(2);
    p.toggle_shuffle();
    p.add_tracks(vec![make_track(3), make_track(4)]);
    assert_eq!(&p.shuffle_order()[2..], &[2, 3]);
    assert_eq!(p.len(), 4);
}

#[test]
fn selecting_in_shuffle_moves_shuffle_position() {
    let mut p = playlist_of(5);
    p.toggle_shuffle();
    let order = p.shuffle_order().to_vec();
    p.select(order[3]);
    p.next();
    assert_eq!(p.current_index(), Some(order[4]));
}

#[test]
fn total_duration_skips_unknown_lengths() {
    let mut p = playlist_of(2);
    let mut t = make_track(3);
    t.duration = None;
    p.add_tracks(vec![t]);
    assert_eq!(p.total_duration(), Duration::from_secs(360));
    assert_eq!(p.try_total_duration(), Some(Duration::from_secs(360)));
}

#[test]
fn total_duration_overflow_is_reported() {
    let mut p = Playlist::new();
    let big = Duration::new(u64::MAX, 0);
    let mut a = make_track(1);
    a.duration = Some(big);
    let mut b = make_track(2);
    b.duration = Some(Duration::from_secs(1));
    p.add_tracks(vec![a, b]);
    assert_eq!(p.try_total_duration(), None);
}

#[test]
fn track_info_from_path_and_metadata() {
    let t = TrackInfo::from_path("/music/Artist - Song.flac".to_string());
    assert_eq!(t.title, "Artist - Song");
    assert_eq!(t.artist, "");
    assert!(t.duration.is_none());
    let t = t.with_metadata(Some(String::new()), Some("Someone".into()), Some(Duration::from_secs(7)));
    assert_eq!(t.title, "Artist - Song");
    assert_eq!(t.artist, "Someone");
    assert_eq!(t.duration, Some(Duration::from_secs(7)));
    let t = t.with_metadata(Some("Real Title".into()), None, None);
    assert_eq!(t.title, "Real Title");
    assert_eq!(t.artist, "Someone");
    assert!(t.duration.is_none());
    let u = TrackInfo::from_path("/".to_string());
    assert_eq!(u.title, "Unknown");
}
