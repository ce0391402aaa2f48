//! The controller's handling of playlist commands: the playlist operation,
//! and what the controller asks of the player and the interface afterwards.

use vstd::prelude::*;

use crate::playlist::{current_after_remove, Playlist, PlaylistView, TrackInfo};
use crate::shuffle::index_range;

verus! {

/// A playlist command sent from the interface to the controller.
#[derive(Debug)]
pub enum PlaylistCommand {
    /// Add tracks to the playlist.
    AddTracks(Vec<TrackInfo>),
    /// Advance to the next track.
    NextTrack,
    /// Return to the previous track.
    PreviousTrack,
    /// Jump to the track at an index.
    SelectTrack(usize),
    /// Remove the track at an index.
    RemoveTrack(usize),
    /// Clear the playlist.
    ClearPlaylist,
    /// Toggle shuffle mode.
    ToggleShuffle,
    /// Cycle the repeat mode.
    CycleRepeat,
    /// The playing track ran to its end.
    TrackEnded,
}

/// What the controller asks for after a playlist command.
#[derive(Debug, Clone, PartialEq, Eq)]
pub enum ControllerAction {
    /// Load the file at this path and start playing it.
    LoadAndPlay(String),
    /// Tell the interface that the playlist changed.
    EmitPlaylistUpdated,
    /// Stop the player.
    StopPlayer,
}

/// An action, with its path as text.
pub ghost enum ActionView {
    LoadAndPlay(Seq<char>),
    EmitPlaylistUpdated,
    StopPlayer,
}

/// The view of an action.
pub open spec fn action_view(a: ControllerAction) -> ActionView {
    match a {
        ControllerAction::LoadAndPlay(p) => ActionView::LoadAndPlay(p@),
        ControllerAction::EmitPlaylistUpdated => ActionView::EmitPlaylistUpdated,
        ControllerAction::StopPlayer => ActionView::StopPlayer,
    }
}

/// The views of a list of actions.
pub open spec fn action_views(actions: Seq<ControllerAction>) -> Seq<ActionView> {
    actions.map_values(|a: ControllerAction| action_view(a))
}

/// Loading the selected track and reporting the change, when a track is
/// selected; nothing otherwise.
pub open spec fn load_selected(t: Option<TrackInfo>) -> Seq<ActionView> {
    match t {
        Some(track) => seq![ActionView::LoadAndPlay(track.path@), ActionView::EmitPlaylistUpdated],
        None => seq![],
    }
}

/// The actions that follow adding tracks: the change is reported; when the
/// player is idle and nothing was selected, the first track is selected,
/// loaded where there is one, and the change reported again.
pub open spec fn actions_after_add(auto_start: bool, selected: Option<TrackInfo>) -> Seq<ActionView> {
    if auto_start {
        seq![ActionView::EmitPlaylistUpdated] + match selected {
            Some(track) => seq![ActionView::LoadAndPlay(track.path@)],
            None => seq![],
        } + seq![ActionView::EmitPlaylistUpdated]
    } else {
        seq![ActionView::EmitPlaylistUpdated]
    }
}

/// Appends the load of the selected track, if any.
fn push_load(actions: &mut Vec<ControllerAction>, t: Option<&TrackInfo>)
    ensures
        action_views(final(actions)@) == action_views(old(actions)@) + match t {
            Some(track) => seq![ActionView::LoadAndPlay(track.path@)],
            None => seq![],
        },
{
    let ghost before = actions@;
    match t {
        Some(track) => {
            actions.push(ControllerAction::LoadAndPlay(track.path.clone()));
        },
        None => {},
    }
    proof {
        assert(action_views(actions@) =~= action_views(before) + match t {
            Some(track) => seq![ActionView::LoadAndPlay(track.path@)],
            None => seq![],
        });
    }
}

/// Carries out a playlist command on `playlist` and returns what the
/// controller must do next. `player_playing` tells whether the player is
/// playing; it decides whether added tracks start playing at once.
pub fn handle_playlist_command(playlist: &mut Playlist, cmd: PlaylistCommand, player_playing: bool) -> (r:
    Vec<ControllerAction>)
    requires
        old(playlist).wf(),
    ensures
        final(playlist).wf(),
        match cmd {
            PlaylistCommand::AddTracks(infos) => {
                let n = old(playlist)@.tracks.len();
                let added = PlaylistView {
                    tracks: old(playlist)@.tracks + infos@,
                    order: if old(playlist)@.shuffle {
                        old(playlist)@.order + index_range(n, n + infos@.len())
                    } else {
                        old(playlist)@.order
                    },
                    ..old(playlist)@
                };
                let auto_start = !player_playing && old(playlist)@.current is None;
                &&& final(playlist)@ == (if auto_start {
                    added.after_select(0)
                } else {
                    added
                })
                &&& action_views(r@) == actions_after_add(auto_start, final(playlist)@.current_track())
            },
            PlaylistCommand::NextTrack => {
                &&& final(playlist)@ == old(playlist)@.after_next()
                &&& action_views(r@) == load_selected(final(playlist)@.current_track())
            },
            PlaylistCommand::PreviousTrack => {
                &&& final(playlist)@ == old(playlist)@.after_previous()
                &&& action_views(r@) == load_selected(final(playlist)@.current_track())
            },
            PlaylistCommand::SelectTrack(i) => {
                &&& final(playlist)@ == old(playlist)@.after_select(i)
                &&& action_views(r@) == load_selected(
                    if i < old(playlist)@.tracks.len() {
                        Some(old(playlist)@.tracks[i as int])
                    } else {
                        None
                    },
                )
            },
            PlaylistCommand::RemoveTrack(i) => {
                &&& (i < old(playlist)@.tracks.len() ==> {
                    &&& final(playlist)@.tracks == old(playlist)@.tracks.remove(i as int)
                    &&& final(playlist)@.current == current_after_remove(
                        old(playlist)@.current,
                        i,
                        final(playlist)@.tracks.len(),
                    )
                    &&& final(playlist)@.repeat == old(playlist)@.repeat
                    &&& final(playlist)@.shuffle == old(playlist)@.shuffle
                    &&& if old(playlist)@.shuffle {
                        final(playlist)@.freshly_shuffled(old(playlist)@.pos)
                            && final(playlist)@.shuffled_from_clock()
                    } else {
                        final(playlist)@.order == old(playlist)@.order && final(playlist)@.pos == old(
                            playlist,
                        )@.pos
                    }
                })
                &&& (i >= old(playlist)@.tracks.len() ==> final(playlist)@ == old(playlist)@)
                &&& action_views(r@) == seq![ActionView::EmitPlaylistUpdated]
            },
            PlaylistCommand::ClearPlaylist => {
                &&& final(playlist)@.tracks.len() == 0
                &&& final(playlist)@.current is None
                &&& final(playlist)@.order.len() == 0
                &&& final(playlist)@.pos == 0
                &&& final(playlist)@.repeat == old(playlist)@.repeat
                &&& final(playlist)@.shuffle == old(playlist)@.shuffle
                &&& action_views(r@) == seq![ActionView::StopPlayer, ActionView::EmitPlaylistUpdated]
            },
            PlaylistCommand::ToggleShuffle => {
                &&& final(playlist)@.shuffle == !old(playlist)@.shuffle
                &&& final(playlist)@.tracks == old(playlist)@.tracks
                &&& final(playlist)@.current == old(playlist)@.current
                &&& final(playlist)@.repeat == old(playlist)@.repeat
                &&& if final(playlist)@.shuffle {
                    final(playlist)@.freshly_shuffled(old(playlist)@.pos)
                        && final(playlist)@.shuffled_from_clock()
                } else {
                    final(playlist)@.order == old(playlist)@.order && final(playlist)@.pos == old(
                        playlist,
                    )@.pos
                }
                &&& action_views(r@) == seq![ActionView::EmitPlaylistUpdated]
            },
            PlaylistCommand::CycleRepeat => {
                &&& final(playlist)@ == (PlaylistView {
                    repeat: crate::playlist::next_repeat_mode(old(playlist)@.repeat),
                    ..old(playlist)@
                })
                &&& action_views(r@) == seq![ActionView::EmitPlaylistUpdated]
            },
            PlaylistCommand::TrackEnded => {
                &&& final(playlist)@ == old(playlist)@.after_next()
                &&& action_views(r@) == match final(playlist)@.current_track() {
                    Some(track) => load_selected(Some(track)),
                    None => seq![ActionView::StopPlayer],
                }
            },
        },
{
    let mut actions: Vec<ControllerAction> = Vec::new();
    let ghost start = actions@;
    match cmd {
        PlaylistCommand::AddTracks(infos) => {
            playlist.add_tracks(infos);
            actions.push(ControllerAction::EmitPlaylistUpdated);
            proof {
                assert(action_views(actions@) =~= seq![ActionView::EmitPlaylistUpdated]);
            }
            if !player_playing && playlist.current_index().is_none() {
                let ghost before_select = playlist@;
                playlist.select(0);
                let ghost after_emit = actions@;
                push_load(&mut actions, playlist.current());
                let ghost mid = actions@;
                actions.push(ControllerAction::EmitPlaylistUpdated);
                proof {
                    assert(action_views(actions@) =~= action_views(mid) + seq![
                        ActionView::EmitPlaylistUpdated,
                    ]);
                    assert(playlist@.current == before_select.after_select(0).current);
                }
            }
        },
        PlaylistCommand::NextTrack => {
            let next = playlist.next();
            push_load(&mut actions, next);
            let ghost mid = actions@;
            if next.is_some() {
                actions.push(ControllerAction::EmitPlaylistUpdated);
                proof {
                    assert(action_views(actions@) =~= action_views(mid) + seq![
                        ActionView::EmitPlaylistUpdated,
                    ]);
                }
            }
            proof {
                assert(action_views(start) =~= Seq::<ActionView>::empty());
            }
        },
        PlaylistCommand::PreviousTrack => {
            let prev = playlist.previous();
            push_load(&mut actions, prev);
            let ghost mid = actions@;
            if prev.is_some() {
                actions.push(ControllerAction::EmitPlaylistUpdated);
                proof {
                    assert(action_views(actions@) =~= action_views(mid) + seq![
                        ActionView::EmitPlaylistUpdated,
                    ]);
                }
            }
            proof {
                assert(action_views(start) =~= Seq::<ActionView>::empty());
            }
        },
        PlaylistCommand::SelectTrack(i) => {
            let selected = playlist.select(i);
            push_load(&mut actions, selected);
            let ghost mid = actions@;
            if selected.is_some() {
                actions.push(ControllerAction::EmitPlaylistUpdated);
                proof {
                    assert(action_views(actions@) =~= action_views(mid) + seq![
                        ActionView::EmitPlaylistUpdated,
                    ]);
                }
            }
            proof {
                assert(action_views(start) =~= Seq::<ActionView>::empty());
            }
        },
        PlaylistCommand::RemoveTrack(i) => {
            playlist.remove(i);
            actions.push(ControllerAction::EmitPlaylistUpdated);
        },
        PlaylistCommand::ClearPlaylist => {
            playlist.clear();
            actions.push(ControllerAction::StopPlayer);
            actions.push(ControllerAction::EmitPlaylistUpdated);
        },
        PlaylistCommand::ToggleShuffle => {
            playlist.toggle_shuffle();
            actions.push(ControllerAction::EmitPlaylistUpdated);
        },
        PlaylistCommand::CycleRepeat => {
            playlist.cycle_repeat();
            actions.push(ControllerAction::EmitPlaylistUpdated);
        },
        PlaylistCommand::TrackEnded => {
            let next = playlist.next();
            if next.is_some() {
                push_load(&mut actions, next);
                let ghost mid = actions@;
                actions.push(ControllerAction::EmitPlaylistUpdated);
                proof {
                    assert(action_views(actions@) =~= action_views(mid) + seq![
                        ActionView::EmitPlaylistUpdated,
                    ]);
                }
            } else {
                actions.push(ControllerAction::StopPlayer);
                proof {
                    assert(action_views(actions@) =~= seq![ActionView::StopPlayer]);
                }
            }
        },
    }
    actions
}

} // verus!
