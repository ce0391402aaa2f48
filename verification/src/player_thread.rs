//! The decisions of the playback thread: what it remembers between
//! requests, what it does to the audio player for each request, and how it
//! answers. The thread's loop, the audio player itself and the volume (a
//! floating-point value) live with the caller, which performs the action and
//! hands back the next event.

use vstd::prelude::*;

use crate::control::{request_name, seek_reply, status_flags, transport_reply, TransportRequest};
use crate::errors::AudioError;
use crate::format::AudioFormat;
use crate::time::Duration;

verus! {

/// What the playback thread remembers between requests.
#[derive(Debug, Clone)]
pub struct PlayerThreadState {
    /// Whether an audio player has been created.
    pub has_player: bool,
    /// The track last loaded successfully.
    pub current_track: Option<String>,
    /// Whether the thread still serves requests; it stops on shutdown.
    pub running: bool,
}

impl PlayerThreadState {
    /// A thread that has just started: no player, no track, serving.
    pub fn new() -> (s: PlayerThreadState)
        ensures
            !s.has_player,
            s.current_track is None,
            s.running,
    {
        PlayerThreadState { has_player: false, current_track: None, running: true }
    }
}

/// What reached the playback thread, with the outcome of any work already
/// done on the audio player for it.
#[derive(Debug)]
pub enum PlayerEvent {
    /// A load of the track at `path` was attempted (checking the file,
    /// creating the player where there was none, and starting playback):
    /// its result, and whether a player exists afterwards.
    Loaded { path: String, result: Result<(), AudioError>, has_player: bool },
    /// A play, pause or stop request.
    Request(TransportRequest),
    /// A volume change; the clamped volume is kept by the caller.
    SetVolume,
    /// A seek request.
    Seek,
    /// A status request.
    GetStatus,
    /// A request to shut the thread down.
    Shutdown,
}

/// What the thread asks of the audio player.
#[derive(Debug, Clone, Copy, PartialEq, Eq, Structural)]
pub enum PlayerAction {
    /// Nothing.
    Nothing,
    /// Resume playback.
    Resume,
    /// Pause playback.
    Pause,
    /// Stop playback.
    Stop,
    /// Set the player's volume to the kept volume.
    ApplyVolume,
}

/// How the thread answers a request.
#[derive(Debug)]
pub enum PlayerReply {
    /// The outcome of a load, transport, volume or seek request.
    Done(Result<(), AudioError>),
    /// A status report; the caller adds the kept volume.
    Status {
        is_playing: bool,
        is_paused: bool,
        current_track: Option<String>,
        position: Duration,
        duration: Option<Duration>,
        format: Option<AudioFormat>,
    },
    /// The thread ends; no later request is answered.
    Exit,
}

/// The action a transport request asks of an existing player.
pub open spec fn transport_action(q: TransportRequest) -> PlayerAction {
    match q {
        TransportRequest::Play => PlayerAction::Resume,
        TransportRequest::Pause => PlayerAction::Pause,
        TransportRequest::Stop => PlayerAction::Stop,
    }
}

/// The next state, action and reply of the playback thread for an event
/// (see `player_step`).
pub open spec fn step_outcome(
    s: PlayerThreadState,
    ev: PlayerEvent,
    player_playing: Option<bool>,
    r: (PlayerThreadState, PlayerAction, PlayerReply),
) -> bool {
    match ev {
        PlayerEvent::Loaded { path, result, has_player } => {
            &&& r.0.has_player == has_player
            &&& r.0.running
            &&& r.0.current_track == if result is Ok {
                Some(path)
            } else {
                s.current_track
            }
            &&& r.1 == if result is Ok {
                PlayerAction::ApplyVolume
            } else {
                PlayerAction::Nothing
            }
            &&& r.2 == PlayerReply::Done(result)
        },
        PlayerEvent::Request(q) => {
            &&& r.0 == s
            &&& r.1 == if s.has_player {
                transport_action(q)
            } else {
                PlayerAction::Nothing
            }
            &&& if s.has_player {
                r.2 == PlayerReply::Done(Ok(()))
            } else {
                r.2 matches PlayerReply::Done(Err(AudioError::InvalidState { from, to })) && from@
                    == "no_player"@ && to@ == request_name(q)
            }
        },
        PlayerEvent::SetVolume => {
            &&& r.0 == s
            &&& r.1 == if s.has_player {
                PlayerAction::ApplyVolume
            } else {
                PlayerAction::Nothing
            }
            &&& r.2 == PlayerReply::Done(Ok(()))
        },
        PlayerEvent::Seek => {
            &&& r.0 == s
            &&& r.1 == PlayerAction::Nothing
            &&& r.2 matches PlayerReply::Done(Err(AudioError::UnsupportedFormat { format }))
                && format@ == "seek_not_implemented"@
        },
        PlayerEvent::GetStatus => {
            &&& r.0 == s
            &&& r.1 == PlayerAction::Nothing
            &&& r.2 matches PlayerReply::Status {
                is_playing,
                is_paused,
                current_track,
                position,
                duration,
                format,
            } && (is_playing, is_paused) == match player_playing {
                Some(p) => (p, !p),
                None => (false, true),
            } && current_track == s.current_track && position.total_nanos() == 0
                && duration is None && format is None
        },
        PlayerEvent::Shutdown => {
            &&& r.0.has_player == s.has_player
            &&& r.0.current_track == s.current_track
            &&& !r.0.running
            &&& r.1 == if s.has_player {
                PlayerAction::Stop
            } else {
                PlayerAction::Nothing
            }
            &&& r.2 is Exit
        },
    }
}

/// Handles one event of the playback thread, given whether the player (if
/// there is one) is playing: the next state, the action on the player and
/// the reply.
///
/// - A load records the player's existence; a successful one records the
///   track and applies the kept volume; the reply is the load's result.
/// - A transport request with a player resumes, pauses or stops it and
///   succeeds; without one it is refused (see `transport_reply`).
/// - A volume change is applied to the player where there is one and
///   always succeeds.
/// - A seek is refused (see `seek_reply`).
/// - A status report gives the playing and paused flags (see
///   `status_flags`), the loaded track, a zero position and no length or
///   format.
/// - A shutdown stops the player where there is one and ends the thread.
pub fn player_step(s: PlayerThreadState, ev: PlayerEvent, player_playing: Option<bool>) -> (r: (
    PlayerThreadState,
    PlayerAction,
    PlayerReply,
))
    requires
        s.running,
    ensures
        step_outcome(s, ev, player_playing, r),
{
    match ev {
        PlayerEvent::Loaded { path, result, has_player } => {
            let ok = match &result {
                Ok(_) => true,
                Err(_) => false,
            };
            let current_track = if ok {
                Some(path)
            } else {
                s.current_track
            };
            let action = if ok {
                PlayerAction::ApplyVolume
            } else {
                PlayerAction::Nothing
            };
            (PlayerThreadState { has_player, current_track, running: true }, action, PlayerReply::Done(result))
        },
        PlayerEvent::Request(q) => {
            let action = if s.has_player {
                match q {
                    TransportRequest::Play => PlayerAction::Resume,
                    TransportRequest::Pause => PlayerAction::Pause,
                    TransportRequest::Stop => PlayerAction::Stop,
                }
            } else {
                PlayerAction::Nothing
            };
            let reply = match transport_reply(q, s.has_player) {
                Ok(_) => Ok(()),
                Err(e) => Err(e),
            };
            (s, action, PlayerReply::Done(reply))
        },
        PlayerEvent::SetVolume => {
            let action = if s.has_player {
                PlayerAction::ApplyVolume
            } else {
                PlayerAction::Nothing
            };
            (s, action, PlayerReply::Done(Ok(())))
        },
        PlayerEvent::Seek => (s, PlayerAction::Nothing, PlayerReply::Done(seek_reply())),
        PlayerEvent::GetStatus => {
            let (is_playing, is_paused) = status_flags(player_playing);
            let current_track = match &s.current_track {
                Some(t) => Some(t.clone()),
                None => None,
            };
            let reply = PlayerReply::Status {
                is_playing,
                is_paused,
                current_track,
                position: Duration::zero(),
                duration: None,
                format: None,
            };
            (s, PlayerAction::Nothing, reply)
        },
        PlayerEvent::Shutdown => {
            let action = if s.has_player {
                PlayerAction::Stop
            } else {
                PlayerAction::Nothing
            };
            (
                PlayerThreadState {
                    has_player: s.has_player,
                    current_track: s.current_track,
                    running: false,
                },
                action,
                PlayerReply::Exit,
            )
        },
    }
}

/// A shutdown is final: whatever the thread's state and the player's
/// condition, the step for a shutdown answers with `Exit` and leaves a
/// thread that serves no further request (`player_step` requires a running
/// thread), so nothing sent afterwards is answered.
pub proof fn shutdown_is_final(
    s: PlayerThreadState,
    player_playing: Option<bool>,
    r: (PlayerThreadState, PlayerAction, PlayerReply),
)
    requires
        step_outcome(s, PlayerEvent::Shutdown, player_playing, r),
    ensures
        !r.0.running,
        r.2 is Exit,
{
}

/// Requests other than a load or a shutdown leave the thread's state as it
/// was: no transport, volume, seek or status request forgets the loaded
/// track or the player.
pub proof fn requests_keep_state(
    s: PlayerThreadState,
    ev: PlayerEvent,
    player_playing: Option<bool>,
    r: (PlayerThreadState, PlayerAction, PlayerReply),
)
    requires
        !(ev is Loaded),
        !(ev is Shutdown),
        step_outcome(s, ev, player_playing, r),
    ensures
        r.0 == s,
{
}

/// With a player present, a transport request acts on it and succeeds: play
/// resumes it, pause pauses it and stop stops it, and the thread's state is
/// kept. Without a player nothing is done to any player.
pub proof fn transport_acts_on_player(
    s: PlayerThreadState,
    q: TransportRequest,
    player_playing: Option<bool>,
    r: (PlayerThreadState, PlayerAction, PlayerReply),
)
    requires
        step_outcome(s, PlayerEvent::Request(q), player_playing, r),
    ensures
        r.0 == s,
        s.has_player && q == TransportRequest::Play ==> r.1 == PlayerAction::Resume,
        s.has_player && q == TransportRequest::Pause ==> r.1 == PlayerAction::Pause,
        s.has_player && q == TransportRequest::Stop ==> r.1 == PlayerAction::Stop,
        s.has_player ==> r.2 matches PlayerReply::Done(Ok(())),
        !s.has_player ==> r.1 == PlayerAction::Nothing && r.2 matches PlayerReply::Done(Err(_)),
{
}

/// A status report tells the truth about the player: it reads playing
/// exactly when there is a player and it is playing, paused exactly when it
/// does not read playing, names the track last loaded successfully, and
/// reports a zero position with no length or format. The report changes
/// nothing and does nothing to the player.
pub proof fn status_reports_player(
    s: PlayerThreadState,
    player_playing: Option<bool>,
    r: (PlayerThreadState, PlayerAction, PlayerReply),
)
    requires
        step_outcome(s, PlayerEvent::GetStatus, player_playing, r),
    ensures
        r.0 == s,
        r.1 == PlayerAction::Nothing,
        r.2 matches PlayerReply::Status { is_playing, is_paused, current_track, position, duration, format }
            && is_playing == (player_playing == Some(true)) && is_paused == !is_playing
            && current_track == s.current_track && position.total_nanos() == 0 && duration is None
            && format is None,
{
}

/// A volume change is always answered with success and changes nothing the
/// thread remembers; it is applied to the player exactly when there is one.
/// A seek is always refused and does nothing.
pub proof fn volume_and_seek_replies(
    s: PlayerThreadState,
    player_playing: Option<bool>,
    rv: (PlayerThreadState, PlayerAction, PlayerReply),
    rs: (PlayerThreadState, PlayerAction, PlayerReply),
)
    requires
        step_outcome(s, PlayerEvent::SetVolume, player_playing, rv),
        step_outcome(s, PlayerEvent::Seek, player_playing, rs),
    ensures
        rv.0 == s,
        rv.2 matches PlayerReply::Done(Ok(())),
        (rv.1 == PlayerAction::ApplyVolume) == s.has_player,
        s.has_player || rv.1 == PlayerAction::Nothing,
        rs.0 == s,
        rs.1 == PlayerAction::Nothing,
        rs.2 matches PlayerReply::Done(Err(_)),
{
}

/// A load answers with its own result. A successful one makes the loaded
/// track the current one and applies the kept volume; a failed one keeps
/// the track that was current before and does nothing to the player. The
/// thread keeps running, and records whether a player now exists.
pub proof fn load_records_track(
    s: PlayerThreadState,
    path: String,
    result: Result<(), AudioError>,
    has_player: bool,
    player_playing: Option<bool>,
    r: (PlayerThreadState, PlayerAction, PlayerReply),
)
    requires
        step_outcome(s, PlayerEvent::Loaded { path, result, has_player }, player_playing, r),
    ensures
        r.0.running,
        r.0.has_player == has_player,
        r.2 == PlayerReply::Done(result),
        result is Ok ==> r.0.current_track == Some(path) && r.1 == PlayerAction::ApplyVolume,
        result is Err ==> r.0.current_track == s.current_track && r.1 == PlayerAction::Nothing,
{
}

/// A shutdown stops the player where there is one, keeps what the thread
/// remembers of the track, and does nothing where there is no player.
pub proof fn shutdown_stops_player(
    s: PlayerThreadState,
    player_playing: Option<bool>,
    r: (PlayerThreadState, PlayerAction, PlayerReply),
)
    requires
        step_outcome(s, PlayerEvent::Shutdown, player_playing, r),
    ensures
        s.has_player ==> r.1 == PlayerAction::Stop,
        !s.has_player ==> r.1 == PlayerAction::Nothing,
        r.0.current_track == s.current_track,
        r.0.has_player == s.has_player,
{
}

} // verus!
