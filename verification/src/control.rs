//! Decisions of the player's controller: what the interface shows of the
//! playlist and the playback status, when a track has ended, where a skip
//! lands, and how the playback thread answers requests.

use vstd::prelude::*;

use crate::errors::{audio_error_text, AudioError};
use crate::format::AudioFormat;
use crate::paths::{extension_of, file_stem_of, path_extension, path_file_stem, to_uppercase, uppercase_of};
use crate::playlist::TrackInfo;
use crate::text::{decimal, push_decimal, push_str};
use crate::time::{max_total_nanos, Duration};
use crate::utils::{format_duration, minutes_seconds};

verus! {

/// Lightweight track description for playlist display.
#[derive(Debug, Clone)]
pub struct TrackSummary {
    pub title: String,
    pub artist: String,
    pub duration: Option<Duration>,
}

/// Audio format information for display.
#[derive(Debug, Clone)]
pub struct FormatInfo {
    pub sample_rate: u32,
    pub channels: u16,
    pub bit_depth: u16,
}

/// The summary shows the track's title, artist and duration.
pub open spec fn summarizes(s: TrackSummary, t: TrackInfo) -> bool {
    s.title@ == t.title@ && s.artist@ == t.artist@ && s.duration == t.duration
}

/// The summaries of the playlist's tracks, in playlist order.
pub fn track_summaries(tracks: &[TrackInfo]) -> (r: Vec<TrackSummary>)
    ensures
        r@.len() == tracks@.len(),
        forall|k: int| 0 <= k < r@.len() ==> summarizes(#[trigger] r@[k], tracks@[k]),
{
    let mut r: Vec<TrackSummary> = Vec::new();
    let mut i: usize = 0;
    while i < tracks.len()
        invariant
            i <= tracks@.len(),
            r@.len() == i,
            forall|k: int| 0 <= k < i ==> summarizes(#[trigger] r@[k], tracks@[k]),
        decreases tracks@.len() - i,
    {
        let t = &tracks[i];
        r.push(
            TrackSummary { title: t.title.clone(), artist: t.artist.clone(), duration: t.duration },
        );
        i = i + 1;
    }
    r
}

impl FormatInfo {
    /// The display information of an audio format.
    pub fn from_format(f: &AudioFormat) -> (r: FormatInfo)
        ensures
            r.sample_rate == f.sample_rate,
            r.channels == f.channels,
            r.bit_depth == f.bit_depth,
    {
        FormatInfo { sample_rate: f.sample_rate, channels: f.channels, bit_depth: f.bit_depth }
    }
}

/// A track has ended on its own when the player was playing at the last
/// status poll, is now neither playing nor paused, and still has a track
/// loaded (an explicit stop clears the loaded track).
pub fn track_ended(was_playing: bool, is_playing: bool, is_paused: bool, has_track: bool) -> (r:
    bool)
    ensures
        r == (was_playing && !is_playing && !is_paused && has_track),
{
    was_playing && !is_playing && !is_paused && has_track
}

/// After tracks are added, playback starts from the first track when the
/// player is idle and nothing is selected.
pub fn should_auto_start(is_playing: bool, current_index: Option<usize>) -> (r: bool)
    ensures
        r == (!is_playing && current_index is None),
{
    !is_playing && current_index.is_none()
}

/// Where a skip forward by `offset` lands: the position moved on (at most
/// the longest span), but never past the track's end where it is known.
pub fn skip_forward_target(position: Duration, offset: Duration, duration: Option<Duration>) -> (r:
    Duration)
    ensures
        ({
            let moved = if position.total_nanos() + offset.total_nanos() <= max_total_nanos() {
                position.total_nanos() + offset.total_nanos()
            } else {
                max_total_nanos()
            };
            r.total_nanos() == match duration {
                Some(d) => if moved <= d.total_nanos() {
                    moved
                } else {
                    d.total_nanos()
                },
                None => moved,
            }
        }),
{
    let t = position.saturating_add(&offset);
    match duration {
        Some(d) => t.min(d),
        None => t,
    }
}

/// Where a skip backward by `offset` lands: the position moved back, but
/// never before the start.
pub fn skip_backward_target(position: Duration, offset: Duration) -> (r: Duration)
    ensures
        r.total_nanos() == if position.total_nanos() >= offset.total_nanos() {
            position.total_nanos() - offset.total_nanos()
        } else {
            0
        },
{
    position.saturating_sub(&offset)
}

/// The playback state shown: playing, else paused, else stopped.
pub fn playback_state_label(is_playing: bool, is_paused: bool) -> (r: &'static str)
    ensures
        r@ == if is_playing {
            "Playing"@
        } else if is_paused {
            "Paused"@
        } else {
            "Stopped"@
        },
{
    if is_playing {
        "Playing"
    } else if is_paused {
        "Paused"
    } else {
        "Stopped"
    }
}

/// The name shown for the loaded track: its file stem, or `Unknown`.
pub fn track_display_name(path: &str) -> (r: String)
    ensures
        r@ == match file_stem_of(path@) {
            Some(stem) => stem,
            None => "Unknown"@,
        },
{
    match path_file_stem(path) {
        Some(stem) => stem,
        None => String::from_str("Unknown"),
    }
}

/// The file format shown for the loaded track: its extension in upper case,
/// where it has one.
pub fn file_format_label(path: &str) -> (r: Option<String>)
    ensures
        match extension_of(path@) {
            Some(e) => r matches Some(l) && l@ == uppercase_of(e),
            None => r is None,
        },
{
    match path_extension(path) {
        Some(e) => Some(to_uppercase(e.as_str())),
        None => None,
    }
}

/// A transport request to the playback thread.
#[derive(Debug, Clone, Copy, PartialEq, Eq, Structural)]
pub enum TransportRequest {
    Play,
    Pause,
    Stop,
}

/// The name a request goes by in error reports.
pub open spec fn request_name(req: TransportRequest) -> Seq<char> {
    match req {
        TransportRequest::Play => "play"@,
        TransportRequest::Pause => "pause"@,
        TransportRequest::Stop => "stop"@,
    }
}

/// How the playback thread answers a transport request: with a player the
/// request is carried out; without one it is refused as an invalid state
/// transition from `no_player` to the request.
pub fn transport_reply(req: TransportRequest, has_player: bool) -> (r: Result<(), AudioError>)
    ensures
        has_player <==> r is Ok,
        r matches Err(e) ==> e matches AudioError::InvalidState { from, to } && from@ == "no_player"@
            && to@ == request_name(req),
{
    if has_player {
        Ok(())
    } else {
        let to = match req {
            TransportRequest::Play => String::from_str("play"),
            TransportRequest::Pause => String::from_str("pause"),
            TransportRequest::Stop => String::from_str("stop"),
        };
        Err(AudioError::InvalidState { from: String::from_str("no_player"), to })
    }
}

/// How the playback thread answers a seek: seeking is not supported.
pub fn seek_reply() -> (r: Result<(), AudioError>)
    ensures
        r matches Err(e) && e matches AudioError::UnsupportedFormat { format } && format@
            == "seek_not_implemented"@,
{
    Err(AudioError::UnsupportedFormat { format: String::from_str("seek_not_implemented") })
}

/// The playing and paused flags of a status report, from whether the
/// player (if there is one) is playing: without a player the status reads
/// not playing and paused.
pub fn status_flags(player_playing: Option<bool>) -> (r: (bool, bool))
    ensures
        r == match player_playing {
            Some(p) => (p, !p),
            None => (false, true),
        },
{
    match player_playing {
        Some(p) => (p, !p),
        None => (false, true),
    }
}

/// The texts the player window shows for a playback status.
#[derive(Debug, Clone)]
pub struct StatusTexts {
    /// The track title: the file stem of the loaded track, or a note that
    /// none is loaded.
    pub track_title: String,
    /// The track artist.
    pub track_artist: String,
    /// The track album.
    pub track_album: String,
    /// The file format, where it is to be set: the upper-case extension,
    /// or empty without a track; `None` leaves the shown format as it is.
    pub file_format: Option<String>,
    /// Playing, paused or stopped.
    pub playback_state: String,
    /// The position as `MM:SS`.
    pub position_text: String,
    /// The length as `MM:SS`, or `--:--` where it is unknown.
    pub duration_text: String,
    /// The sample rate, channel count and bit depth, where the format is
    /// known: `<rate> Hz`, `<channels>`, `<bits> bit`.
    pub quality: Option<(String, String, String)>,
}

/// The title shown for the loaded track, if any.
pub open spec fn status_title(track: Option<Seq<char>>) -> Seq<char> {
    match track {
        Some(p) => match file_stem_of(p) {
            Some(stem) => stem,
            None => "Unknown"@,
        },
        None => "No track loaded"@,
    }
}

/// The quality texts of a format.
pub open spec fn quality_texts(f: FormatInfo) -> (Seq<char>, Seq<char>, Seq<char>) {
    (
        decimal(f.sample_rate as nat) + " Hz"@,
        decimal(f.channels as nat),
        decimal(f.bit_depth as nat) + " bit"@,
    )
}

/// The texts for a playback status: the loaded track (a path, if any),
/// whether it plays or is paused, its position and length, and its format.
pub fn status_texts(
    track: Option<&str>,
    is_playing: bool,
    is_paused: bool,
    position: Duration,
    duration: Option<Duration>,
    format: Option<FormatInfo>,
) -> (r: StatusTexts)
    ensures
        r.track_title@ == status_title(
            match track {
                Some(p) => Some(p@),
                None => None,
            },
        ),
        r.track_artist@ == if track is Some {
            "Unknown Artist"@
        } else {
            ""@
        },
        r.track_album@ == if track is Some {
            "Unknown Album"@
        } else {
            ""@
        },
        match track {
            Some(p) => match extension_of(p@) {
                Some(e) => r.file_format matches Some(l) && l@ == uppercase_of(e),
                None => r.file_format is None,
            },
            None => r.file_format matches Some(l) && l@ == ""@,
        },
        r.playback_state@ == if is_playing {
            "Playing"@
        } else if is_paused {
            "Paused"@
        } else {
            "Stopped"@
        },
        r.position_text@ == minutes_seconds(position.total_nanos() / 1_000_000_000),
        r.duration_text@ == match duration {
            Some(d) => minutes_seconds(d.total_nanos() / 1_000_000_000),
            None => "--:--"@,
        },
        match format {
            Some(f) => r.quality matches Some(q) && (q.0@, q.1@, q.2@) == quality_texts(f),
            None => r.quality is None,
        },
{
    let (track_title, track_artist, track_album, file_format) = match track {
        Some(p) => (
            track_display_name(p),
            String::from_str("Unknown Artist"),
            String::from_str("Unknown Album"),
            file_format_label(p),
        ),
        None => (
            String::from_str("No track loaded"),
            String::new(),
            String::new(),
            Some(String::new()),
        ),
    };
    proof {
        reveal_strlit("");
    }
    let playback_state = playback_state_label(is_playing, is_paused).to_string();
    let position_text = format_duration(position);
    let duration_text = match duration {
        Some(d) => format_duration(d),
        None => String::from_str("--:--"),
    };
    let quality = match format {
        Some(f) => {
            let mut rate = String::new();
            push_decimal(&mut rate, f.sample_rate as u64);
            push_str(&mut rate, " Hz");
            let mut channels = String::new();
            push_decimal(&mut channels, f.channels as u64);
            let mut bits = String::new();
            push_decimal(&mut bits, f.bit_depth as u64);
            push_str(&mut bits, " bit");
            proof {
                assert(channels@ =~= decimal(f.channels as nat));
            }
            Some((rate, channels, bits))
        },
        None => None,
    };
    StatusTexts {
        track_title,
        track_artist,
        track_album,
        file_format,
        playback_state,
        position_text,
        duration_text,
        quality,
    }
}

/// An event the audio command thread sends to the interface about a load.
#[derive(Debug, Clone, PartialEq, Eq)]
pub enum LoadEvent {
    /// Loading of the track at the path began.
    TrackLoadingStarted(String),
    /// Loading of the track at the path finished, with the error's message
    /// where it failed.
    TrackLoadingCompleted { path: String, success: bool, error: Option<String> },
    /// An error to report.
    ErrorOccurred(String),
}

/// The events that the audio command thread sends for a load of the track
/// at `path` that ended with `result`: loading started, loading completed
/// (successful or with the error's message), and, on failure, the error.
pub fn events_after_load(path: String, result: Result<(), AudioError>) -> (r: Vec<LoadEvent>)
    ensures
        r@.len() == if result is Ok {
            2int
        } else {
            3int
        },
        r@[0] matches LoadEvent::TrackLoadingStarted(p) && p@ == path@,
        match result {
            Ok(_) => r@[1] matches LoadEvent::TrackLoadingCompleted { path: p, success, error } && p@
                == path@ && success && error is None,
            Err(e) => {
                &&& r@[1] matches LoadEvent::TrackLoadingCompleted { path: p, success, error } && p@
                    == path@ && !success && (error matches Some(m) && m@ == audio_error_text(e))
                &&& r@[2] matches LoadEvent::ErrorOccurred(m) && m@ == audio_error_text(e)
            },
        },
{
    let mut r: Vec<LoadEvent> = Vec::new();
    r.push(LoadEvent::TrackLoadingStarted(path.clone()));
    match result {
        Ok(()) => {
            r.push(LoadEvent::TrackLoadingCompleted { path, success: true, error: None });
        },
        Err(e) => {
            let message = e.message();
            r.push(
                LoadEvent::TrackLoadingCompleted {
                    path,
                    success: false,
                    error: Some(message.clone()),
                },
            );
            r.push(LoadEvent::ErrorOccurred(message));
        },
    }
    r
}

/// The events the audio command thread sends after a transport request
/// ended with `result`: the error's message where it failed, nothing
/// otherwise.
pub fn events_after_request(result: Result<(), AudioError>) -> (r: Vec<LoadEvent>)
    ensures
        match result {
            Ok(_) => r@.len() == 0,
            Err(e) => r@.len() == 1 && (r@[0] matches LoadEvent::ErrorOccurred(m) && m@
                == audio_error_text(e)),
        },
{
    let mut r: Vec<LoadEvent> = Vec::new();
    match result {
        Ok(()) => {},
        Err(e) => {
            r.push(LoadEvent::ErrorOccurred(e.message()));
        },
    }
    r
}

/// The request that toggling playback makes: pause while playing, play
/// otherwise.
pub fn toggle_request(is_playing: bool) -> (r: TransportRequest)
    ensures
        r == if is_playing {
            TransportRequest::Pause
        } else {
            TransportRequest::Play
        },
{
    if is_playing {
        TransportRequest::Pause
    } else {
        TransportRequest::Play
    }
}

} // verus!
