//! Playlist management: an ordered track list with shuffle and repeat.

use vstd::prelude::*;

use crate::clock::{clock_seed, is_clock_reading, seed_of};
use crate::paths::{file_stem_of, path_file_stem};
use crate::shuffle::{
    extend_permutation, fisher_yates_shuffle, identity_is_permutation, index_range,
    is_index_permutation, is_rearrangement, permutation_position_unique, rearranged_permutation,
    shuffled, swap_keeps_permutation,
};
use crate::time::{max_total_nanos, Duration};

verus! {

/// Minimum information needed to represent a track in the playlist.
#[derive(Debug, Clone)]
pub struct TrackInfo {
    pub path: String,
    pub title: String,
    pub artist: String,
    pub duration: Option<Duration>,
}

/// The title given to a track whose path has no file stem.
pub open spec fn unknown_title() -> Seq<char> {
    seq!['U', 'n', 'k', 'n', 'o', 'w', 'n']
}

impl TrackInfo {
    /// A track for a path, titled by the file stem (or "Unknown" where the
    /// path has none), with no artist and no known duration.
    pub fn from_path(path: String) -> (t: TrackInfo)
        ensures
            t.path@ == path@,
            t.title@ == match file_stem_of(path@) {
                Some(stem) => stem,
                None => unknown_title(),
            },
            t.artist@ == Seq::<char>::empty(),
            t.duration is None,
    {
        let title = match path_file_stem(path.as_str()) {
            Some(stem) => stem,
            None => {
                proof {
                    reveal_strlit("Unknown");
                    assert("Unknown"@ =~= unknown_title());
                }
                String::from_str("Unknown")
            },
        };
        TrackInfo { path, title, artist: String::new(), duration: None }
    }

    /// Overlays metadata: a non-empty title replaces the title, an artist
    /// replaces the artist, and the duration is replaced in every case.
    pub fn with_metadata(
        self,
        title: Option<String>,
        artist: Option<String>,
        duration: Option<Duration>,
    ) -> (t: TrackInfo)
        ensures
            t.path == self.path,
            t.title@ == match title {
                Some(s) => if s@.len() > 0 {
                    s@
                } else {
                    self.title@
                },
                None => self.title@,
            },
            t.artist@ == match artist {
                Some(a) => a@,
                None => self.artist@,
            },
            t.duration == duration,
    {
        let mut t = self;
        match title {
            Some(s) => {
                if s.unicode_len() > 0 {
                    t.title = s;
                }
            },
            None => {},
        }
        match artist {
            Some(a) => {
                t.artist = a;
            },
            None => {},
        }
        t.duration = duration;
        t
    }
}

/// Repeat behaviour for the playlist.
#[derive(Debug, Clone, Copy, PartialEq, Eq, Structural)]
pub enum RepeatMode {
    Off,
    One,
    All,
}

impl Default for RepeatMode {
    fn default() -> (m: RepeatMode)
        ensures
            m == RepeatMode::Off,
    {
        RepeatMode::Off
    }
}

/// The mode that follows `m` in the cycle Off → One → All → Off.
pub open spec fn next_repeat_mode(m: RepeatMode) -> RepeatMode {
    match m {
        RepeatMode::Off => RepeatMode::One,
        RepeatMode::One => RepeatMode::All,
        RepeatMode::All => RepeatMode::Off,
    }
}

impl RepeatMode {
    /// Advance to the next mode in the cycle: Off → One → All → Off.
    pub fn cycle(self) -> (m: RepeatMode)
        ensures
            m == next_repeat_mode(self),
    {
        match self {
            RepeatMode::Off => RepeatMode::One,
            RepeatMode::One => RepeatMode::All,
            RepeatMode::All => RepeatMode::Off,
        }
    }
}

/// The abstract state of a playlist.
pub ghost struct PlaylistView {
    /// The tracks, in playlist order.
    pub tracks: Seq<TrackInfo>,
    /// The index of the selected track, if any.
    pub current: Option<usize>,
    /// The shuffled order of track indices, used while shuffle is on.
    pub order: Seq<usize>,
    /// The position in `order` of the selected track.
    pub pos: usize,
    /// The repeat behaviour.
    pub repeat: RepeatMode,
    /// Whether shuffle is on.
    pub shuffle: bool,
}

/// Total length of the tracks whose duration is known, in nanoseconds.
pub open spec fn known_duration_nanos(tracks: Seq<TrackInfo>) -> nat
    decreases tracks.len(),
{
    if tracks.len() == 0 {
        0
    } else {
        known_duration_nanos(tracks.drop_last()) + match tracks.last().duration {
            Some(d) => d.total_nanos(),
            None => 0,
        }
    }
}

/// A borrowed track, if any, and the track it should be.
pub open spec fn refers_to(r: Option<&TrackInfo>, t: Option<TrackInfo>) -> bool {
    match r {
        Some(x) => t == Some(*x),
        None => t is None,
    }
}

/// The first position of `x` in `s`, where it occurs.
pub open spec fn first_position(s: Seq<usize>, x: usize) -> int {
    choose|k: int| 0 <= k < s.len() && s[k] == x && forall|j: int| 0 <= j < k ==> s[j] != x
}

/// `s` with `x` exchanged with the first entry, from its first position in
/// `s`, where it occurs.
pub open spec fn with_first(s: Seq<usize>, x: usize) -> Seq<usize> {
    if s.contains(x) {
        let p = first_position(s, x);
        s.update(0, s[p]).update(p, s[0])
    } else {
        s
    }
}

/// The shuffle order built for `n` tracks from `seed`: the seeded shuffle of
/// the indices `0..n`, with the selected track, if any, moved to the front.
pub open spec fn reshuffled_order(n: nat, seed: u64, current: Option<usize>) -> Seq<usize> {
    let base = shuffled(index_range(0, n), seed);
    match current {
        Some(c) => with_first(base, c),
        None => base,
    }
}

/// The selection after removing the track at `index`, leaving `new_len`
/// tracks: the removed track's successor (or the new last track) is selected
/// in its place, a later selection moves down by one, an earlier one stays.
pub open spec fn current_after_remove(current: Option<usize>, index: usize, new_len: nat) -> Option<
    usize,
> {
    match current {
        Some(cur) => if cur == index {
            if new_len == 0 {
                None
            } else if cur <= new_len - 1 {
                Some(cur)
            } else {
                Some((new_len - 1) as usize)
            }
        } else if cur > index {
            Some((cur - 1) as usize)
        } else {
            Some(cur)
        },
        None => None,
    }
}

impl PlaylistView {
    /// The state a playlist keeps between operations: the selection is a
    /// valid index, and while shuffle is on the shuffle order holds every
    /// track index exactly once.
    pub open spec fn wf(self) -> bool {
        &&& (self.current matches Some(i) ==> i < self.tracks.len())
        &&& (self.shuffle ==> is_index_permutation(self.order, self.tracks.len()))
        &&& self.pos < usize::MAX
        &&& self.tracks.len() <= usize::MAX
        &&& self.order.len() <= usize::MAX
    }

    /// The selected track, if any.
    pub open spec fn current_track(self) -> Option<TrackInfo> {
        match self.current {
            Some(i) => if i < self.tracks.len() {
                Some(self.tracks[i as int])
            } else {
                None
            },
            None => None,
        }
    }

    /// The state after advancing to the next track.
    pub open spec fn after_next(self) -> PlaylistView {
        if self.tracks.len() == 0 || self.repeat == RepeatMode::One {
            self
        } else if self.shuffle {
            if self.pos + 1 >= self.order.len() {
                if self.repeat == RepeatMode::All {
                    PlaylistView { pos: 0, current: Some(self.order[0]), ..self }
                } else {
                    PlaylistView { current: None, ..self }
                }
            } else {
                PlaylistView {
                    pos: (self.pos + 1) as usize,
                    current: Some(self.order[self.pos + 1]),
                    ..self
                }
            }
        } else {
            let next: int = match self.current {
                Some(i) => i + 1,
                None => 0,
            };
            if next >= self.tracks.len() {
                if self.repeat == RepeatMode::All {
                    PlaylistView { current: Some(0), ..self }
                } else {
                    PlaylistView { current: None, ..self }
                }
            } else {
                PlaylistView { current: Some(next as usize), ..self }
            }
        }
    }

    /// The state after moving to the previous track.
    pub open spec fn after_previous(self) -> PlaylistView {
        if self.tracks.len() == 0 || self.repeat == RepeatMode::One {
            self
        } else if self.shuffle {
            let pos: usize = if self.pos == 0 {
                if self.repeat == RepeatMode::All && self.order.len() > 0 {
                    (self.order.len() - 1) as usize
                } else {
                    self.pos
                }
            } else {
                (self.pos - 1) as usize
            };
            let idx: usize = if pos < self.order.len() {
                self.order[pos as int]
            } else {
                0
            };
            PlaylistView { pos: pos, current: Some(idx), ..self }
        } else {
            let prev: usize = match self.current {
                Some(i) => if i == 0 {
                    if self.repeat == RepeatMode::All {
                        (self.tracks.len() - 1) as usize
                    } else {
                        0
                    }
                } else {
                    (i - 1) as usize
                },
                None => if self.repeat == RepeatMode::All {
                    (self.tracks.len() - 1) as usize
                } else {
                    0
                },
            };
            PlaylistView { current: Some(prev), ..self }
        }
    }

    /// The state after selecting the track at `index`.
    pub open spec fn after_select(self, index: usize) -> PlaylistView {
        if index >= self.tracks.len() {
            self
        } else {
            PlaylistView {
                current: Some(index),
                pos: if self.shuffle && self.order.contains(index) {
                    first_position(self.order, index) as usize
                } else {
                    self.pos
                },
                ..self
            }
        }
    }

    /// The shuffle order is the one built for the tracks and the selection
    /// from the seed of some reading of the clock (see `reshuffled_order`).
    pub open spec fn shuffled_from_clock(self) -> bool {
        exists|r: Option<(u64, u32)>|
            is_clock_reading(r) && #[trigger] reshuffled_order(self.tracks.len(), seed_of(r), self.current)
                == self.order
    }

    /// `self` holds a fresh shuffle order for its tracks: every index once,
    /// the selected track first with the position reset to it; with no
    /// selection the position is `prev_pos`.
    pub open spec fn freshly_shuffled(self, prev_pos: usize) -> bool {
        &&& is_index_permutation(self.order, self.tracks.len())
        &&& match self.current {
            Some(c) => self.order[0] == c && self.pos == 0,
            None => self.pos == prev_pos,
        }
    }
}

/// Ordered track list with optional shuffle and repeat.
pub struct Playlist {
    tracks: Vec<TrackInfo>,
    current_index: Option<usize>,
    /// Permuted indices used when shuffle is active.
    shuffle_order: Vec<usize>,
    /// Position within `shuffle_order` for the currently playing track.
    shuffle_pos: usize,
    pub repeat_mode: RepeatMode,
    pub shuffle_enabled: bool,
}

impl View for Playlist {
    type V = PlaylistView;

    closed spec fn view(&self) -> PlaylistView {
        PlaylistView {
            tracks: self.tracks@,
            current: self.current_index,
            order: self.shuffle_order@,
            pos: self.shuffle_pos,
            repeat: self.repeat_mode,
            shuffle: self.shuffle_enabled,
        }
    }
}

impl Default for Playlist {
    fn default() -> (p: Playlist)
        ensures
            p.wf(),
            p@.tracks.len() == 0,
            p@.current is None,
            p@.order.len() == 0,
            p@.pos == 0,
            p@.repeat == RepeatMode::Off,
            !p@.shuffle,
    {
        Playlist::new()
    }
}

impl Playlist {
    /// The playlist keeps its invariant.
    pub open spec fn wf(&self) -> bool {
        self@.wf()
    }

    /// An empty playlist, without shuffle or repeat.
    pub fn new() -> (p: Playlist)
        ensures
            p.wf(),
            p@.tracks.len() == 0,
            p@.current is None,
            p@.order.len() == 0,
            p@.pos == 0,
            p@.repeat == RepeatMode::Off,
            !p@.shuffle,
    {
        Playlist {
            tracks: Vec::new(),
            current_index: None,
            shuffle_order: Vec::new(),
            shuffle_pos: 0,
            repeat_mode: RepeatMode::Off,
            shuffle_enabled: false,
        }
    }

    /// Appends tracks; while shuffle is on, their indices are appended to the
    /// shuffle order in playlist order.
    pub fn add_tracks(&mut self, infos: Vec<TrackInfo>)
        requires
            old(self).wf(),
        ensures
            final(self).wf(),
            final(self)@.tracks == old(self)@.tracks + infos@,
            final(self)@.current == old(self)@.current,
            final(self)@.order == if old(self)@.shuffle {
                old(self)@.order + index_range(
                    old(self)@.tracks.len(),
                    old(self)@.tracks.len() + infos@.len(),
                )
            } else {
                old(self)@.order
            },
            final(self)@.pos == old(self)@.pos,
            final(self)@.repeat == old(self)@.repeat,
            final(self)@.shuffle == old(self)@.shuffle,
    {
        let ghost old_order = self.shuffle_order@;
        let ghost old_view = self@;
        let ghost infos_view = infos@;
        let start = self.tracks.len();
        let mut infos = infos;
        self.tracks.append(&mut infos);
        let end = self.tracks.len();
        if self.shuffle_enabled {
            let mut i = start;
            while i < end
                invariant
                    start <= i <= end,
                    end == self.tracks@.len(),
                    self.shuffle_order@ == old_order + index_range(start as nat, i as nat),
                    self.tracks@ == old_view.tracks + infos_view,
                    self.current_index == old_view.current,
                    self.shuffle_pos == old_view.pos,
                    self.repeat_mode == old_view.repeat,
                    self.shuffle_enabled == old_view.shuffle,
                    old_view.wf(),
                    start == old_view.tracks.len(),
                decreases end - i,
            {
                self.shuffle_order.push(i);
                i = i + 1;
                assert(self.shuffle_order@ =~= old_order + index_range(start as nat, i as nat));
            }
            proof {
                extend_permutation(old_order, start as nat, end as nat);
            }
        }
    }

    /// Moves the selection to the next track (see `PlaylistView::after_next`).
    fn advance(&mut self)
        requires
            old(self).wf(),
        ensures
            final(self).wf(),
            final(self)@ == old(self)@.after_next(),
    {
        if self.tracks.len() == 0 {
            return ;
        }
        if self.repeat_mode == RepeatMode::One {
            return ;
        }
        if self.shuffle_enabled {
            let next_pos = self.shuffle_pos + 1;
            if next_pos >= self.shuffle_order.len() {
                if self.repeat_mode == RepeatMode::All {
                    self.shuffle_pos = 0;
                } else {
                    self.current_index = None;
                    return ;
                }
            } else {
                self.shuffle_pos = next_pos;
            }
            let idx = self.shuffle_order[self.shuffle_pos];
            self.current_index = Some(idx);
        } else {
            let next = match self.current_index {
                Some(i) => i + 1,
                None => 0,
            };
            if next >= self.tracks.len() {
                if self.repeat_mode == RepeatMode::All {
                    self.current_index = Some(0);
                } else {
                    self.current_index = None;
                    return ;
                }
            } else {
                self.current_index = Some(next);
            }
        }
    }

    /// Advances to the next track, applying repeat and shuffle.
    ///
    /// Returns `None` when the end of the playlist is reached and repeat is
    /// not set to `All`.
    pub fn next(&mut self) -> (r: Option<&TrackInfo>)
        requires
            old(self).wf(),
        ensures
            final(self).wf(),
            final(self)@ == old(self)@.after_next(),
            refers_to(r, final(self)@.current_track()),
    {
        self.advance();
        self.current()
    }

    /// Moves the selection to the previous track (see
    /// `PlaylistView::after_previous`).
    fn retreat(&mut self)
        requires
            old(self).wf(),
        ensures
            final(self).wf(),
            final(self)@ == old(self)@.after_previous(),
    {
        if self.tracks.len() == 0 {
            return ;
        }
        if self.repeat_mode == RepeatMode::One {
            return ;
        }
        if self.shuffle_enabled {
            if self.shuffle_pos == 0 {
                if self.repeat_mode == RepeatMode::All {
                    self.shuffle_pos = self.shuffle_order.len().saturating_sub(1);
                }
            } else {
                self.shuffle_pos = self.shuffle_pos - 1;
            }
            let idx = if self.shuffle_pos < self.shuffle_order.len() {
                self.shuffle_order[self.shuffle_pos]
            } else {
                0
            };
            self.current_index = Some(idx);
        } else {
            let prev = match self.current_index {
                None => {
                    if self.repeat_mode == RepeatMode::All {
                        self.tracks.len().saturating_sub(1)
                    } else {
                        0
                    }
                },
                Some(i) => {
                    if i == 0 {
                        if self.repeat_mode == RepeatMode::All {
                            self.tracks.len().saturating_sub(1)
                        } else {
                            0
                        }
                    } else {
                        i - 1
                    }
                },
            };
            self.current_index = Some(prev);
        }
    }

    /// Moves to the previous track, applying repeat and shuffle. At the first
    /// track without repeat the selection stays there.
    pub fn previous(&mut self) -> (r: Option<&TrackInfo>)
        requires
            old(self).wf(),
        ensures
            final(self).wf(),
            final(self)@ == old(self)@.after_previous(),
            refers_to(r, final(self)@.current_track()),
    {
        self.retreat();
        self.current()
    }

    /// The first position of `index` in the shuffle order, where it occurs.
    fn position_in_order(&self, index: usize) -> (r: Option<usize>)
        ensures
            match r {
                Some(k) => k < self@.order.len() && self@.order[k as int] == index && forall|j: int|
                    0 <= j < k ==> self@.order[j] != index,
                None => !self@.order.contains(index),
            },
    {
        let mut k: usize = 0;
        while k < self.shuffle_order.len()
            invariant
                k <= self.shuffle_order@.len(),
                forall|j: int| 0 <= j < k ==> self.shuffle_order@[j] != index,
            decreases self.shuffle_order@.len() - k,
        {
            if self.shuffle_order[k] == index {
                return Some(k);
            }
            k = k + 1;
        }
        None
    }

    /// Selects the track at `index`, or leaves the selection where `index`
    /// lies past the end (see `PlaylistView::after_select`).
    fn choose_index(&mut self, index: usize)
        requires
            old(self).wf(),
        ensures
            final(self).wf(),
            final(self)@ == old(self)@.after_select(index),
    {
        if index >= self.tracks.len() {
            return ;
        }
        self.current_index = Some(index);
        if self.shuffle_enabled {
            match self.position_in_order(index) {
                Some(pos) => {
                    proof {
                        let s = self.shuffle_order@;
                        assert(s.contains(index));
                        let f = first_position(s, index);
                        assert(0 <= f < s.len() && s[f] == index && forall|j: int|
                            0 <= j < f ==> s[j] != index);
                        let pi = pos as int;
                        assert(f == pi) by {
                            if f < pi {
                            } else if pi < f {
                            }
                        }
                    }
                    self.shuffle_pos = pos;
                },
                None => {},
            }
        }
    }

    /// Jumps directly to the track at `index`; returns `None` and changes
    /// nothing where `index` lies past the end.
    pub fn select(&mut self, index: usize) -> (r: Option<&TrackInfo>)
        requires
            old(self).wf(),
        ensures
            final(self).wf(),
            final(self)@ == old(self)@.after_select(index),
            refers_to(
                r,
                if index < old(self)@.tracks.len() {
                    Some(old(self)@.tracks[index as int])
                } else {
                    None
                },
            ),
    {
        self.choose_index(index);
        if index < self.tracks.len() {
            Some(&self.tracks[index])
        } else {
            None
        }
    }

    /// Rebuilds the shuffle order from a fresh permutation, placing the
    /// current track first.
    fn rebuild_shuffle(&mut self)
        requires
            old(self).current_index matches Some(i) ==> i < old(self).tracks@.len(),
            old(self).shuffle_pos < usize::MAX,
        ensures
            final(self).tracks@ == old(self).tracks@,
            final(self).current_index == old(self).current_index,
            final(self).repeat_mode == old(self).repeat_mode,
            final(self).shuffle_enabled == old(self).shuffle_enabled,
            final(self).shuffle_pos < usize::MAX,
            final(self)@.freshly_shuffled(old(self).shuffle_pos),
            final(self)@.shuffled_from_clock(),
    {
        let n = self.tracks.len();
        let mut order: Vec<usize> = Vec::new();
        let mut i: usize = 0;
        while i < n
            invariant
                i <= n,
                order@ == index_range(0, i as nat),
            decreases n - i,
        {
            order.push(i);
            i = i + 1;
            assert(order@ =~= index_range(0, i as nat));
        }
        proof {
            identity_is_permutation(n as nat);
        }
        let ghost before = order@;
        let seed = clock_seed();
        let ghost reading = choose|r: Option<(u64, u32)>| is_clock_reading(r) && seed == seed_of(r);
        fisher_yates_shuffle(&mut order, seed);
        let ghost base = order@;
        proof {
            let p = choose|p: Seq<usize>| crate::shuffle::rearranged(before, order@, p);
            rearranged_permutation(before, order@, p, n as nat);
        }
        self.shuffle_order = order;
        match self.current_index {
            Some(cur) => {
                match self.position_in_order(cur) {
                    Some(pos) => {
                        let ghost s = self.shuffle_order@;
                        let a = self.shuffle_order[0];
                        let b = self.shuffle_order[pos];
                        self.shuffle_order.set(0, b);
                        self.shuffle_order.set(pos, a);
                        proof {
                            swap_keeps_permutation(s, n as nat, 0, pos as int);
                            assert(self.shuffle_order@ =~= s.update(0, s[pos as int]).update(
                                pos as int,
                                s[0],
                            ));
                            assert(s.contains(cur));
                            let f = first_position(s, cur);
                            assert(f == pos as int) by {
                                if f < pos as int {
                                } else if f > pos as int {
                                }
                            }
                        }
                    },
                    None => {
                        proof {
                            assert(self.shuffle_order@.contains(cur));
                        }
                    },
                }
                self.shuffle_pos = 0;
            },
            None => {},
        }
        proof {
            assert(is_clock_reading(reading));
            assert(self@.tracks.len() == n);
            assert(base == shuffled(index_range(0, n as nat), seed_of(reading)));
            assert(reshuffled_order(n as nat, seed_of(reading), self.current_index)
                == self.shuffle_order@);
        }
    }

    /// Removes the track at `index`, adjusting the selection (see
    /// `current_after_remove`); an index past the end changes nothing. While
    /// shuffle is on, the shuffle order is rebuilt.
    pub fn remove(&mut self, index: usize)
        requires
            old(self).wf(),
        ensures
            final(self).wf(),
            index >= old(self)@.tracks.len() ==> final(self)@ == old(self)@,
            index < old(self)@.tracks.len() ==> {
                &&& final(self)@.tracks == old(self)@.tracks.remove(index as int)
                &&& final(self)@.current == current_after_remove(
                    old(self)@.current,
                    index,
                    final(self)@.tracks.len(),
                )
                &&& final(self)@.repeat == old(self)@.repeat
                &&& final(self)@.shuffle == old(self)@.shuffle
                &&& if old(self)@.shuffle {
                    final(self)@.freshly_shuffled(old(self)@.pos) && final(self)@.shuffled_from_clock()
                } else {
                    final(self)@.order == old(self)@.order && final(self)@.pos == old(self)@.pos
                }
            },
    {
        if index >= self.tracks.len() {
            return ;
        }
        self.tracks.remove(index);
        let new_len = self.tracks.len();
        self.current_index = match self.current_index {
            Some(cur) => {
                if cur == index {
                    if new_len == 0 {
                        None
                    } else if cur <= new_len - 1 {
                        Some(cur)
                    } else {
                        Some(new_len - 1)
                    }
                } else if cur > index {
                    Some(cur - 1)
                } else {
                    Some(cur)
                }
            },
            None => None,
        };
        if self.shuffle_enabled {
            self.rebuild_shuffle();
        }
    }

    /// Removes all tracks and resets the selection and the shuffle order;
    /// the repeat mode and shuffle flag are kept.
    pub fn clear(&mut self)
        requires
            old(self).wf(),
        ensures
            final(self).wf(),
            final(self)@.tracks.len() == 0,
            final(self)@.current is None,
            final(self)@.order.len() == 0,
            final(self)@.pos == 0,
            final(self)@.repeat == old(self)@.repeat,
            final(self)@.shuffle == old(self)@.shuffle,
    {
        self.tracks.clear();
        self.current_index = None;
        self.shuffle_order.clear();
        self.shuffle_pos = 0;
        proof {
            assert(is_index_permutation(self.shuffle_order@, 0));
        }
    }

    /// Toggles shuffle; switching it on rebuilds the shuffle order with the
    /// current track first.
    pub fn toggle_shuffle(&mut self)
        requires
            old(self).wf(),
        ensures
            final(self).wf(),
            final(self)@.shuffle == !old(self)@.shuffle,
            final(self)@.tracks == old(self)@.tracks,
            final(self)@.current == old(self)@.current,
            final(self)@.repeat == old(self)@.repeat,
            if final(self)@.shuffle {
                final(self)@.freshly_shuffled(old(self)@.pos) && final(self)@.shuffled_from_clock()
            } else {
                final(self)@.order == old(self)@.order && final(self)@.pos == old(self)@.pos
            },
    {
        self.shuffle_enabled = !self.shuffle_enabled;
        if self.shuffle_enabled {
            self.rebuild_shuffle();
        }
    }

    /// Advances the repeat mode through the cycle Off → One → All → Off.
    pub fn cycle_repeat(&mut self)
        requires
            old(self).wf(),
        ensures
            final(self).wf(),
            final(self)@ == (PlaylistView { repeat: next_repeat_mode(old(self)@.repeat), ..old(self)@ }),
    {
        self.repeat_mode = self.repeat_mode.cycle();
    }

    /// The currently selected track, if any.
    pub fn current(&self) -> (r: Option<&TrackInfo>)
        requires
            self.wf(),
        ensures
            refers_to(r, self@.current_track()),
    {
        match self.current_index {
            Some(i) => Some(&self.tracks[i]),
            None => None,
        }
    }

    /// The tracks, in playlist order.
    pub fn tracks(&self) -> (r: &[TrackInfo])
        ensures
            r@ == self@.tracks,
    {
        self.tracks.as_slice()
    }

    /// The shuffle order of track indices.
    pub fn shuffle_order(&self) -> (r: &[usize])
        ensures
            r@ == self@.order,
    {
        self.shuffle_order.as_slice()
    }

    /// The index of the selected track, if any.
    pub fn current_index(&self) -> (r: Option<usize>)
        ensures
            r == self@.current,
    {
        self.current_index
    }

    /// The sum of all known track durations, or `None` where it does not fit
    /// in a `Duration`.
    pub fn try_total_duration(&self) -> (r: Option<Duration>)
        ensures
            match r {
                Some(d) => d.total_nanos() == known_duration_nanos(self@.tracks),
                None => known_duration_nanos(self@.tracks) > max_total_nanos(),
            },
    {
        let mut acc = Duration::zero();
        let mut i: usize = 0;
        while i < self.tracks.len()
            invariant
                i <= self.tracks@.len(),
                acc.total_nanos() == known_duration_nanos(self.tracks@.subrange(0, i as int)),
            decreases self.tracks@.len() - i,
        {
            let ghost prefix = self.tracks@.subrange(0, i as int);
            let ghost next_prefix = self.tracks@.subrange(0, i + 1);
            proof {
                assert(next_prefix.drop_last() =~= prefix);
                assert(next_prefix.last() == self.tracks@[i as int]);
            }
            match self.tracks[i].duration {
                Some(d) => {
                    match acc.checked_add(&d) {
                        Some(sum) => {
                            acc = sum;
                        },
                        None => {
                            proof {
                                lemma_known_duration_prefix(self.tracks@, i + 1);
                            }
                            return None;
                        },
                    }
                },
                None => {},
            }
            i = i + 1;
        }
        proof {
            assert(self.tracks@.subrange(0, self.tracks@.len() as int) =~= self.tracks@);
        }
        Some(acc)
    }

    /// The sum of all known track durations; the sum must fit in a `Duration`.
    pub fn total_duration(&self) -> (r: Duration)
        requires
            known_duration_nanos(self@.tracks) <= max_total_nanos(),
        ensures
            r.total_nanos() == known_duration_nanos(self@.tracks),
    {
        match self.try_total_duration() {
            Some(d) => d,
            None => Duration::zero(),
        }
    }

    /// The number of tracks.
    pub fn len(&self) -> (r: usize)
        ensures
            r == self@.tracks.len(),
    {
        self.tracks.len()
    }

    /// Whether the playlist holds no tracks.
    pub fn is_empty(&self) -> (r: bool)
        ensures
            r == (self@.tracks.len() == 0),
    {
        self.tracks.len() == 0
    }
}

/// The known length of a prefix never exceeds that of the whole list.
pub proof fn lemma_known_duration_prefix(tracks: Seq<TrackInfo>, k: int)
    requires
        0 <= k <= tracks.len(),
    ensures
        known_duration_nanos(tracks.subrange(0, k)) <= known_duration_nanos(tracks),
    decreases tracks.len() - k,
{
    if k < tracks.len() {
        lemma_known_duration_prefix(tracks, k + 1);
        let longer = tracks.subrange(0, k + 1);
        assert(longer.drop_last() =~= tracks.subrange(0, k));
    } else {
        assert(tracks.subrange(0, k) =~= tracks);
    }
}

} // verus!
