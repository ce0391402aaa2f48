//! Properties of playlist navigation that span several operations.

use vstd::prelude::*;

use crate::playlist::{current_after_remove, next_repeat_mode, PlaylistView, RepeatMode};
use crate::shuffle::is_index_permutation;

verus! {

/// The state after `k` calls of `next`.
pub open spec fn advanced_by(v: PlaylistView, k: nat) -> PlaylistView
    decreases k,
{
    if k == 0 {
        v
    } else {
        advanced_by(v, (k - 1) as nat).after_next()
    }
}

/// Track `t` is selected within the first `n` states reached by stepping
/// forward from `v`, where `n` is the number of tracks.
pub open spec fn selected_within_round(v: PlaylistView, t: usize) -> bool {
    exists|k: nat| k < v.tracks.len() && #[trigger] advanced_by(v, k).current == Some(t)
}

/// Cycling the repeat mode three times gives back the mode it started with.
pub proof fn repeat_cycle_has_period_three(m: RepeatMode)
    ensures
        next_repeat_mode(next_repeat_mode(next_repeat_mode(m))) == m,
{
}

/// Every operation keeps the playlist invariant; in particular stepping
/// forward or back from a valid state gives a valid state.
pub proof fn navigation_keeps_invariant(v: PlaylistView, index: usize)
    requires
        v.wf(),
    ensures
        v.after_next().wf(),
        v.after_previous().wf(),
        v.after_select(index).wf(),
{
    if v.shuffle && v.tracks.len() > 0 && v.repeat != RepeatMode::One {
        let p = v.after_previous();
        if p.pos < v.order.len() {
            assert(v.order[p.pos as int] < v.tracks.len());
        }
    }
    if v.shuffle && index < v.tracks.len() && v.order.contains(index) {
        let k = choose|k: int| 0 <= k < v.order.len() && v.order[k] == index;
        lemma_first_occurrence_exists(v.order, index, k);
        let f = crate::playlist::first_position(v.order, index);
        assert(0 <= f < v.order.len());
    }
}

/// Where `x` occurs in `s`, it has a first occurrence.
proof fn lemma_first_occurrence_exists(s: Seq<usize>, x: usize, k: int)
    requires
        0 <= k < s.len(),
        s[k] == x,
    ensures
        exists|f: int| 0 <= f < s.len() && s[f] == x && forall|j: int| 0 <= j < f ==> s[j] != x,
    decreases k,
{
    if exists|j: int| 0 <= j < k && s[j] == x {
        let j = choose|j: int| 0 <= j < k && s[j] == x;
        lemma_first_occurrence_exists(s, x, j);
    } else {
        assert(forall|j: int| 0 <= j < k ==> s[j] != x);
    }
}

/// Stepping back right after stepping forward returns to the state one
/// started from, where the forward step did not wrap around the end: in
/// playlist order from any track but the last, and in shuffle order from a
/// track at its place in the shuffle order that is not the last.
pub proof fn previous_undoes_next(v: PlaylistView)
    requires
        v.wf(),
        v.repeat != RepeatMode::One,
        v.current is Some,
        if v.shuffle {
            v.current == Some(v.order[v.pos as int]) && v.pos + 1 < v.order.len()
        } else {
            v.current.unwrap() + 1 < v.tracks.len()
        },
    ensures
        v.after_next().after_previous() == v,
{
}

/// Stepping forward right after stepping back returns to the state one
/// started from, where the backward step did not wrap around the start.
pub proof fn next_undoes_previous(v: PlaylistView)
    requires
        v.wf(),
        v.repeat != RepeatMode::One,
        v.current is Some,
        if v.shuffle {
            v.current == Some(v.order[v.pos as int]) && 0 < v.pos < v.order.len()
        } else {
            v.current.unwrap() > 0
        },
    ensures
        v.after_previous().after_next() == v,
{
}

/// With repeat set to `One`, stepping forward or back keeps the selection.
pub proof fn repeat_one_stays(v: PlaylistView)
    requires
        v.repeat == RepeatMode::One,
    ensures
        v.after_next() == v,
        v.after_previous() == v,
{
}

/// In shuffle mode, starting from the first track of the shuffle order, the
/// next `n - 1` steps visit the remaining tracks in shuffle order, so that
/// every one of the `n` tracks is played once per round.
pub proof fn shuffle_round_visits_every_track(v: PlaylistView)
    requires
        v.wf(),
        v.shuffle,
        v.repeat != RepeatMode::One,
        v.tracks.len() > 0,
        v.pos == 0,
        v.current == Some(v.order[0]),
    ensures
        forall|k: nat| k < v.tracks.len() ==> #[trigger] advanced_by(v, k).current == Some(
            v.order[k as int],
        ),
        forall|t: usize| t < v.tracks.len() ==> #[trigger] selected_within_round(v, t),
{
    assert forall|k: nat| k < v.tracks.len() implies #[trigger] advanced_by(v, k).current == Some(
        v.order[k as int],
    ) by {
        lemma_shuffle_steps(v, k);
    }
    assert forall|t: usize| t < v.tracks.len() implies #[trigger] selected_within_round(v, t) by {
        assert(is_index_permutation(v.order, v.tracks.len()));
        assert(v.order.contains(t));
        let k = choose|k: int| 0 <= k < v.order.len() && v.order[k] == t;
        lemma_shuffle_steps(v, k as nat);
        assert(advanced_by(v, k as nat).current == Some(t));
    }
}

/// After `k` steps within one shuffle round, the position is `k` and the
/// selection is the `k`-th entry of the shuffle order.
proof fn lemma_shuffle_steps(v: PlaylistView, k: nat)
    requires
        v.wf(),
        v.shuffle,
        v.repeat != RepeatMode::One,
        v.tracks.len() > 0,
        v.pos == 0,
        v.current == Some(v.order[0]),
        k < v.tracks.len(),
    ensures
        advanced_by(v, k).pos == k,
        advanced_by(v, k).current == Some(v.order[k as int]),
        advanced_by(v, k).tracks == v.tracks,
        advanced_by(v, k).order == v.order,
        advanced_by(v, k).shuffle,
        advanced_by(v, k).repeat == v.repeat,
    decreases k,
{
    if k > 0 {
        lemma_shuffle_steps(v, (k - 1) as nat);
    }
}

/// In playlist order with repeat set to `All`, `k` steps forward from track
/// `i` select track `(i + k) mod n`; after `n` steps the selection is back
/// where it started.
pub proof fn repeat_all_cycles_through_playlist(v: PlaylistView, k: nat)
    requires
        v.wf(),
        !v.shuffle,
        v.repeat == RepeatMode::All,
        v.current is Some,
    ensures
        advanced_by(v, k).current == Some(((v.current.unwrap() + k) % (v.tracks.len() as int)) as usize),
        advanced_by(v, v.tracks.len()).current == v.current,
    decreases k,
{
    lemma_repeat_all_steps(v, k);
    lemma_repeat_all_steps(v, v.tracks.len());
    let i = v.current.unwrap() as int;
    let n = v.tracks.len() as int;
    vstd::arithmetic::div_mod::lemma_fundamental_div_mod_converse(i + n, n, 1, i);
}

proof fn lemma_repeat_all_steps(v: PlaylistView, k: nat)
    requires
        v.wf(),
        !v.shuffle,
        v.repeat == RepeatMode::All,
        v.current is Some,
    ensures
        advanced_by(v, k).current == Some(((v.current.unwrap() + k) % (v.tracks.len() as int)) as usize),
        advanced_by(v, k).tracks == v.tracks,
        !advanced_by(v, k).shuffle,
        advanced_by(v, k).repeat == RepeatMode::All,
    decreases k,
{
    let i = v.current.unwrap() as int;
    let n = v.tracks.len() as int;
    if k == 0 {
        vstd::arithmetic::div_mod::lemma_fundamental_div_mod_converse(i, n, 0, i);
    } else {
        lemma_repeat_all_steps(v, (k - 1) as nat);
        let x = (i + k - 1) % n;
        vstd::arithmetic::div_mod::lemma_fundamental_div_mod(i + k - 1, n);
        let q = (i + k - 1) / n;
        assert(0 <= x < n) by {
            vstd::arithmetic::div_mod::lemma_mod_bound(i + k - 1, n);
        }
        assert(i + k - 1 == q * n + x) by (nonlinear_arith)
            requires
                i + k - 1 == n * q + x,
        ;
        if x + 1 == n {
            assert(i + k == (q + 1) * n + 0) by (nonlinear_arith)
                requires
                    i + k - 1 == q * n + x,
                    x + 1 == n,
            ;
            vstd::arithmetic::div_mod::lemma_fundamental_div_mod_converse(i + k, n, q + 1, 0);
        } else {
            vstd::arithmetic::div_mod::lemma_fundamental_div_mod_converse(i + k, n, q, x + 1);
        }
    }
}

/// Removing a track other than the selected one keeps the same track
/// selected.
pub proof fn remove_keeps_other_selection(v: PlaylistView, index: usize)
    requires
        v.wf(),
        index < v.tracks.len(),
        v.current matches Some(c) && c != index,
    ensures
        ({
            let tracks = v.tracks.remove(index as int);
            let cur = current_after_remove(v.current, index, tracks.len());
            &&& cur matches Some(c2) && c2 < tracks.len()
            &&& tracks[cur.unwrap() as int] == v.tracks[v.current.unwrap() as int]
        }),
{
}

/// With repeat set to `All`, stepping forward never ends playback: from any
/// valid state of a playlist that has tracks, the next state has a selected
/// track. At the end of a shuffled round it starts the round again from the
/// first place of the shuffle order; at the end of the playlist in playlist
/// order it starts again from the first track.
pub proof fn repeat_all_keeps_playing(v: PlaylistView)
    requires
        v.wf(),
        v.repeat == RepeatMode::All,
        v.tracks.len() > 0,
    ensures
        v.after_next().current is Some,
        v.shuffle && v.pos + 1 >= v.order.len() ==> v.after_next().pos == 0
            && v.after_next().current == Some(v.order[0]),
        v.shuffle && v.pos + 1 < v.order.len() ==> v.after_next().pos == v.pos + 1
            && v.after_next().current == Some(v.order[v.pos + 1]),
        !v.shuffle && (v.current is None || v.current.unwrap() + 1 >= v.tracks.len())
            ==> v.after_next().current == Some(0usize),
        !v.shuffle && v.current is Some && v.current.unwrap() + 1 < v.tracks.len()
            ==> v.after_next().current == Some((v.current.unwrap() + 1) as usize),
{
}

/// With repeat off, stepping forward past the end stops playback: at the
/// last place of the shuffle order, or at the last track in playlist order,
/// the next state has no selected track and keeps its place in the shuffle
/// order.
pub proof fn repeat_off_stops_at_end(v: PlaylistView)
    requires
        v.wf(),
        v.repeat == RepeatMode::Off,
        v.tracks.len() > 0,
    ensures
        v.shuffle && v.pos + 1 >= v.order.len() ==> v.after_next().current is None
            && v.after_next().pos == v.pos,
        !v.shuffle && v.current == Some((v.tracks.len() - 1) as usize) ==> v.after_next().current
            is None,
{
}

/// Stepping back from the start: with repeat `All` it goes round to the
/// end (the last place of the shuffle order, or the last track), with
/// repeat off it stays at the start.
pub proof fn previous_at_start(v: PlaylistView)
    requires
        v.wf(),
        v.repeat != RepeatMode::One,
        v.tracks.len() > 0,
    ensures
        v.shuffle && v.pos == 0 && v.repeat == RepeatMode::All ==> v.after_previous().pos == v.order.len()
            - 1 && v.after_previous().current == Some(v.order[v.order.len() - 1]),
        v.shuffle && v.pos == 0 && v.repeat == RepeatMode::Off ==> v.after_previous().pos == 0
            && v.after_previous().current == Some(v.order[0]),
        !v.shuffle && v.current == Some(0usize) && v.repeat == RepeatMode::All
            ==> v.after_previous().current == Some((v.tracks.len() - 1) as usize),
        !v.shuffle && v.current == Some(0usize) && v.repeat == RepeatMode::Off
            ==> v.after_previous().current == Some(0usize),
{
}

/// Stepping forward or back changes only the selection and the place in
/// the shuffle order: the tracks, the shuffle order itself, the shuffle
/// switch and the repeat mode stay as they were.
pub proof fn navigation_keeps_list(v: PlaylistView)
    ensures
        v.after_next().tracks == v.tracks,
        v.after_next().order == v.order,
        v.after_next().shuffle == v.shuffle,
        v.after_next().repeat == v.repeat,
        v.after_previous().tracks == v.tracks,
        v.after_previous().order == v.order,
        v.after_previous().shuffle == v.shuffle,
        v.after_previous().repeat == v.repeat,
{
}

} // verus!
