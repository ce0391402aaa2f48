//! Index permutations and the Fisher-Yates shuffle that produces them.

use vstd::prelude::*;

verus! {

/// `s` holds each of `0..n` exactly once.
pub open spec fn is_index_permutation(s: Seq<usize>, n: nat) -> bool {
    &&& s.len() == n
    &&& forall|k: int| 0 <= k < n ==> #[trigger] s[k] < n
    &&& forall|a: int, b: int| 0 <= a < n && 0 <= b < n && a != b ==> #[trigger] s[a] != #[trigger] s[b]
    &&& forall|m: usize| m < n ==> #[trigger] s.contains(m)
}

/// The indices `from..to` in increasing order.
pub open spec fn index_range(from: nat, to: nat) -> Seq<usize> {
    Seq::new((to - from) as nat, |k: int| (from + k) as usize)
}

/// `after` holds the items of `before` rearranged by the index permutation `p`.
pub open spec fn rearranged(before: Seq<usize>, after: Seq<usize>, p: Seq<usize>) -> bool {
    &&& after.len() == before.len()
    &&& is_index_permutation(p, before.len())
    &&& forall|k: int| 0 <= k < after.len() ==> #[trigger] after[k] == before[p[k] as int]
}

/// `after` is some rearrangement of `before`.
pub open spec fn is_rearrangement(before: Seq<usize>, after: Seq<usize>) -> bool {
    exists|p: Seq<usize>| rearranged(before, after, p)
}

/// The identity arrangement is a permutation.
pub proof fn identity_is_permutation(n: nat)
    requires
        n <= usize::MAX + 1,
    ensures
        is_index_permutation(index_range(0, n), n),
{
    let s = index_range(0, n);
    assert forall|m: usize| m < n implies #[trigger] s.contains(m) by {
        assert(s[m as int] == m);
    }
}

/// Exchanging two entries keeps a permutation a permutation.
pub proof fn swap_keeps_permutation(s: Seq<usize>, n: nat, i: int, j: int)
    requires
        is_index_permutation(s, n),
        0 <= i < n,
        0 <= j < n,
    ensures
        is_index_permutation(s.update(i, s[j]).update(j, s[i]), n),
{
    let t = s.update(i, s[j]).update(j, s[i]);
    assert forall|a: int, b: int| 0 <= a < n && 0 <= b < n && a != b implies #[trigger] t[a]
        != #[trigger] t[b] by {
        let sa = if a == j { i } else if a == i { j } else { a };
        let sb = if b == j { i } else if b == i { j } else { b };
        assert(t[a] == s[sa]);
        assert(t[b] == s[sb]);
    }
    assert forall|m: usize| m < n implies #[trigger] t.contains(m) by {
        assert(s.contains(m));
        let k = choose|k: int| 0 <= k < s.len() && s[k] == m;
        let tk = if k == i { j } else if k == j { i } else { k };
        assert(t[tk] == m);
    }
}

/// Rearranging a permutation by a permutation gives a permutation.
pub proof fn rearranged_permutation(before: Seq<usize>, after: Seq<usize>, p: Seq<usize>, n: nat)
    requires
        is_index_permutation(before, n),
        rearranged(before, after, p),
        n <= usize::MAX + 1,
    ensures
        is_index_permutation(after, n),
{
    assert forall|k: int| 0 <= k < n implies #[trigger] after[k] < n by {
        assert(p[k] < n);
    }
    assert forall|a: int, b: int| 0 <= a < n && 0 <= b < n && a != b implies #[trigger] after[a]
        != #[trigger] after[b] by {
        assert(p[a] != p[b]);
        assert(after[a] == before[p[a] as int]);
        assert(after[b] == before[p[b] as int]);
    }
    assert forall|m: usize| m < n implies #[trigger] after.contains(m) by {
        assert(before.contains(m));
        let k0 = choose|k: int| 0 <= k < before.len() && before[k] == m;
        assert(k0 < n);
        let k0u = k0 as usize;
        assert(p.contains(k0u));
        let k = choose|k: int| 0 <= k < p.len() && p[k] == k0u;
        assert(after[k] == before[p[k] as int]);
        assert(after[k] == m);
    }
}

/// Appending the next indices to a permutation of `0..n` gives a permutation
/// of `0..m`.
pub proof fn extend_permutation(s: Seq<usize>, n: nat, m: nat)
    requires
        is_index_permutation(s, n),
        n <= m,
        m <= usize::MAX + 1,
    ensures
        is_index_permutation(s + index_range(n, m), m),
{
    let t = s + index_range(n, m);
    assert forall|k: int| 0 <= k < m implies #[trigger] t[k] < m by {
        if k >= n {
            assert(t[k] == index_range(n, m)[k - n]);
        }
    }
    assert forall|a: int, b: int| 0 <= a < m && 0 <= b < m && a != b implies #[trigger] t[a]
        != #[trigger] t[b] by {
        if a < n && b < n {
        } else if a >= n && b >= n {
            assert(t[a] == index_range(n, m)[a - n]);
            assert(t[b] == index_range(n, m)[b - n]);
        } else if a < n {
            assert(t[b] == index_range(n, m)[b - n]);
            assert(s[a] < n);
        } else {
            assert(t[a] == index_range(n, m)[a - n]);
            assert(s[b] < n);
        }
    }
    assert forall|x: usize| x < m implies #[trigger] t.contains(x) by {
        if x < n {
            assert(s.contains(x));
            let k = choose|k: int| 0 <= k < s.len() && s[k] == x;
            assert(t[k] == x);
        } else {
            assert(t[n + (x - n)] == x);
        }
    }
}

/// In a permutation every index appears at exactly one position.
pub proof fn permutation_position_unique(s: Seq<usize>, n: nat, a: int, b: int)
    requires
        is_index_permutation(s, n),
        0 <= a < n,
        0 <= b < n,
        s[a] == s[b],
    ensures
        a == b,
{
}

/// The multiplier of the linear congruential generator that drives the shuffle.
pub const LCG_MULTIPLIER: u64 = 6_364_136_223_846_793_005;

/// The increment of the linear congruential generator that drives the shuffle.
pub const LCG_INCREMENT: u64 = 1_442_695_040_888_963_407;

/// The next state of the generator: the state times the multiplier plus the
/// increment, modulo 2^64.
pub open spec fn lcg_next(state: u64) -> u64 {
    ((state * LCG_MULTIPLIER + LCG_INCREMENT) % 0x1_0000_0000_0000_0000) as u64
}

/// The position at or below `i - 1` that the generator state `r` picks: the
/// state's upper 31 bits modulo `i`.
pub open spec fn picked_position(r: u64, i: nat) -> int {
    (r >> 33) as int % (i as int)
}

/// `s` with the entries at `i` and `j` exchanged.
pub open spec fn swapped(s: Seq<usize>, i: int, j: int) -> Seq<usize> {
    s.update(i, s[j]).update(j, s[i])
}

/// The passes of the shuffle over positions `i - 1` down to 1, starting
/// from the generator state `state`: each pass advances the generator and
/// exchanges its position with the one the new state picks.
pub open spec fn shuffle_passes(s: Seq<usize>, state: u64, i: nat) -> Seq<usize>
    decreases i,
{
    if i <= 1 {
        s
    } else {
        let r = lcg_next(state);
        shuffle_passes(swapped(s, i - 1, picked_position(r, i)), r, (i - 1) as nat)
    }
}

/// The arrangement that the shuffle seeded with `seed` gives `s`: the
/// generator is advanced once from the seed before the first pass.
pub open spec fn shuffled(s: Seq<usize>, seed: u64) -> Seq<usize> {
    shuffle_passes(s, lcg_next(seed), s.len())
}

/// The next state of the generator.
fn lcg_step(state: u64) -> (r: u64)
    ensures
        r == lcg_next(state),
{
    let m = state.wrapping_mul(LCG_MULTIPLIER);
    let r = m.wrapping_add(LCG_INCREMENT);
    proof {
        let w: int = 0x1_0000_0000_0000_0000;
        let p: int = state * LCG_MULTIPLIER;
        assert(m == p % w);
        vstd::arithmetic::div_mod::lemma_add_mod_noop(p, LCG_INCREMENT as int, w);
        vstd::arithmetic::div_mod::lemma_small_mod(LCG_INCREMENT as nat, w as nat);
        let x: int = m as int + LCG_INCREMENT;
        if x >= w {
            vstd::arithmetic::div_mod::lemma_mod_sub_multiples_vanish(x, w);
            vstd::arithmetic::div_mod::lemma_small_mod((x - w) as nat, w as nat);
        } else {
            vstd::arithmetic::div_mod::lemma_small_mod(x as nat, w as nat);
        }
    }
    r
}

/// Exchanges two entries of a vector.
fn swap_entries(v: &mut Vec<usize>, i: usize, j: usize)
    requires
        i < old(v)@.len(),
        j < old(v)@.len(),
    ensures
        final(v)@ == old(v)@.update(i as int, old(v)@[j as int]).update(j as int, old(v)@[i as int]),
{
    let a = v[i];
    let b = v[j];
    v.set(i, b);
    v.set(j, a);
}

/// Fisher-Yates shuffle driven by a linear congruential generator seeded with
/// `seed`: for each position from the last down to the second, exchanges it
/// with a position at or below it chosen by the generator (see `shuffled`).
/// The result is a rearrangement of the input.
pub fn fisher_yates_shuffle(v: &mut Vec<usize>, seed: u64)
    ensures
        final(v)@ == shuffled(old(v)@, seed),
        is_rearrangement(old(v)@, final(v)@),
{
    let ghost initial = v@;
    let n = v.len();
    let ghost mut p: Seq<usize> = index_range(0, n as nat);
    proof {
        identity_is_permutation(n as nat);
        assert(rearranged(initial, v@, p));
    }
    let mut rng = lcg_step(seed);
    let mut i = n;
    while i > 1
        invariant
            n == v@.len(),
            n == initial.len(),
            i <= n,
            rearranged(initial, v@, p),
            shuffle_passes(v@, rng, i as nat) == shuffled(initial, seed),
        decreases i,
    {
        let ghost state = rng;
        let ghost passes = i as nat;
        i = i - 1;
        rng = lcg_step(rng);
        let high = rng >> 33;
        assert(high <= 0x7fff_ffff) by (bit_vector)
            requires
                high == rng >> 33,
        ;
        let j = (high as usize) % (i + 1);
        let ghost before = v@;
        swap_entries(v, i, j);
        proof {
            assert(j as int == picked_position(rng, passes));
            assert(v@ == swapped(before, i as int, j as int));
            assert(shuffle_passes(before, state, passes) == shuffle_passes(v@, rng, i as nat));
            swap_keeps_permutation(p, n as nat, i as int, j as int);
            let q = p.update(i as int, p[j as int]).update(j as int, p[i as int]);
            assert forall|k: int| 0 <= k < v@.len() implies #[trigger] v@[k] == initial[q[k] as int] by {
                if k == i as int {
                    assert(v@[k] == before[j as int]);
                } else if k == j as int {
                    assert(v@[k] == before[i as int]);
                } else {
                    assert(v@[k] == before[k]);
                }
            }
            p = q;
        }
    }
    proof {
        assert(rearranged(initial, v@, p));
    }
}

} // verus!
