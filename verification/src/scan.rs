//! Choosing the audio files among the files a folder scan finds, and
//! putting them in path order.

use vstd::prelude::*;

use crate::paths::{extension_of, path_before, path_precedes};
use crate::text::ascii_lower;
use crate::utils::{is_scanned_audio_path, is_scanned_extension};

verus! {

/// Whether a scanned path is kept (see `is_scanned_audio_path`).
pub open spec fn kept_path(path: Seq<char>) -> bool {
    match extension_of(path) {
        Some(e) => is_scanned_extension(ascii_lower(e)),
        None => false,
    }
}

/// The kept paths among `paths`, in their order.
pub open spec fn kept_paths(paths: Seq<Seq<char>>) -> Seq<Seq<char>>
    decreases paths.len(),
{
    if paths.len() == 0 {
        seq![]
    } else {
        kept_paths(paths.drop_last()) + if kept_path(paths.last()) {
            seq![paths.last()]
        } else {
            seq![]
        }
    }
}

/// The texts of a list of paths.
pub open spec fn path_texts(paths: Seq<String>) -> Seq<Seq<char>> {
    paths.map_values(|p: String| p@)
}

/// The audio files among the files a folder scan found, in the order they
/// were found.
pub fn audio_paths(paths: Vec<String>) -> (r: Vec<String>)
    ensures
        path_texts(r@) == kept_paths(path_texts(paths@)),
{
    let ghost all = path_texts(paths@);
    let mut r: Vec<String> = Vec::new();
    let mut i: usize = 0;
    while i < paths.len()
        invariant
            i <= paths@.len(),
            all == path_texts(paths@),
            path_texts(r@) == kept_paths(all.take(i as int)),
        decreases paths@.len() - i,
    {
        proof {
            assert(all.take(i as int + 1).drop_last() =~= all.take(i as int));
            assert(all.take(i as int + 1).last() == paths@[i as int]@);
        }
        if is_scanned_audio_path(paths[i].as_str()) {
            let ghost before = r@;
            let p = paths[i].clone();
            r.push(p);
            proof {
                assert(path_texts(r@) =~= path_texts(before).push(p@));
            }
        }
        proof {
            assert(path_texts(r@) =~= kept_paths(all.take(i as int + 1)));
        }
        i = i + 1;
    }
    proof {
        assert(all.take(i as int) =~= all);
    }
    r
}

/// Whether the entry at position `i` of `s` does not come before the entry
/// just before it in std's order on paths.
pub open spec fn ordered_at(s: Seq<Seq<char>>, i: int) -> bool {
    !path_precedes(s[i], s[i - 1])
}

/// Whether a list of paths is in std's path order: no path comes before the
/// one just before it.
pub open spec fn in_path_order(s: Seq<Seq<char>>) -> bool {
    forall|i: int| 0 < i < s.len() ==> #[trigger] ordered_at(s, i)
}

/// The paths found by a folder scan, put in std's path order (the order of
/// `Path`'s `Ord`). The result holds the same paths, each as often.
pub fn sort_paths(paths: Vec<String>) -> (r: Vec<String>)
    ensures
        path_texts(r@).to_multiset() == path_texts(paths@).to_multiset(),
        in_path_order(path_texts(r@)),
{
    broadcast use vstd::seq_lib::group_to_multiset_ensures, vstd::multiset::group_multiset_axioms;

    let ghost all = path_texts(paths@);
    let mut r: Vec<String> = Vec::new();
    let mut i: usize = 0;
    while i < paths.len()
        invariant
            i <= paths@.len(),
            all == path_texts(paths@),
            path_texts(r@).to_multiset() == all.take(i as int).to_multiset(),
            in_path_order(path_texts(r@)),
        decreases paths@.len() - i,
    {
        let p = paths[i].clone();
        let mut k: usize = r.len();
        while k > 0 && path_before(p.as_str(), r[k - 1].as_str())
            invariant
                k <= r@.len(),
                in_path_order(path_texts(r@)),
                k < r@.len() ==> !path_precedes(r@[k as int]@, p@),
            decreases k,
        {
            k = k - 1;
        }
        let ghost before = path_texts(r@);
        r.insert(k, p);
        proof {
            let t = path_texts(r@);
            assert(t =~= before.insert(k as int, p@));
            assert(t.remove(k as int) =~= before);
            assert(t[k as int] == p@);
            vstd::seq_lib::to_multiset_remove(t, k as int);
            vstd::seq_lib::to_multiset_contains(t, p@);
            assert(t.to_multiset() =~= before.to_multiset().insert(p@));
            assert(all[i as int] == p@);
            assert(all.take(i as int + 1) =~= all.take(i as int).push(p@));
            vstd::seq_lib::to_multiset_build(all.take(i as int), p@);
            assert forall|j: int| 0 < j < t.len() implies #[trigger] ordered_at(t, j) by {
                if j < k {
                    assert(ordered_at(before, j));
                } else if j > k + 1 {
                    assert(ordered_at(before, j - 1));
                }
            }
        }
        i = i + 1;
    }
    proof {
        assert(all.take(i as int) =~= all);
    }
    r
}

} // verus!
