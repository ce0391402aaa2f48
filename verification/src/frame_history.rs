//! The integer side of the performance monitor's history: per-frame GPU
//! memory and draw counts, kept for a rolling window of frames, with their
//! averages and peak.

use vstd::prelude::*;

verus! {

/// The whole-number metrics of one frame.
#[derive(Debug, Clone, Copy, PartialEq, Eq, Structural)]
pub struct FrameCounts {
    /// GPU memory in use, in bytes.
    pub gpu_memory: u64,
    /// Draw calls in the frame.
    pub draw_calls: u32,
    /// Vertices in the frame.
    pub vertex_count: u32,
    /// Fragments in the frame.
    pub fragment_count: u32,
}

/// The sum of one metric over a list of frames.
pub open spec fn sum_of(s: Seq<FrameCounts>, metric: spec_fn(FrameCounts) -> nat) -> nat
    decreases s.len(),
{
    if s.len() == 0 {
        0
    } else {
        sum_of(s.drop_last(), metric) + metric(s.last())
    }
}

/// GPU memory of a frame.
pub open spec fn gpu_of(c: FrameCounts) -> nat {
    c.gpu_memory as nat
}

/// Draw calls of a frame.
pub open spec fn draws_of(c: FrameCounts) -> nat {
    c.draw_calls as nat
}

/// Vertices of a frame.
pub open spec fn vertices_of(c: FrameCounts) -> nat {
    c.vertex_count as nat
}

/// Fragments of a frame.
pub open spec fn fragments_of(c: FrameCounts) -> nat {
    c.fragment_count as nat
}

/// The largest GPU memory over a list of frames, 0 for none.
pub open spec fn peak_gpu(s: Seq<FrameCounts>) -> nat
    decreases s.len(),
{
    if s.len() == 0 {
        0
    } else {
        let rest = peak_gpu(s.drop_last());
        if gpu_of(s.last()) > rest {
            gpu_of(s.last())
        } else {
            rest
        }
    }
}

/// The last `k` frames of a history.
pub open spec fn recent(s: Seq<FrameCounts>, k: nat) -> Seq<FrameCounts> {
    s.subrange(s.len() - k, s.len() as int)
}

/// How many frames an average over `frame_count` frames takes from a
/// history of `len` frames.
pub open spec fn frames_taken(len: nat, frame_count: nat) -> nat {
    if frame_count < len {
        frame_count
    } else {
        len
    }
}

/// The sums of the metrics over frames fit the metrics' types.
pub open spec fn sums_fit(s: Seq<FrameCounts>) -> bool {
    &&& sum_of(s, |c: FrameCounts| gpu_of(c)) <= u64::MAX
    &&& sum_of(s, |c: FrameCounts| draws_of(c)) <= u32::MAX
    &&& sum_of(s, |c: FrameCounts| vertices_of(c)) <= u32::MAX
    &&& sum_of(s, |c: FrameCounts| fragments_of(c)) <= u32::MAX
}

/// A sum over a list is at most the list's length times the largest value
/// a metric below `bound` can take.
proof fn lemma_sum_bound(s: Seq<FrameCounts>, metric: spec_fn(FrameCounts) -> nat, bound: nat)
    requires
        forall|c: FrameCounts| #[trigger] metric(c) <= bound,
    ensures
        sum_of(s, metric) <= s.len() * bound,
    decreases s.len(),
{
    if s.len() > 0 {
        lemma_sum_bound(s.drop_last(), metric, bound);
        assert((s.len() - 1) * bound + bound == s.len() * bound) by (nonlinear_arith);
    }
}

/// The metrics of a rolling window of recent frames.
pub struct FrameHistory {
    entries: Vec<FrameCounts>,
    max_size: usize,
}

impl FrameHistory {
    /// The frames held, oldest first.
    pub closed spec fn frames(&self) -> Seq<FrameCounts> {
        self.entries@
    }

    /// The largest number of frames held.
    pub closed spec fn capacity(&self) -> nat {
        self.max_size as nat
    }

    /// The window holds no more frames than its capacity.
    pub open spec fn wf(&self) -> bool {
        self.frames().len() <= self.capacity()
    }

    /// An empty history that keeps up to `max_size` frames.
    pub fn new(max_size: usize) -> (h: FrameHistory)
        ensures
            h.wf(),
            h.frames().len() == 0,
            h.capacity() == max_size,
    {
        FrameHistory { entries: Vec::new(), max_size }
    }

    /// Records a frame; where that makes the window too long, the oldest
    /// frame is dropped.
    pub fn record(&mut self, counts: FrameCounts)
        requires
            old(self).wf(),
        ensures
            final(self).wf(),
            final(self).capacity() == old(self).capacity(),
            final(self).frames() == if old(self).frames().len() + 1 > old(self).capacity() {
                old(self).frames().push(counts).drop_first()
            } else {
                old(self).frames().push(counts)
            },
    {
        self.entries.push(counts);
        if self.entries.len() > self.max_size {
            let ghost pushed = self.entries@;
            self.entries.remove(0);
            proof {
                assert(self.entries@ =~= pushed.drop_first());
            }
        }
    }

    /// The number of frames held.
    pub fn len(&self) -> (n: usize)
        ensures
            n == self.frames().len(),
    {
        self.entries.len()
    }

    /// Forgets every frame.
    pub fn clear(&mut self)
        requires
            old(self).wf(),
        ensures
            final(self).wf(),
            final(self).frames().len() == 0,
            final(self).capacity() == old(self).capacity(),
    {
        self.entries.clear();
    }

    /// The largest GPU memory over the frames held, 0 for none.
    pub fn peak_gpu_memory(&self) -> (m: u64)
        ensures
            m == peak_gpu(self.frames()),
    {
        let mut m: u64 = 0;
        let mut i: usize = 0;
        while i < self.entries.len()
            invariant
                i <= self.entries@.len(),
                m == peak_gpu(self.entries@.take(i as int)),
            decreases self.entries@.len() - i,
        {
            proof {
                assert(self.entries@.take(i as int + 1).drop_last() =~= self.entries@.take(i as int));
            }
            if self.entries[i].gpu_memory > m {
                m = self.entries[i].gpu_memory;
            }
            i = i + 1;
        }
        proof {
            assert(self.entries@.take(i as int) =~= self.entries@);
        }
        m
    }

    /// The sums of the metrics over the last `k` frames, in a wider type.
    fn recent_sums(&self, k: usize) -> (r: (u128, u128, u128, u128))
        requires
            k <= self.frames().len(),
        ensures
            r.0 == sum_of(recent(self.frames(), k as nat), |c: FrameCounts| gpu_of(c)),
            r.1 == sum_of(recent(self.frames(), k as nat), |c: FrameCounts| draws_of(c)),
            r.2 == sum_of(recent(self.frames(), k as nat), |c: FrameCounts| vertices_of(c)),
            r.3 == sum_of(recent(self.frames(), k as nat), |c: FrameCounts| fragments_of(c)),
    {
        let n = self.entries.len();
        let start = n - k;
        let ghost s = self.entries@;
        let mut g: u128 = 0;
        let mut d: u128 = 0;
        let mut v: u128 = 0;
        let mut f: u128 = 0;
        let mut i: usize = start;
        while i < n
            invariant
                start <= i <= n,
                n == s.len(),
                s == self.entries@,
                start == n - k,
                g == sum_of(s.subrange(start as int, i as int), |c: FrameCounts| gpu_of(c)),
                d == sum_of(s.subrange(start as int, i as int), |c: FrameCounts| draws_of(c)),
                v == sum_of(s.subrange(start as int, i as int), |c: FrameCounts| vertices_of(c)),
                f == sum_of(s.subrange(start as int, i as int), |c: FrameCounts| fragments_of(c)),
            decreases n - i,
        {
            let ghost part = s.subrange(start as int, i as int);
            proof {
                assert(s.subrange(start as int, i as int + 1).drop_last() =~= part);
                lemma_sum_bound(part, |c: FrameCounts| gpu_of(c), u64::MAX as nat);
                lemma_sum_bound(part, |c: FrameCounts| draws_of(c), u32::MAX as nat);
                lemma_sum_bound(part, |c: FrameCounts| vertices_of(c), u32::MAX as nat);
                lemma_sum_bound(part, |c: FrameCounts| fragments_of(c), u32::MAX as nat);
                assert(part.len() <= usize::MAX);
                assert(part.len() * (u64::MAX as nat) <= (usize::MAX as nat) * (u64::MAX as nat))
                    by (nonlinear_arith)
                    requires
                        part.len() <= usize::MAX,
                ;
                assert(part.len() * (u32::MAX as nat) <= part.len() * (u64::MAX as nat))
                    by (nonlinear_arith);
                assert((usize::MAX as nat) * (u64::MAX as nat) + (u64::MAX as nat) <= u128::MAX)
                    by (nonlinear_arith)
                    requires
                        usize::MAX <= u64::MAX,
                ;
            }
            let c = self.entries[i];
            g = g + c.gpu_memory as u128;
            d = d + c.draw_calls as u128;
            v = v + c.vertex_count as u128;
            f = f + c.fragment_count as u128;
            i = i + 1;
        }
        proof {
            assert(s.subrange(start as int, n as int) =~= recent(s, k as nat));
        }
        (g, d, v, f)
    }

    /// Whether averaging over `frame_count` frames stays within the metrics'
    /// types (see `average_metrics`).
    pub fn average_fits(&self, frame_count: usize) -> (r: bool)
        ensures
            r == sums_fit(recent(self.frames(), frames_taken(self.frames().len(), frame_count as nat))),
    {
        let k = if frame_count < self.entries.len() {
            frame_count
        } else {
            self.entries.len()
        };
        let (g, d, v, f) = self.recent_sums(k);
        g <= u64::MAX as u128 && d <= u32::MAX as u128 && v <= u32::MAX as u128 && f <= u32::MAX
            as u128
    }

    /// The metrics averaged over the last `frame_count` frames (all of them
    /// where fewer are held), each the sum divided by the number of frames
    /// and rounded down; none for no frames.
    pub fn average_metrics(&self, frame_count: usize) -> (r: Option<FrameCounts>)
        requires
            sums_fit(recent(self.frames(), frames_taken(self.frames().len(), frame_count as nat))),
        ensures
            ({
                let k = frames_taken(self.frames().len(), frame_count as nat);
                let s = recent(self.frames(), k);
                if self.frames().len() == 0 || frame_count == 0 {
                    r is None
                } else {
                    r == Some(
                        FrameCounts {
                            gpu_memory: (sum_of(s, |c: FrameCounts| gpu_of(c)) / k) as u64,
                            draw_calls: (sum_of(s, |c: FrameCounts| draws_of(c)) / k) as u32,
                            vertex_count: (sum_of(s, |c: FrameCounts| vertices_of(c)) / k) as u32,
                            fragment_count: (sum_of(s, |c: FrameCounts| fragments_of(c)) / k) as u32,
                        },
                    )
                }
            }),
    {
        if self.entries.len() == 0 || frame_count == 0 {
            return None;
        }
        let k = if frame_count < self.entries.len() {
            frame_count
        } else {
            self.entries.len()
        };
        let (g, d, v, f) = self.recent_sums(k);
        let kk = k as u128;
        Some(
            FrameCounts {
                gpu_memory: (g / kk) as u64,
                draw_calls: (d / kk) as u32,
                vertex_count: (v / kk) as u32,
                fragment_count: (f / kk) as u32,
            },
        )
    }
}

} // verus!
