//! The range bookkeeping of the (iterative) Ramer-Douglas-Peucker algorithm.
//!
//! The algorithm decimates a path of points: it keeps a stack of index ranges
//! still to examine; for the range on top it either keeps the range's end
//! point (when every point between its ends is close enough to the line
//! between them) or splits the range at the point farthest from that line.
//! Measuring the distances is the caller's part; this module holds the stack
//! and the retained indices, and guarantees what the result looks like: it
//! always holds the first and last index, in strictly increasing order.
use vstd::prelude::*;

verus! {

/// The abstract state of a decimation.
pub struct DecimationView {
    /// The number of points of the path.
    pub len: nat,
    /// The ranges still to examine; the last one is examined next.
    pub pending: Seq<(usize, usize)>,
    /// The indices retained so far.
    pub kept: Seq<usize>,
}

/// A decimation in progress over a path of points.
pub struct Decimation {
    len: usize,
    ranges: Vec<(usize, usize)>,
    kept: Vec<usize>,
}

/// Every element of `s` is smaller than the ones after it.
pub open spec fn strictly_increasing(s: Seq<usize>) -> bool {
    forall|i: int, j: int| 0 <= i < j < s.len() ==> #[trigger] s[i] < #[trigger] s[j]
}

/// The amount of work left in the pending ranges: each range `(s, e)` needs at
/// most `2 * (e - s) - 1` more steps.
pub open spec fn remaining_work(p: Seq<(usize, usize)>) -> int
    decreases p.len(),
{
    if p.len() == 0 {
        0
    } else {
        remaining_work(p.drop_last()) + 2 * (p.last().1 - p.last().0) - 1
    }
}

/// The invariant of a decimation: the retained indices are increasing and
/// start at 0; the pending ranges are non-empty and chained, from the last
/// retained index (top) to the last point (bottom).
pub open spec fn decimation_wf(v: DecimationView) -> bool {
    &&& strictly_increasing(v.kept)
    &&& forall|i: int| 0 <= i < v.kept.len() ==> #[trigger] v.kept[i] < v.len
    &&& v.len > 0 ==> v.kept.len() > 0 && v.kept[0] == 0
    &&& v.len == 0 ==> v.kept.len() == 0 && v.pending.len() == 0
    &&& forall|i: int|
        0 <= i < v.pending.len() ==> #[trigger] v.pending[i].0 < v.pending[i].1 && v.pending[i].1
            < v.len
    &&& forall|i: int|
        1 <= i < v.pending.len() ==> v.pending[i - 1].0 == #[trigger] v.pending[i].1
    &&& v.pending.len() > 0 ==> v.pending[0].1 == v.len - 1 && v.pending.last().0
        == v.kept.last()
    &&& (v.pending.len() == 0 && v.len > 0) ==> v.kept.last() == v.len - 1
}

/// The pending work is never negative.
pub proof fn lemma_remaining_work_nonneg(p: Seq<(usize, usize)>)
    requires
        forall|i: int| 0 <= i < p.len() ==> #[trigger] p[i].0 < p[i].1,
    ensures
        remaining_work(p) >= p.len(),
    decreases p.len(),
{
    if p.len() > 0 {
        let q = p.drop_last();
        assert forall|i: int| 0 <= i < q.len() implies #[trigger] q[i].0 < q[i].1 by {
            assert(q[i] == p[i]);
        }
        lemma_remaining_work_nonneg(q);
        assert(p[p.len() - 1].0 < p[p.len() - 1].1);
    }
}

impl View for Decimation {
    type V = DecimationView;

    closed spec fn view(&self) -> DecimationView {
        DecimationView { len: self.len as nat, pending: self.ranges@, kept: self.kept@ }
    }
}

impl Decimation {
    /// Starts decimating a path of `len` points. A path of at most two points
    /// is kept whole; a longer path starts with its first index retained and
    /// the range from its first to its last point pending.
    pub fn new(len: usize) -> (d: Self)
        ensures
            d@.len == len,
            decimation_wf(d@),
            len <= 2 ==> d@.pending.len() == 0 && d@.kept == Seq::new(len as nat, |i: int| i as usize),
            len > 2 ==> d@.pending == seq![(0usize, (len - 1) as usize)] && d@.kept == seq![0usize],
    {
        let mut kept: Vec<usize> = Vec::new();
        let mut ranges: Vec<(usize, usize)> = Vec::new();
        if len <= 2 {
            let mut i: usize = 0;
            while i < len
                invariant
                    i <= len <= 2,
                    kept@ == Seq::new(i as nat, |j: int| j as usize),
                decreases len - i,
            {
                kept.push(i);
                i = i + 1;
            }
        } else {
            kept.push(0);
            ranges.push((0, len - 1));
        }
        let d = Decimation { len, ranges, kept };
        assert(d@.len <= 2 ==> d@.kept =~= Seq::new(len as nat, |i: int| i as usize));
        d
    }

    /// The range to examine next, if any: its start and end index.
    pub fn current(&self) -> (r: Option<(usize, usize)>)
        ensures
            self@.pending.len() == 0 ==> r is None,
            self@.pending.len() > 0 ==> r == Some(self@.pending.last()),
    {
        let n = self.ranges.len();
        if n == 0 {
            None
        } else {
            Some(self.ranges[n - 1])
        }
    }

    /// Whether every range has been examined.
    pub fn is_done(&self) -> (b: bool)
        ensures
            b == (self@.pending.len() == 0),
    {
        self.ranges.len() == 0
    }

    /// Finishes the current range by retaining its end point.
    pub fn keep_end(&mut self)
        requires
            decimation_wf(old(self)@),
            old(self)@.pending.len() > 0,
        ensures
            decimation_wf(final(self)@),
            final(self)@.len == old(self)@.len,
            final(self)@.pending == old(self)@.pending.drop_last(),
            final(self)@.kept == old(self)@.kept.push(old(self)@.pending.last().1),
            remaining_work(final(self)@.pending) < remaining_work(old(self)@.pending),
    {
        let ghost old_v = self@;
        let r = self.ranges.pop().unwrap();
        self.kept.push(r.1);
        proof {
            let v = self@;
            let p = old_v.pending;
            let m = p.len();
            assert(r == p[m - 1]);
            assert(p[m - 1].0 < p[m - 1].1);
            assert(old_v.kept.last() == r.0);
            assert forall|i: int, j: int| 0 <= i < j < v.kept.len() implies #[trigger] v.kept[i]
                < #[trigger] v.kept[j] by {
                if j == v.kept.len() - 1 {
                    if i < old_v.kept.len() - 1 {
                        assert(old_v.kept[i] < old_v.kept[old_v.kept.len() - 1]);
                    }
                } else {
                    assert(old_v.kept[i] < old_v.kept[j]);
                }
            }
            assert forall|i: int| 0 <= i < v.pending.len() implies #[trigger] v.pending[i].0
                < v.pending[i].1 && v.pending[i].1 < v.len by {
                assert(v.pending[i] == p[i]);
            }
            assert forall|i: int| 1 <= i < v.pending.len() implies v.pending[i - 1].0
                == #[trigger] v.pending[i].1 by {
                assert(v.pending[i] == p[i]);
                assert(v.pending[i - 1] == p[i - 1]);
            }
            if v.pending.len() > 0 {
                assert(p[m - 2].0 == p[m - 1].1);
            }
            assert(v.kept[0] == old_v.kept[0]);
        }
    }

    /// Splits the current range at `at`, a point strictly between its ends:
    /// the part before `at` is examined next, then the part after it.
    pub fn split_at(&mut self, at: usize)
        requires
            decimation_wf(old(self)@),
            old(self)@.pending.len() > 0,
            old(self)@.pending.last().0 < at < old(self)@.pending.last().1,
        ensures
            decimation_wf(final(self)@),
            final(self)@.len == old(self)@.len,
            final(self)@.kept == old(self)@.kept,
            final(self)@.pending == old(self)@.pending.drop_last().push(
                (at, old(self)@.pending.last().1),
            ).push((old(self)@.pending.last().0, at)),
            remaining_work(final(self)@.pending) < remaining_work(old(self)@.pending),
    {
        let ghost old_v = self@;
        let r = self.ranges.pop().unwrap();
        self.ranges.push((at, r.1));
        self.ranges.push((r.0, at));
        proof {
            let v = self@;
            let p = old_v.pending;
            let m = p.len();
            assert(r == p[m - 1]);
            let q = p.drop_last();
            let q1 = q.push((at, r.1));
            assert(v.pending == q1.push((r.0, at)));
            assert(v.pending.drop_last() == q1);
            assert(q1.drop_last() == q);
            assert(p.drop_last() == q);
            assert(v.pending.last() == (r.0, at));
            assert(q1.last() == (at, r.1));
            assert(remaining_work(v.pending) == remaining_work(q1) + 2 * (at - r.0) - 1);
            assert(remaining_work(q1) == remaining_work(q) + 2 * (r.1 - at) - 1);
            assert(remaining_work(p) == remaining_work(q) + 2 * (r.1 - r.0) - 1);
            assert forall|i: int| 0 <= i < v.pending.len() implies #[trigger] v.pending[i].0
                < v.pending[i].1 && v.pending[i].1 < v.len by {
                if i < m - 1 {
                    assert(v.pending[i] == p[i]);
                }
            }
            assert forall|i: int| 1 <= i < v.pending.len() implies v.pending[i - 1].0
                == #[trigger] v.pending[i].1 by {
                if i < m - 1 {
                    assert(v.pending[i] == p[i]);
                    assert(v.pending[i - 1] == p[i - 1]);
                } else if i == m - 1 {
                    if m >= 2 {
                        assert(v.pending[i - 1] == p[i - 1]);
                        assert(p[m - 2].0 == p[m - 1].1);
                    }
                }
            }
            if m == 1 {
                assert(v.pending[0] == (at, r.1));
            } else {
                assert(v.pending[0] == p[0]);
            }
        }
    }

    /// The indices retained so far.
    pub fn indices(&self) -> (k: &Vec<usize>)
        ensures
            k@ == self@.kept,
    {
        &self.kept
    }

    /// Ends the decimation, returning the retained indices.
    pub fn into_indices(self) -> (k: Vec<usize>)
        ensures
            k@ == self@.kept,
    {
        self.kept
    }
}

/// A finished decimation retains the first and the last index of the path,
/// and only valid indices, in strictly increasing order.
pub proof fn lemma_finished_decimation_keeps_endpoints(v: DecimationView)
    requires
        decimation_wf(v),
        v.pending.len() == 0,
    ensures
        strictly_increasing(v.kept),
        forall|i: int| 0 <= i < v.kept.len() ==> #[trigger] v.kept[i] < v.len,
        v.len > 0 ==> v.kept.len() >= 1 && v.kept[0] == 0 && v.kept.last() == v.len - 1,
        v.len == 0 ==> v.kept.len() == 0,
{
}

/// While ranges are pending, the remaining work is at least the number of
/// pending ranges, so the work measure bounds the number of steps left.
pub proof fn lemma_pending_work_bounds_steps(v: DecimationView)
    requires
        decimation_wf(v),
    ensures
        remaining_work(v.pending) >= v.pending.len(),
{
    lemma_remaining_work_nonneg(v.pending);
}

} // verus!
