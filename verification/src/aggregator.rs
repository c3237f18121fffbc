use vstd::prelude::*;

use crate::parser::FingersFlexValues;
use crate::parser::FlexSensorGloveNotification;

verus! {

/// Bounded sliding-window mean filter. It keeps at most
/// `target_aggregation_size` recent frames and turns each incoming frame into
/// a baseline-corrected one: the last raw value minus the windowed mean,
/// floored at zero.
pub struct MeanAggregator {
    rows: Vec<FlexSensorGloveNotification>,
    target_aggregation_size: usize,
}

/// Sum of channel `i` over the buffered frames.
pub open spec fn channel_sum(rows: Seq<FlexSensorGloveNotification>, i: int) -> int
    decreases rows.len(),
{
    if rows.len() == 0 {
        0
    } else {
        channel_sum(rows.drop_last(), i) + rows.last().flex_values.0[i]
    }
}

/// Truncating integer mean of channel `i` over the buffered frames.
pub open spec fn channel_mean(rows: Seq<FlexSensorGloveNotification>, i: int) -> int {
    channel_sum(rows, i) / rows.len() as int
}

/// The filter's output on channel `i`: the last frame's raw value minus the
/// windowed mean, never below zero.
pub open spec fn smoothed_channel(rows: Seq<FlexSensorGloveNotification>, i: int) -> int {
    let last = rows.last().flex_values.0[i] as int;
    let mean = channel_mean(rows, i);
    if last >= mean {
        last - mean
    } else {
        0
    }
}

/// The window after one push: the oldest frame is evicted once the buffer is
/// full, then the new frame is appended.
pub open spec fn window_after_push(
    rows: Seq<FlexSensorGloveNotification>,
    target: int,
    new_row: FlexSensorGloveNotification,
) -> Seq<FlexSensorGloveNotification> {
    if rows.len() >= target {
        rows.drop_first().push(new_row)
    } else {
        rows.push(new_row)
    }
}

proof fn lemma_channel_sum_bounds(rows: Seq<FlexSensorGloveNotification>, i: int)
    ensures
        0 <= channel_sum(rows, i) <= rows.len() * 0xFFFF_FFFF,
    decreases rows.len(),
{
    if rows.len() > 0 {
        lemma_channel_sum_bounds(rows.drop_last(), i);
    }
}

proof fn lemma_channel_sum_constant(rows: Seq<FlexSensorGloveNotification>, i: int, v: u32)
    requires
        forall|k: int| 0 <= k < rows.len() ==> rows[k].flex_values.0[i] == v,
    ensures
        channel_sum(rows, i) == rows.len() * v,
    decreases rows.len(),
{
    if rows.len() > 0 {
        lemma_channel_sum_constant(rows.drop_last(), i, v);
        assert(rows.last().flex_values.0[i] == v);
        let n = rows.len() as int;
        assert((n - 1) * v + v == n * v) by (nonlinear_arith);
    }
}

/// A stream of identical frames is flattened to zero: whatever the window
/// holds, once every buffered frame and the pushed frame carry the same value
/// on channel `i`, the filter's output on that channel is zero.
pub proof fn lemma_constant_input_all_zero(
    rows: Seq<FlexSensorGloveNotification>,
    target: int,
    new_row: FlexSensorGloveNotification,
    v: u32,
    i: int,
)
    requires
        0 <= i < 5,
        0 < target,
        forall|k: int| 0 <= k < rows.len() ==> rows[k].flex_values.0[i] == v,
        new_row.flex_values.0[i] == v,
    ensures
        smoothed_channel(window_after_push(rows, target, new_row), i) == 0,
{
    let w = window_after_push(rows, target, new_row);
    assert forall|k: int| 0 <= k < w.len() implies w[k].flex_values.0[i] == v by {
        if k == w.len() - 1 {
            assert(w[k] == new_row);
        } else if rows.len() >= target {
            assert(w[k] == rows.drop_first()[k]);
            assert(rows.drop_first()[k] == rows[k + 1]);
        } else {
            assert(w[k] == rows[k]);
        }
    }
    lemma_channel_sum_constant(w, i, v);
    let n = w.len() as int;
    assert(channel_mean(w, i) == (n * v) / n);
    vstd::arithmetic::div_mod::lemma_div_multiples_vanish(v as int, n);
    assert(w.last().flex_values.0[i] == v);
}

fn channel_sum_exec(rows: &Vec<FlexSensorGloveNotification>, i: usize) -> (s: u64)
    requires
        i < 5,
        rows@.len() <= 0xFFFF_FFFF,
    ensures
        s == channel_sum(rows@, i as int),
{
    let mut s: u64 = 0;
    let mut k: usize = 0;
    while k < rows.len()
        invariant
            i < 5,
            k <= rows@.len() <= 0xFFFF_FFFF,
            s == channel_sum(rows@.take(k as int), i as int),
            s <= k * 0xFFFF_FFFF,
        decreases rows@.len() - k,
    {
        proof {
            assert(rows@.take(k + 1).drop_last() =~= rows@.take(k as int));
            assert(rows@.take(k + 1).last() == rows@[k as int]);
            lemma_channel_sum_bounds(rows@.take(k as int), i as int);
        }
        s = s + rows[k].flex_values.0[i] as u64;
        k = k + 1;
    }
    proof {
        assert(rows@.take(rows@.len() as int) =~= rows@);
    }
    s
}

impl MeanAggregator {
    /// The buffer never outgrows the target, the target is positive, and it is
    /// small enough that no window sum can overflow.
    pub closed spec fn wf(&self) -> bool {
        0 < self.target_aggregation_size <= 0xFFFF_FFFF && self.rows@.len()
            <= self.target_aggregation_size
    }

    pub closed spec fn rows_view(&self) -> Seq<FlexSensorGloveNotification> {
        self.rows@
    }

    pub closed spec fn target(&self) -> int {
        self.target_aggregation_size as int
    }

    /// A fresh filter with an empty window. The target size must be positive;
    /// the upper bound keeps every window sum inside a machine word.
    pub fn new(target_aggregation_size: usize) -> (a: Self)
        requires
            0 < target_aggregation_size <= 0xFFFF_FFFF,
        ensures
            a.wf(),
            a.rows_view() =~= Seq::<FlexSensorGloveNotification>::empty(),
            a.target() == target_aggregation_size,
    {
        Self { rows: Vec::new(), target_aggregation_size }
    }

    /// Slides the window by one frame and returns the baseline-corrected
    /// frame: same timestamp as the input, each channel the raw value minus
    /// the window's truncating mean, floored at zero.
    pub fn push_and_aggregate(&mut self, new_row: FlexSensorGloveNotification) -> (r:
        FlexSensorGloveNotification)
        requires
            old(self).wf(),
        ensures
            final(self).wf(),
            final(self).target() == old(self).target(),
            final(self).rows_view() == window_after_push(
                old(self).rows_view(),
                old(self).target(),
                new_row,
            ),
            r.dt == new_row.dt,
            forall|i: int|
                0 <= i < 5 ==> r.flex_values.0[i] == smoothed_channel(
                    final(self).rows_view(),
                    i,
                ),
    {
        let len = self.rows.len();

        if len >= self.target_aggregation_size {
            self.rows.remove(0);
        }

        self.rows.push(new_row);

        proof {
            assert(self.rows@ =~= window_after_push(
                old(self).rows@,
                old(self).target(),
                new_row,
            ));
        }

        self.aggregate_rows()
    }

    fn aggregate_rows(&self) -> (r: FlexSensorGloveNotification)
        requires
            self.wf(),
            self.rows@.len() > 0,
        ensures
            r.dt == self.rows@.last().dt,
            forall|i: int| 0 <= i < 5 ==> r.flex_values.0[i] == smoothed_channel(self.rows@, i),
    {
        let len = self.rows.len() as u64;
        let last_row = &self.rows[self.rows.len() - 1];

        let s0 = channel_sum_exec(&self.rows, 0);
        let s1 = channel_sum_exec(&self.rows, 1);
        let s2 = channel_sum_exec(&self.rows, 2);
        let s3 = channel_sum_exec(&self.rows, 3);
        let s4 = channel_sum_exec(&self.rows, 4);

        let flex_values: [u32; 5] = [
            Self::corrected(last_row.flex_values.0[0], s0 / len),
            Self::corrected(last_row.flex_values.0[1], s1 / len),
            Self::corrected(last_row.flex_values.0[2], s2 / len),
            Self::corrected(last_row.flex_values.0[3], s3 / len),
            Self::corrected(last_row.flex_values.0[4], s4 / len),
        ];

        FlexSensorGloveNotification { dt: last_row.dt, flex_values: FingersFlexValues(flex_values) }
    }

    fn corrected(last: u32, mean: u64) -> (r: u32)
        ensures
            r == if last as int >= mean as int {
                last - mean
            } else {
                0
            },
    {
        if last as u64 >= mean {
            (last as u64 - mean) as u32
        } else {
            0
        }
    }

    /// Retargets the window. Shrinking takes effect immediately: the oldest
    /// excess frames are dropped so that only the most recent
    /// `aggregation_size` remain. Growing leaves the buffer untouched; it
    /// simply fills further on later pushes.
    pub fn set_aggregation_size(&mut self, aggregation_size: usize)
        requires
            old(self).wf(),
            0 < aggregation_size <= 0xFFFF_FFFF,
        ensures
            final(self).wf(),
            final(self).target() == aggregation_size,
            final(self).rows_view() == if old(self).rows_view().len() > aggregation_size {
                old(self).rows_view().skip(
                    old(self).rows_view().len() - aggregation_size as int,
                )
            } else {
                old(self).rows_view()
            },
    {
        self.target_aggregation_size = aggregation_size;

        if self.rows.len() > aggregation_size {
            let excess = self.rows.len() - aggregation_size;
            let mut k: usize = 0;
            while k < excess
                invariant
                    k <= excess,
                    excess + aggregation_size == old(self).rows@.len(),
                    self.rows@ == old(self).rows@.skip(k as int),
                    self.target_aggregation_size == aggregation_size,
                decreases excess - k,
            {
                self.rows.remove(0);
                proof {
                    assert(old(self).rows@.skip(k as int).remove(0) =~= old(self).rows@.skip(
                        k as int + 1,
                    ));
                }
                k = k + 1;
            }
        }
    }
}

} // verus!
