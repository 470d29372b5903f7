//! Locating a moment on a time/temperature curve given by up to
//! `MAX_POINTS` points.

use vstd::prelude::*;

verus! {

/// Largest number of points of a curve.
pub const MAX_POINTS: usize = 5;

/// Where a moment falls on the curve.
#[derive(Clone, Copy, Debug, PartialEq, Eq, Structural)]
pub enum CurvePosition {
    /// Before the first point: the curve holds the first point's value.
    BeforeFirst,
    /// Between point `index - 1` and point `index`: `since_prev` seconds
    /// after the earlier point, which lies `span` seconds before the later.
    Between { index: usize, since_prev: u32, span: u32 },
    /// At or after the last point (or the curve has no points).
    AfterLast,
}

/// The elapsed time as the curve reads it: cut to 32 bits, as a cast to
/// `u32` cuts it.
pub open spec fn curve_seconds(elapsed_secs: u64) -> int {
    elapsed_secs as int % 0x1_0000_0000
}

/// Point `i` is the first of the first `length` points that lies after
/// moment `t`.
pub open spec fn is_first_later(times: Seq<u32>, length: int, t: int, i: int) -> bool {
    &&& 0 <= i < length
    &&& t < times[i]
    &&& forall|j: int| 0 <= j < i ==> times[j] <= t
}

/// Finds where the moment `elapsed_secs` falls among the first `length`
/// points of the curve: at the first point whose time lies after it. A
/// `length` beyond `MAX_POINTS` is accepted as long as one of the points
/// lies after the moment, so that the search ends among them.
pub fn locate_point(times: [u32; MAX_POINTS], length: u8, elapsed_secs: u64) -> (pos: CurvePosition)
    requires
        length as usize <= MAX_POINTS || exists|k: int|
            0 <= k < MAX_POINTS && curve_seconds(elapsed_secs) < #[trigger] times@[k],
    ensures
        ({
            let t = curve_seconds(elapsed_secs);
            match pos {
                CurvePosition::BeforeFirst => is_first_later(times@, length as int, t, 0),
                CurvePosition::Between { index, since_prev, span } => {
                    &&& 1 <= index < MAX_POINTS
                    &&& is_first_later(times@, length as int, t, index as int)
                    &&& since_prev == t - times@[index - 1]
                    &&& span == times@[index as int] - times@[index - 1]
                    &&& span > 0
                    &&& since_prev < span
                },
                CurvePosition::AfterLast => {
                    &&& length as usize <= MAX_POINTS
                    &&& forall|j: int| 0 <= j < length ==> times@[j] <= t
                },
            }
        }),
{
    #[verifier::truncate]
    let elapsed = elapsed_secs as u32;
    assert(elapsed == curve_seconds(elapsed_secs)) by (bit_vector)
        requires
            elapsed == elapsed_secs as u32,
    ;
    let n = length as usize;
    let mut i: usize = 0;
    while i < n
        invariant
            n == length as usize,
            n <= MAX_POINTS || exists|k: int| 0 <= k < MAX_POINTS && elapsed < #[trigger] times@[k],
            i <= n,
            elapsed == curve_seconds(elapsed_secs),
            forall|j: int| 0 <= j < i ==> times@[j] <= elapsed,
        decreases n - i,
    {
        assert(i < MAX_POINTS) by {
            if n > MAX_POINTS {
                let k = choose|k: int| 0 <= k < MAX_POINTS && elapsed < #[trigger] times@[k];
                assert(k >= i);
            }
        }
        let time = times[i];
        if elapsed < time {
            if i == 0 {
                return CurvePosition::BeforeFirst;
            }
            let prev_time = times[i - 1];
            return CurvePosition::Between {
                index: i,
                since_prev: elapsed - prev_time,
                span: time - prev_time,
            };
        }
        i = i + 1;
    }
    CurvePosition::AfterLast
}

} // verus!
