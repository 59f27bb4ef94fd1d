use vstd::prelude::*;

use crate::frame::{Frame, FrameView};

verus! {

/// Per-channel byte-difference threshold of the shipped watcher: a channel
/// pair counts as different only when its absolute difference exceeds this.
pub const CHANNEL_THRESHOLD: u8 = 64;

/// Aggregate mismatch-count threshold of the shipped watcher: a comparison
/// pass reports motion once strictly more than this many mismatches are seen.
pub const AGGREGATE_THRESHOLD: u32 = 2000;

/// The two fixed comparison thresholds, passed to the detector and the
/// control loop at construction time.
#[derive(Clone, Copy, Debug, PartialEq, Eq, Structural)]
pub struct Config {
    pub channel_threshold: u8,
    pub aggregate_threshold: u32,
}

impl Config {
    /// The running mismatch counter must be able to exceed the aggregate
    /// threshold without leaving `u32`.
    pub open spec fn wf(self) -> bool {
        self.aggregate_threshold < u32::MAX
    }

    /// The configuration the shipped watcher runs with.
    pub fn standard() -> (r: Config)
        ensures
            r == (Config {
                channel_threshold: CHANNEL_THRESHOLD,
                aggregate_threshold: AGGREGATE_THRESHOLD,
            }),
            r.wf(),
    {
        Config { channel_threshold: CHANNEL_THRESHOLD, aggregate_threshold: AGGREGATE_THRESHOLD }
    }
}

/// Outcome of one comparison pass: whether motion was reported, and the
/// mismatch count at the moment the pass ended.
#[derive(Clone, Copy, Debug, PartialEq, Eq, Structural)]
pub struct DetectionResult {
    pub detected: bool,
    pub diff_count: u32,
}

/// Absolute difference of two channel bytes.
pub open spec fn abs_diff(a: u8, b: u8) -> int {
    if a >= b {
        a - b
    } else {
        b - a
    }
}

/// A channel pair is a mismatch when its absolute difference strictly
/// exceeds the per-channel threshold.
pub open spec fn is_mismatch(prev: u8, cur: u8, threshold: u8) -> bool {
    abs_diff(prev, cur) > threshold
}

/// Number of channel mismatches among the first `n` channel pairs of the
/// two buffers, scanned in raster order.
pub open spec fn mismatches_up_to(prev: Seq<u8>, cur: Seq<u8>, threshold: u8, n: int) -> nat
    decreases n,
{
    if n <= 0 {
        0
    } else {
        mismatches_up_to(prev, cur, threshold, n - 1) + (if is_mismatch(
            prev[n - 1],
            cur[n - 1],
            threshold,
        ) {
            1nat
        } else {
            0nat
        })
    }
}

/// Mismatch count over two whole frames.
pub open spec fn total_mismatches(prev: FrameView, cur: FrameView, threshold: u8) -> nat {
    mismatches_up_to(prev.data, cur.data, threshold, prev.data.len() as int)
}

/// A frame pair shows motion when its total mismatch count strictly exceeds
/// the aggregate threshold.
pub open spec fn motion_detected(prev: FrameView, cur: FrameView, config: Config) -> bool {
    total_mismatches(prev, cur, config.channel_threshold) > config.aggregate_threshold
}

/// The running mismatch count never decreases as the scan takes in more
/// channel pairs.
pub proof fn lemma_mismatches_monotonic(
    prev: Seq<u8>,
    cur: Seq<u8>,
    threshold: u8,
    m: int,
    n: int,
)
    requires
        m <= n,
    ensures
        mismatches_up_to(prev, cur, threshold, m) <= mismatches_up_to(prev, cur, threshold, n),
    decreases n - m,
{
    if m < n {
        lemma_mismatches_monotonic(prev, cur, threshold, m, n - 1);
    }
}

/// One more channel pair raises the running count by at most one.
pub proof fn lemma_mismatches_step(prev: Seq<u8>, cur: Seq<u8>, threshold: u8, n: int)
    requires
        0 <= n,
    ensures
        mismatches_up_to(prev, cur, threshold, n) <= mismatches_up_to(prev, cur, threshold, n + 1)
            <= mismatches_up_to(prev, cur, threshold, n) + 1,
{
}

/// When two buffers agree on every channel pair of a prefix, that prefix
/// contributes no mismatches: a completely static scene scores zero.
pub proof fn lemma_identical_prefix_no_mismatches(
    prev: Seq<u8>,
    cur: Seq<u8>,
    threshold: u8,
    n: int,
)
    requires
        forall|i: int| 0 <= i < n ==> prev[i] == cur[i],
    ensures
        mismatches_up_to(prev, cur, threshold, n) == 0,
    decreases n,
{
    if n > 0 {
        lemma_identical_prefix_no_mismatches(prev, cur, threshold, n - 1);
    }
}

/// The per-channel comparison is strictly greater-than: a prefix whose every
/// channel pair differs by exactly the threshold contributes no mismatches.
pub proof fn lemma_at_threshold_no_mismatches(prev: Seq<u8>, cur: Seq<u8>, threshold: u8, n: int)
    requires
        forall|i: int| 0 <= i < n ==> abs_diff(prev[i], cur[i]) == threshold,
    ensures
        mismatches_up_to(prev, cur, threshold, n) == 0,
    decreases n,
{
    if n > 0 {
        lemma_at_threshold_no_mismatches(prev, cur, threshold, n - 1);
    }
}

/// When every channel pair of a prefix differs by one more than the
/// threshold, every pair of that prefix counts: the running count equals the
/// number of pairs scanned.
pub proof fn lemma_above_threshold_all_mismatch(prev: Seq<u8>, cur: Seq<u8>, threshold: u8, n: int)
    requires
        0 <= n,
        forall|i: int| 0 <= i < n ==> abs_diff(prev[i], cur[i]) == threshold + 1,
    ensures
        mismatches_up_to(prev, cur, threshold, n) == n,
    decreases n,
{
    if n > 0 {
        lemma_above_threshold_all_mismatch(prev, cur, threshold, n - 1);
    }
}

/// A scan whose total exceeds the aggregate threshold has a first trigger
/// point: a prefix where the running count reaches exactly one past the
/// threshold, every shorter prefix staying at or below it. The scan stops
/// there, never taking in further channel pairs.
pub proof fn lemma_first_trigger_point(
    prev: Seq<u8>,
    cur: Seq<u8>,
    threshold: u8,
    aggregate: u32,
    len: int,
)
    requires
        0 <= len,
        mismatches_up_to(prev, cur, threshold, len) > aggregate,
    ensures
        exists|n: int|
            1 <= n <= len && mismatches_up_to(prev, cur, threshold, n) == aggregate + 1 && (forall|
                m: int,
            |
                0 <= m < n ==> mismatches_up_to(prev, cur, threshold, m) <= aggregate),
    decreases len,
{
    if mismatches_up_to(prev, cur, threshold, len - 1) > aggregate {
        lemma_first_trigger_point(prev, cur, threshold, aggregate, len - 1);
        let n = choose|n: int|
            1 <= n <= len - 1 && mismatches_up_to(prev, cur, threshold, n) == aggregate + 1 && (
            forall|m: int| 0 <= m < n ==> mismatches_up_to(prev, cur, threshold, m) <= aggregate);
        assert(1 <= n <= len && mismatches_up_to(prev, cur, threshold, n) == aggregate + 1 && (
        forall|m: int| 0 <= m < n ==> mismatches_up_to(prev, cur, threshold, m) <= aggregate));
    } else {
        lemma_mismatches_step(prev, cur, threshold, len - 1);
        assert forall|m: int| 0 <= m < len implies mismatches_up_to(prev, cur, threshold, m)
            <= aggregate by {
            lemma_mismatches_monotonic(prev, cur, threshold, m, len - 1);
        }
        assert(1 <= len && mismatches_up_to(prev, cur, threshold, len) == aggregate + 1 && (forall|
            m: int,
        |
            0 <= m < len ==> mismatches_up_to(prev, cur, threshold, m) <= aggregate));
    }
}

/// A completely static scene: a frame pair that agrees on every channel
/// value scores a diff count of zero and reports no motion.
pub proof fn lemma_static_scene_no_motion(prev: FrameView, cur: FrameView, config: Config)
    requires
        prev.wf(),
        cur.wf(),
        prev.same_dims(cur),
        forall|i: int| 0 <= i < prev.data.len() ==> prev.channel(i) == cur.channel(i),
    ensures
        total_mismatches(prev, cur, config.channel_threshold) == 0,
        !motion_detected(prev, cur, config),
{
    assert forall|i: int| 0 <= i < prev.data.len() implies prev.data[i] == cur.data[i] by {
        assert(prev.channel(i) == cur.channel(i));
    }
    lemma_identical_prefix_no_mismatches(
        prev.data,
        cur.data,
        config.channel_threshold,
        prev.data.len() as int,
    );
}

/// The per-channel comparison is strictly greater-than: a frame pair whose
/// every channel pair differs by exactly the threshold — not more — scores
/// zero and reports no motion.
pub proof fn lemma_at_threshold_no_motion(prev: FrameView, cur: FrameView, config: Config)
    requires
        prev.wf(),
        cur.wf(),
        prev.same_dims(cur),
        forall|i: int|
            0 <= i < prev.data.len() ==> abs_diff(prev.channel(i), cur.channel(i))
                == config.channel_threshold,
    ensures
        total_mismatches(prev, cur, config.channel_threshold) == 0,
        !motion_detected(prev, cur, config),
{
    assert forall|i: int| 0 <= i < prev.data.len() implies abs_diff(prev.data[i], cur.data[i])
        == config.channel_threshold by {
        assert(abs_diff(prev.channel(i), cur.channel(i)) == config.channel_threshold);
    }
    lemma_at_threshold_no_mismatches(
        prev.data,
        cur.data,
        config.channel_threshold,
        prev.data.len() as int,
    );
}

/// When every channel pair differs by one more than the threshold, every
/// one of the frame pair's `width * height * 3` channel comparisons
/// contributes a mismatch, and motion is reported exactly when that many
/// comparisons exceed the aggregate threshold.
pub proof fn lemma_uniform_change_counts_every_channel(
    prev: FrameView,
    cur: FrameView,
    config: Config,
)
    requires
        prev.wf(),
        cur.wf(),
        prev.same_dims(cur),
        forall|i: int|
            0 <= i < prev.data.len() ==> abs_diff(prev.channel(i), cur.channel(i))
                == config.channel_threshold + 1,
    ensures
        total_mismatches(prev, cur, config.channel_threshold) == prev.width * prev.height * 3,
        motion_detected(prev, cur, config) <==> prev.width * prev.height * 3
            > config.aggregate_threshold,
{
    assert forall|i: int| 0 <= i < prev.data.len() implies abs_diff(prev.data[i], cur.data[i])
        == config.channel_threshold + 1 by {
        assert(abs_diff(prev.channel(i), cur.channel(i)) == config.channel_threshold + 1);
    }
    lemma_above_threshold_all_mismatch(
        prev.data,
        cur.data,
        config.channel_threshold,
        prev.data.len() as int,
    );
}

/// Absolute difference of two channel bytes.
fn abs_diff_exec(a: u8, b: u8) -> (r: u8)
    ensures
        r == abs_diff(a, b),
{
    if a >= b {
        a - b
    } else {
        b - a
    }
}

/// Compare two frames of equal dimensions channel pair by channel pair in
/// raster order, counting mismatches into one running counter shared across
/// the whole pass, and stop the instant the counter exceeds the aggregate
/// threshold.
///
/// Motion is reported exactly when the frame pair's total mismatch count
/// would exceed the aggregate threshold; in that case the scan stopped at
/// the first trigger point, so the reported count is exactly one past the
/// threshold. When no motion is reported, the count is the total over the
/// whole frame pair.
pub fn detect(
    previous: &Frame,
    current: &Frame,
    channel_threshold: u8,
    aggregate_threshold: u32,
) -> (r: DetectionResult)
    requires
        previous@.wf(),
        current@.wf(),
        previous@.same_dims(current@),
        aggregate_threshold < u32::MAX,
    ensures
        r.detected == motion_detected(
            previous@,
            current@,
            Config { channel_threshold, aggregate_threshold },
        ),
        r.detected ==> r.diff_count == aggregate_threshold + 1,
        !r.detected ==> r.diff_count == total_mismatches(previous@, current@, channel_threshold),
{
    let ghost p = previous@.data;
    let ghost c = current@.data;
    let len = previous.data.len();
    let mut diff: u32 = 0;
    let mut i: usize = 0;
    while i < len
        invariant
            len == p.len() == c.len(),
            previous@.data == p,
            current@.data == c,
            0 <= i <= len,
            diff == mismatches_up_to(p, c, channel_threshold, i as int),
            diff <= aggregate_threshold,
            aggregate_threshold < u32::MAX,
        decreases len - i,
    {
        let a = previous.data[i];
        let b = current.data[i];
        if abs_diff_exec(a, b) > channel_threshold {
            diff = diff + 1;
            if diff > aggregate_threshold {
                proof {
                    lemma_mismatches_monotonic(p, c, channel_threshold, i + 1, len as int);
                }
                return DetectionResult { detected: true, diff_count: diff };
            }
        }
        i = i + 1;
    }
    DetectionResult { detected: false, diff_count: diff }
}

} // verus!
