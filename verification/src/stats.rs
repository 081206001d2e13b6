//! Frame timing.
//!
//! Points in time are readings of a monotonic clock, in nanoseconds. All of the
//! arithmetic here is exact; only a caller that shows the numbers rounds them.

use vstd::prelude::*;
use vstd::string::StringExecFns;

use crate::wide::Wide;

verus! {

/// How long frames are collected before they are reported: five seconds.
pub const REPORT_PERIOD_NS: u64 = 5_000_000_000;

/// The fewest intervals that a report is made of.
pub const REPORT_MIN_INTERVALS: usize = 2;

/// The time from `earlier` to `later`, or zero where the clock did not advance.
pub open spec fn elapsed(earlier: u64, later: u64) -> u64 {
    if later >= earlier {
        (later - earlier) as u64
    } else {
        0
    }
}

/// The sum of a sequence of intervals.
pub open spec fn total(intervals: Seq<u64>) -> nat
    decreases intervals.len(),
{
    if intervals.len() == 0 {
        0
    } else {
        total(intervals.drop_last()) + intervals.last() as nat
    }
}

/// The sum of the squares of a sequence of intervals.
pub open spec fn total_squares(intervals: Seq<u64>) -> nat
    decreases intervals.len(),
{
    if intervals.len() == 0 {
        0
    } else {
        total_squares(intervals.drop_last()) + (intervals.last() * intervals.last()) as nat
    }
}

/// The sum, over the intervals, of the square of `scale` times the interval
/// less `centre`.
pub open spec fn squared_deviations(intervals: Seq<u64>, scale: int, centre: int) -> int
    decreases intervals.len(),
{
    if intervals.len() == 0 {
        0
    } else {
        let deviation = scale * intervals.last() - centre;
        squared_deviations(intervals.drop_last(), scale, centre) + deviation * deviation
    }
}

/// How far the intervals stray from their average.
///
/// With `n` intervals this is the sum of the squares of their distances to the
/// average, times `n * n`. It is free of division and so a whole number: the
/// variance of the intervals is the spread divided by `n * n * n`.
pub open spec fn spread(intervals: Seq<u64>) -> int {
    squared_deviations(intervals, intervals.len() as int, total(intervals) as int)
}

/// What a report says of a sequence of intervals.
#[derive(Debug, Clone, Copy, PartialEq, Eq, Structural)]
pub struct FrameReport {
    /// The number of intervals.
    pub count: usize,
    /// Their sum.
    pub total_ns: u128,
    /// The shortest of them.
    pub min_ns: u64,
    /// The longest of them.
    pub max_ns: u64,
    /// Their spread, divided by `count`. The variance is this divided by
    /// `count * count`.
    pub scatter: Wide,
}

impl FrameReport {
    /// Whether this is the report on `intervals`.
    pub open spec fn describes(self, intervals: Seq<u64>) -> bool {
        &&& self.count == intervals.len()
        &&& self.total_ns == total(intervals)
        &&& intervals.contains(self.min_ns)
        &&& intervals.contains(self.max_ns)
        &&& forall|i: int|
            0 <= i < intervals.len() ==> self.min_ns <= #[trigger] intervals[i] <= self.max_ns
        &&& self.count * self.scatter@ == spread(intervals)
    }
}

/// The report on `intervals`.
pub open spec fn report_on(intervals: Seq<u64>) -> FrameReport {
    choose|report: FrameReport| report.describes(intervals)
}

/// The intervals between the frames that were drawn since the last report.
#[derive(Debug)]
pub struct FrameStats {
    /// The intervals, in the order in which they were measured.
    pub intervals_ns: Vec<u64>,
    /// When the last frame was drawn.
    pub last_frame: Option<u64>,
    /// When the last report was made.
    pub last_report: u64,
}

/// What a `FrameStats` holds.
pub struct FrameStatsView {
    pub intervals: Seq<u64>,
    pub last_frame: Option<u64>,
    pub last_report: u64,
}

impl View for FrameStats {
    type V = FrameStatsView;

    open spec fn view(&self) -> FrameStatsView {
        FrameStatsView {
            intervals: self.intervals_ns@,
            last_frame: self.last_frame,
            last_report: self.last_report,
        }
    }
}

impl FrameStatsView {
    /// Nothing measured, and the first period starting at `now`.
    pub open spec fn fresh(now: u64) -> FrameStatsView {
        FrameStatsView { intervals: Seq::empty(), last_frame: None, last_report: now }
    }

    /// A frame was drawn at `now`.
    pub open spec fn record(self, now: u64) -> FrameStatsView {
        FrameStatsView {
            intervals: match self.last_frame {
                Some(previous) => self.intervals.push(elapsed(previous, now)),
                None => self.intervals,
            },
            last_frame: Some(now),
            last_report: self.last_report,
        }
    }

    /// Frames drawn at each of `times`, one after the other.
    pub open spec fn record_all(self, times: Seq<u64>) -> FrameStatsView
        decreases times.len(),
    {
        if times.len() == 0 {
            self
        } else {
            self.record_all(times.drop_last()).record(times.last())
        }
    }

    /// Whether a report is due at `now`.
    pub open spec fn should_report(self, now: u64) -> bool {
        elapsed(self.last_report, now) >= REPORT_PERIOD_NS && self.intervals.len()
            >= REPORT_MIN_INTERVALS
    }

    /// A report was made at `now`: the next period begins.
    pub open spec fn reported(self, now: u64) -> FrameStatsView {
        FrameStatsView { intervals: Seq::empty(), last_report: now, ..self }
    }
}

/// The numbers of a line that reports on the playback, each as text.
#[derive(Debug)]
pub struct StatsFields {
    /// The frame rate of the video.
    pub fps: String,
    /// The number of frames that were shown late.
    pub delayed: String,
    /// The number of frames that were dropped when they were to be shown.
    pub vo_drops: String,
    /// The number of frames that were dropped when they were to be decoded.
    pub dec_drops: String,
    /// The number of refreshes of the display to one frame.
    pub vsync_ratio: String,
    /// The average interval, in milliseconds.
    pub avg: String,
    /// The shortest interval, in milliseconds.
    pub min: String,
    /// The longest interval, in milliseconds.
    pub max: String,
    /// The standard deviation of the intervals, in milliseconds.
    pub jitter: String,
}

impl StatsFields {
    /// The line that `write` writes.
    pub open spec fn line(self) -> Seq<char> {
        "[stats] fps="@ + self.fps@ + " delayed="@ + self.delayed@ + " vo_drops="@ + self.vo_drops@
            + " dec_drops="@ + self.dec_drops@ + " vsync_ratio="@ + self.vsync_ratio@
            + " | interval avg="@ + self.avg@ + "ms min="@ + self.min@ + "ms max="@ + self.max@
            + "ms jitter="@ + self.jitter@ + "ms"@
    }

    /// Writes the line.
    pub fn write(&self) -> (line: String)
        ensures
            line@ == self.line(),
    {
        let mut line = "[stats] fps=".to_owned();
        line.append(self.fps.as_str());
        line.append(" delayed=");
        line.append(self.delayed.as_str());
        line.append(" vo_drops=");
        line.append(self.vo_drops.as_str());
        line.append(" dec_drops=");
        line.append(self.dec_drops.as_str());
        line.append(" vsync_ratio=");
        line.append(self.vsync_ratio.as_str());
        line.append(" | interval avg=");
        line.append(self.avg.as_str());
        line.append("ms min=");
        line.append(self.min.as_str());
        line.append("ms max=");
        line.append(self.max.as_str());
        line.append("ms jitter=");
        line.append(self.jitter.as_str());
        line.append("ms");
        line
    }
}

/// A counter of the player, or -1 where the player does not give it.
pub fn counter_or_unknown(counter: Option<i64>) -> (shown: i64)
    ensures
        counter matches Some(given) ==> shown == given,
        counter is None ==> shown == -1,
{
    match counter {
        Some(given) => given,
        None => -1,
    }
}

/// The time from `earlier` to `later`, or zero where the clock did not advance.
fn elapsed_between(earlier: u64, later: u64) -> (ns: u64)
    ensures
        ns == elapsed(earlier, later),
{
    if later >= earlier {
        later - earlier
    } else {
        0
    }
}

impl FrameStats {
    /// No frame drawn yet; the first period starts at `now`.
    pub fn new(now: u64) -> (stats: FrameStats)
        ensures
            stats@ == FrameStatsView::fresh(now),
    {
        FrameStats { intervals_ns: Vec::with_capacity(2048), last_frame: None, last_report: now }
    }

    /// Notes that a frame was drawn at `now`. From the second frame on, this adds
    /// the interval since the frame before.
    pub fn record(&mut self, now: u64)
        ensures
            final(self)@ == old(self)@.record(now),
    {
        if let Some(previous) = self.last_frame {
            self.intervals_ns.push(elapsed_between(previous, now));
        }
        self.last_frame = Some(now);
    }

    /// Whether enough time has passed since the last report, and enough frames
    /// were drawn in it.
    pub fn should_report(&self, now: u64) -> (due: bool)
        ensures
            due == self@.should_report(now),
    {
        elapsed_between(self.last_report, now) >= REPORT_PERIOD_NS && self.intervals_ns.len()
            >= REPORT_MIN_INTERVALS
    }

    /// Reports on the intervals collected so far and starts the next period at
    /// `now`. The time of the last frame is kept, so that the next frame still
    /// has an interval.
    pub fn take_stats(&mut self, now: u64) -> (report: FrameReport)
        requires
            old(self)@.intervals.len() > 0,
        ensures
            report.describes(old(self)@.intervals),
            report == report_on(old(self)@.intervals),
            final(self)@ == old(self)@.reported(now),
    {
        let report = summarize(&self.intervals_ns);
        proof {
            reports_are_unique(self.intervals_ns@, report, report_on(self.intervals_ns@));
        }
        self.intervals_ns.clear();
        self.last_report = now;
        report
    }
}

/// Reports on a sequence of intervals that is not empty.
pub fn summarize(intervals: &Vec<u64>) -> (report: FrameReport)
    requires
        intervals@.len() > 0,
    ensures
        report.describes(intervals@),
{
    let count: usize = intervals.len();
    let mut total_ns: u128 = 0;
    let mut min_ns: u64 = intervals[0];
    let mut max_ns: u64 = intervals[0];
    let mut i: usize = 0;
    while i < count
        invariant
            i <= count == intervals@.len(),
            count > 0,
            total_ns == total(intervals@.take(i as int)),
            total_ns <= i * u64::MAX,
            intervals@.contains(min_ns),
            intervals@.contains(max_ns),
            forall|j: int| 0 <= j < i ==> min_ns <= #[trigger] intervals@[j] <= max_ns,
        decreases count - i,
    {
        let interval: u64 = intervals[i];
        assert(intervals@.take(i + 1).drop_last() == intervals@.take(i as int));
        assert(i * u64::MAX + u64::MAX == (i + 1) * u64::MAX) by (nonlinear_arith);
        assert((i + 1) * u64::MAX <= u128::MAX) by (nonlinear_arith)
            requires
                i < usize::MAX,
        ;
        total_ns = total_ns + interval as u128;
        if interval < min_ns {
            min_ns = interval;
        }
        if interval > max_ns {
            max_ns = interval;
        }
        i = i + 1;
    }
    assert(intervals@.take(count as int) == intervals@);
    let scatter = measure_scatter(intervals, total_ns);
    FrameReport { count, total_ns, min_ns, max_ns, scatter }
}

/// The scatter of the intervals, whose sum is `total_ns`.
///
/// With `n` intervals it is the sum, over the intervals, of the interval times its
/// distance to the average, times `n`. Intervals above the average add to it, and
/// those below take from it.
fn measure_scatter(intervals: &Vec<u64>, total_ns: u128) -> (scatter: Wide)
    requires
        total_ns == total(intervals@),
    ensures
        intervals@.len() * scatter@ == spread(intervals@),
{
    let count: usize = intervals.len();
    let ghost n = count as int;
    let ghost centre = total_ns as int;
    let mut above = Wide::new(0);
    let mut below = Wide::new(0);
    let mut i: usize = 0;
    assert(n * 0 - centre * 0 == 0) by (nonlinear_arith);
    while i < count
        invariant
            i <= count == intervals@.len(),
            n == count,
            centre == total_ns == total(intervals@),
            above@ - below@ == n * total_squares(intervals@.take(i as int)) - centre * total(
                intervals@.take(i as int),
            ),
            above@ <= n * total_squares(intervals@.take(i as int)),
            below@ <= centre * total(intervals@.take(i as int)),
        decreases count - i,
    {
        let interval: u64 = intervals[i];
        let ghost x = interval as int;
        let ghost squares = total_squares(intervals@.take(i as int)) as int;
        let ghost sum = total(intervals@.take(i as int)) as int;
        assert(count * interval <= u128::MAX) by (nonlinear_arith)
            requires
                count <= usize::MAX,
                interval <= u64::MAX,
        ;
        let scaled: u128 = count as u128 * interval as u128;
        proof {
            assert(intervals@.take(i + 1).drop_last() == intervals@.take(i as int));
            lemma_squares_fit(intervals@.take(i + 1), n);
            lemma_total_grows(intervals@, i + 1);
            assert(centre * (sum + x) <= centre * centre) by (nonlinear_arith)
                requires
                    0 <= sum + x <= centre,
            ;
            assert(centre * centre < crate::wide::weight() * crate::wide::weight())
                by (nonlinear_arith)
                requires
                    0 <= centre < crate::wide::weight(),
            ;
            assert(n * (squares + x * x) == n * squares + (n * x) * x) by (nonlinear_arith);
            assert(centre * (sum + x) == centre * sum + centre * x) by (nonlinear_arith);
            assert((n * x - centre) * x == (n * x) * x - centre * x) by (nonlinear_arith);
            assert((centre - n * x) * x == centre * x - (n * x) * x) by (nonlinear_arith);
            assert(0 <= centre * x) by (nonlinear_arith)
                requires
                    0 <= centre,
                    0 <= x,
            ;
            assert(0 <= (n * x) * x) by (nonlinear_arith)
                requires
                    0 <= n,
                    0 <= x,
            ;
        }
        if scaled >= total_ns {
            above = above.plus(Wide::product(scaled - total_ns, interval));
        } else {
            below = below.plus(Wide::product(total_ns - scaled, interval));
        }
        i = i + 1;
    }
    assert(intervals@.take(n) == intervals@);
    proof {
        spread_is_the_scaled_variance(intervals@);
        lemma_scatter_is_not_negative(intervals@);
    }
    above.minus(below)
}

/// The sum of the squares, times as many as there are intervals, fits a wide number.
proof fn lemma_squares_fit(intervals: Seq<u64>, scale: int)
    requires
        intervals.len() <= scale <= usize::MAX,
    ensures
        0 <= scale * total_squares(intervals) < crate::wide::weight() * crate::wide::weight(),
{
    lemma_squares_bound(intervals);
    let squares = total_squares(intervals) as int;
    let len = intervals.len() as int;
    let most = u64::MAX as int;
    assert(len * (most * most) <= most * (most * most)) by (nonlinear_arith)
        requires
            0 <= len <= most,
            most >= 0,
    ;
    assert(0 <= scale * squares <= most * (most * (most * most))) by (nonlinear_arith)
        requires
            0 <= scale <= most,
            0 <= squares <= most * (most * most),
    ;
}

proof fn lemma_squares_bound(intervals: Seq<u64>)
    ensures
        total_squares(intervals) <= intervals.len() * (u64::MAX * u64::MAX),
    decreases intervals.len(),
{
    if intervals.len() > 0 {
        lemma_squares_bound(intervals.drop_last());
        let x = intervals.last() as int;
        assert(x * x <= u64::MAX * u64::MAX) by (nonlinear_arith)
            requires
                0 <= x <= u64::MAX,
        ;
        let len = intervals.len() as int;
        assert((len - 1) * (u64::MAX * u64::MAX) + u64::MAX * u64::MAX == len * (u64::MAX
            * u64::MAX)) by (nonlinear_arith);
    }
}

/// The sum of the first intervals is part of the sum of all.
proof fn lemma_total_grows(intervals: Seq<u64>, to: int)
    requires
        0 <= to <= intervals.len(),
    ensures
        total(intervals.take(to)) <= total(intervals),
    decreases intervals.len() - to,
{
    if to < intervals.len() {
        lemma_total_grows(intervals, to + 1);
        assert(intervals.take(to + 1).drop_last() == intervals.take(to));
    } else {
        assert(intervals.take(to) == intervals);
    }
}

/// The square of the sum is at most the sum of the squares, times the number of the
/// intervals.
proof fn lemma_scatter_is_not_negative(intervals: Seq<u64>)
    ensures
        0 <= intervals.len() * total_squares(intervals) - total(intervals) * total(intervals),
{
    let n = intervals.len() as int;
    let inner = n * total_squares(intervals) - total(intervals) * total(intervals);
    spread_is_the_scaled_variance(intervals);
    lemma_deviations_grow(intervals, n, n, n, total(intervals) as int);
    assert(intervals.take(n) == intervals);
    if n > 0 {
        assert(inner >= 0) by (nonlinear_arith)
            requires
                n * inner >= 0,
                n > 0,
        ;
    }
}

/// Each interval can only add to the squared deviations.
proof fn lemma_deviations_grow(intervals: Seq<u64>, from: int, to: int, scale: int, centre: int)
    requires
        0 <= from <= to <= intervals.len(),
    ensures
        0 <= squared_deviations(intervals.take(from), scale, centre) <= squared_deviations(
            intervals.take(to),
            scale,
            centre,
        ),
    decreases to,
{
    if to == 0 {
    } else if from == to {
        lemma_deviations_grow(intervals, from - 1, to - 1, scale, centre);
        assert(intervals.take(to).drop_last() == intervals.take(to - 1));
        let deviation = scale * intervals[to - 1] - centre;
        assert(deviation * deviation >= 0) by (nonlinear_arith);
    } else {
        lemma_deviations_grow(intervals, from, to - 1, scale, centre);
        assert(intervals.take(to).drop_last() == intervals.take(to - 1));
        let deviation = scale * intervals[to - 1] - centre;
        assert(deviation * deviation >= 0) by (nonlinear_arith);
    }
}

/// There is only one report on a sequence of intervals.
pub proof fn reports_are_unique(intervals: Seq<u64>, first: FrameReport, second: FrameReport)
    requires
        first.describes(intervals),
        second.describes(intervals),
    ensures
        first == second,
{
    let a = choose|i: int| 0 <= i < intervals.len() && intervals[i] == first.min_ns;
    let b = choose|i: int| 0 <= i < intervals.len() && intervals[i] == second.min_ns;
    let c = choose|i: int| 0 <= i < intervals.len() && intervals[i] == first.max_ns;
    let d = choose|i: int| 0 <= i < intervals.len() && intervals[i] == second.max_ns;
    assert(second.min_ns <= intervals[a] && first.min_ns <= intervals[b]);
    assert(intervals[c] <= second.max_ns && intervals[d] <= first.max_ns);
    let (n, x, y) = (intervals.len() as int, first.scatter@ as int, second.scatter@ as int);
    assert(x == y) by (nonlinear_arith)
        requires
            n * x == n * y,
            n > 0,
    ;
    crate::wide::wide_numbers_are_unique(first.scatter, second.scatter);
}

/// Every sequence of intervals that can be held has its report.
pub proof fn every_sequence_has_its_report(intervals: Seq<u64>)
    requires
        0 < intervals.len() <= usize::MAX,
    ensures
        report_on(intervals).describes(intervals),
{
    let n = intervals.len() as int;
    let (low, high) = lemma_extremes(intervals);
    lemma_total_bounds(intervals, low, high);
    assert(n * high <= u128::MAX) by (nonlinear_arith)
        requires
            0 <= n <= usize::MAX,
            high <= u64::MAX,
    ;
    spread_is_the_scaled_variance(intervals);
    lemma_scatter_is_not_negative(intervals);
    lemma_squares_fit(intervals, n);
    let sum = total(intervals) as int;
    assert(sum * sum >= 0) by (nonlinear_arith);
    let scatter = crate::wide::numbers_that_fit_are_wide(
        (n * total_squares(intervals) - sum * sum) as nat,
    );
    let report = FrameReport {
        count: n as usize,
        total_ns: total(intervals) as u128,
        min_ns: low,
        max_ns: high,
        scatter,
    };
    assert(report.describes(intervals));
}

/// A sequence that is not empty has a least and a greatest interval.
proof fn lemma_extremes(intervals: Seq<u64>) -> (extremes: (u64, u64))
    requires
        intervals.len() > 0,
    ensures
        intervals.contains(extremes.0),
        intervals.contains(extremes.1),
        forall|i: int|
            0 <= i < intervals.len() ==> extremes.0 <= #[trigger] intervals[i] <= extremes.1,
    decreases intervals.len(),
{
    let last = intervals.last();
    assert(intervals[intervals.len() - 1] == last);
    if intervals.len() == 1 {
        (last, last)
    } else {
        let rest = intervals.drop_last();
        let (low, high) = lemma_extremes(rest);
        let i = choose|i: int| 0 <= i < rest.len() && rest[i] == low;
        let j = choose|j: int| 0 <= j < rest.len() && rest[j] == high;
        assert(intervals[i] == low && intervals[j] == high);
        assert forall|k: int| 0 <= k < intervals.len() - 1 implies low <= #[trigger] intervals[k]
            <= high by {
            assert(rest[k] == intervals[k]);
        }
        (
            if last < low {
                last
            } else {
                low
            },
            if last > high {
                last
            } else {
                high
            },
        )
    }
}

/// The average lies between the shortest and the longest interval.
pub proof fn average_lies_between(intervals: Seq<u64>, report: FrameReport)
    requires
        report.describes(intervals),
    ensures
        report.count * report.min_ns <= report.total_ns <= report.count * report.max_ns,
{
    lemma_total_bounds(intervals, report.min_ns, report.max_ns);
}

/// The spread of intervals is zero exactly if they are all the same.
pub proof fn no_spread_means_all_equal(intervals: Seq<u64>)
    ensures
        spread(intervals) == 0 <==> forall|i: int, j: int|
            0 <= i < intervals.len() && 0 <= j < intervals.len() ==> intervals[i] == intervals[j],
{
    let n = intervals.len() as int;
    let centre = total(intervals) as int;
    assert(intervals.take(n) == intervals);
    if spread(intervals) == 0 {
        assert forall|i: int, j: int| 0 <= i < n && 0 <= j < n implies intervals[i]
            == intervals[j] by {
            lemma_deviation_is_zero(intervals, i, n, centre);
            lemma_deviation_is_zero(intervals, j, n, centre);
            let (a, b) = (intervals[i] as int, intervals[j] as int);
            assert(a == b) by (nonlinear_arith)
                requires
                    n * a == n * b,
                    n > 0,
            ;
        }
    }
    if forall|i: int, j: int| 0 <= i < n && 0 <= j < n ==> intervals[i] == intervals[j] {
        if n > 0 {
            lemma_total_bounds(intervals, intervals[0], intervals[0]);
            lemma_equal_intervals_stay_put(intervals, intervals[0], n, centre);
        }
    }
}

/// The spread is `n` times the sum of the squares, less the square of the sum,
/// all times `n`: dividing it by `n * n * n` gives the mean of the squares less
/// the square of the mean, which is the variance.
pub proof fn spread_is_the_scaled_variance(intervals: Seq<u64>)
    ensures
        spread(intervals) == intervals.len() * (intervals.len() * total_squares(intervals) - total(
            intervals,
        ) * total(intervals)),
{
    let n = intervals.len() as int;
    let sum = total(intervals) as int;
    let squares = total_squares(intervals) as int;
    lemma_expand_deviations(intervals, n, sum);
    assert(n * n * squares - 2 * n * sum * sum + n * sum * sum == n * (n * squares - sum * sum))
        by (nonlinear_arith);
}

/// A report gives the variance: its scatter is the number of the intervals times the
/// sum of their squares, less the square of their sum. It is zero exactly if the
/// intervals are all the same.
pub proof fn report_gives_the_variance(intervals: Seq<u64>, report: FrameReport)
    requires
        report.describes(intervals),
    ensures
        report.scatter@ == report.count * total_squares(intervals) - report.total_ns
            * report.total_ns,
        report.scatter@ == 0 <==> forall|i: int, j: int|
            0 <= i < intervals.len() && 0 <= j < intervals.len() ==> intervals[i] == intervals[j],
{
    let (n, x) = (intervals.len() as int, report.scatter@ as int);
    let inner = n * total_squares(intervals) - total(intervals) * total(intervals);
    spread_is_the_scaled_variance(intervals);
    no_spread_means_all_equal(intervals);
    assert(x == inner) by (nonlinear_arith)
        requires
            n * x == n * inner,
            n > 0,
    ;
    assert(x == 0 <==> n * x == 0) by (nonlinear_arith)
        requires
            n > 0,
    ;
}

/// The order of the intervals does not matter: with the same intervals in any
/// other order, all that is reported is the same.
pub proof fn the_order_of_intervals_does_not_matter(first: Seq<u64>, second: Seq<u64>)
    requires
        first.to_multiset() == second.to_multiset(),
    ensures
        total(first) == total(second),
        spread(first) == spread(second),
        forall|report: FrameReport| report.describes(first) <==> report.describes(second),
{
    first.to_multiset_ensures();
    second.to_multiset_ensures();
    lemma_total_of_rearranged(first, second);
    lemma_deviations_of_rearranged(first, second, first.len() as int, total(first) as int);
    assert forall|report: FrameReport| report.describes(first) implies report.describes(second) by {
        lemma_same_intervals_are_described(first, second, report);
    }
    assert forall|report: FrameReport| report.describes(second) implies report.describes(first) by {
        lemma_same_intervals_are_described(second, first, report);
    }
}

/// The standard deviation is at most half of the range: with `n` intervals, four
/// times the spread is at most `n * n * n` times the square of the range.
pub proof fn deviation_is_at_most_half_the_range(intervals: Seq<u64>, report: FrameReport)
    requires
        report.describes(intervals),
    ensures
        4 * spread(intervals) <= report.count * report.count * report.count * (report.max_ns
            - report.min_ns) * (report.max_ns - report.min_ns),
        4 * report.scatter@ <= report.count * report.count * (report.max_ns - report.min_ns) * (
        report.max_ns - report.min_ns),
{
    let n = intervals.len() as int;
    let sum = total(intervals) as int;
    let squares = total_squares(intervals) as int;
    let (low, high) = (report.min_ns as int, report.max_ns as int);
    let range = high - low;
    spread_is_the_scaled_variance(intervals);
    lemma_squares_below_chord(intervals, report.min_ns, report.max_ns);
    let above = n * high - sum;
    let below = sum - n * low;
    assert(n * squares - sum * sum <= above * below) by (nonlinear_arith)
        requires
            squares <= (low + high) * sum - n * low * high,
            n >= 0,
            above == n * high - sum,
            below == sum - n * low,
    ;
    assert(above + below == n * range) by (nonlinear_arith)
        requires
            above == n * high - sum,
            below == sum - n * low,
            range == high - low,
    ;
    assert(4 * (above * below) <= (above + below) * (above + below)) by (nonlinear_arith);
    let inner = n * squares - sum * sum;
    assert(4 * inner <= (n * range) * (n * range));
    assert(4 * (n * inner) <= n * n * n * range * range) by (nonlinear_arith)
        requires
            4 * inner <= (n * range) * (n * range),
            n >= 0,
    ;
    report_gives_the_variance(intervals, report);
    assert((n * range) * (n * range) == n * n * range * range) by (nonlinear_arith);
}

/// Frames at times that never go back yield one interval less than there are
/// frames, and the intervals add up to the time from the first to the last.
pub proof fn intervals_cover_the_time_between_frames(start: u64, times: Seq<u64>)
    requires
        times.len() > 0,
        forall|i: int, j: int| 0 <= i <= j < times.len() ==> times[i] <= times[j],
    ensures
        FrameStatsView::fresh(start).record_all(times).intervals.len() == times.len() - 1,
        total(FrameStatsView::fresh(start).record_all(times).intervals) == times.last()
            - times.first(),
        FrameStatsView::fresh(start).record_all(times).last_frame == Some(times.last()),
    decreases times.len(),
{
    let fresh = FrameStatsView::fresh(start);
    let before = fresh.record_all(times.drop_last());
    if times.len() > 1 {
        intervals_cover_the_time_between_frames(start, times.drop_last());
        let added = elapsed(times.drop_last().last(), times.last());
        assert(before.intervals.push(added).drop_last() == before.intervals);
    } else {
        assert(before == fresh);
    }
}

/// A report does not break the measurement: the first frame after it is measured
/// from the last frame before it.
pub proof fn reporting_keeps_the_next_interval(stats: FrameStatsView, reported: u64, now: u64)
    requires
        stats.last_frame is Some,
    ensures
        stats.reported(reported).record(now).intervals == seq![elapsed(stats.last_frame->0, now)],
{
}

/// A report is due at most once in each period, whatever is recorded meanwhile.
pub proof fn reports_are_a_period_apart(
    stats: FrameStatsView,
    reported: u64,
    times: Seq<u64>,
    now: u64,
)
    requires
        stats.reported(reported).record_all(times).should_report(now),
    ensures
        now >= reported + REPORT_PERIOD_NS,
    decreases times.len(),
{
    lemma_recording_keeps_the_period(stats.reported(reported), times);
}

/// An interval can be counted first or last.
proof fn lemma_total_without(intervals: Seq<u64>, i: int)
    requires
        0 <= i < intervals.len(),
    ensures
        total(intervals) == total(intervals.remove(i)) + intervals[i],
    decreases intervals.len(),
{
    let last = intervals.len() - 1;
    if i == last {
        assert(intervals.remove(i) == intervals.drop_last());
    } else {
        lemma_total_without(intervals.drop_last(), i);
        assert(intervals.remove(i).drop_last() == intervals.drop_last().remove(i));
        assert(intervals.remove(i).last() == intervals.last());
    }
}

/// A deviation can be counted first or last.
proof fn lemma_deviations_without(intervals: Seq<u64>, i: int, scale: int, centre: int)
    requires
        0 <= i < intervals.len(),
    ensures
        squared_deviations(intervals, scale, centre) == squared_deviations(
            intervals.remove(i),
            scale,
            centre,
        ) + (scale * intervals[i] - centre) * (scale * intervals[i] - centre),
    decreases intervals.len(),
{
    let last = intervals.len() - 1;
    if i == last {
        assert(intervals.remove(i) == intervals.drop_last());
    } else {
        lemma_deviations_without(intervals.drop_last(), i, scale, centre);
        assert(intervals.remove(i).drop_last() == intervals.drop_last().remove(i));
        assert(intervals.remove(i).last() == intervals.last());
    }
}

/// The last interval of one order stands somewhere in the other, and without it the
/// two hold the same again.
proof fn lemma_take_the_last_out(first: Seq<u64>, second: Seq<u64>) -> (at: int)
    requires
        first.to_multiset() == second.to_multiset(),
        first.len() > 0,
    ensures
        0 <= at < second.len(),
        second[at] == first.last(),
        first.drop_last().to_multiset() == second.remove(at).to_multiset(),
{
    first.to_multiset_ensures();
    second.to_multiset_ensures();
    let last = first.last();
    assert(first[first.len() - 1] == last);
    assert(first.to_multiset().count(last) > 0);
    assert(second.contains(last));
    let at = choose|i: int| 0 <= i < second.len() && second[i] == last;
    assert(first.remove(first.len() - 1) == first.drop_last());
    at
}

proof fn lemma_total_of_rearranged(first: Seq<u64>, second: Seq<u64>)
    requires
        first.to_multiset() == second.to_multiset(),
    ensures
        total(first) == total(second),
    decreases first.len(),
{
    first.to_multiset_ensures();
    second.to_multiset_ensures();
    if first.len() > 0 {
        let at = lemma_take_the_last_out(first, second);
        lemma_total_of_rearranged(first.drop_last(), second.remove(at));
        lemma_total_without(second, at);
    }
}

proof fn lemma_deviations_of_rearranged(
    first: Seq<u64>,
    second: Seq<u64>,
    scale: int,
    centre: int,
)
    requires
        first.to_multiset() == second.to_multiset(),
    ensures
        squared_deviations(first, scale, centre) == squared_deviations(second, scale, centre),
    decreases first.len(),
{
    first.to_multiset_ensures();
    second.to_multiset_ensures();
    if first.len() > 0 {
        let at = lemma_take_the_last_out(first, second);
        lemma_deviations_of_rearranged(first.drop_last(), second.remove(at), scale, centre);
        lemma_deviations_without(second, at, scale, centre);
    }
}

proof fn lemma_same_intervals_are_described(
    first: Seq<u64>,
    second: Seq<u64>,
    report: FrameReport,
)
    requires
        first.to_multiset() == second.to_multiset(),
        total(first) == total(second),
        spread(first) == spread(second),
        report.describes(first),
    ensures
        report.describes(second),
{
    first.to_multiset_ensures();
    second.to_multiset_ensures();
    assert(first.to_multiset().count(report.min_ns) > 0);
    assert(first.to_multiset().count(report.max_ns) > 0);
    assert forall|i: int| 0 <= i < second.len() implies report.min_ns <= #[trigger] second[i]
        <= report.max_ns by {
        assert(second.to_multiset().count(second[i]) > 0);
        assert(first.contains(second[i]));
    }
}

/// The square of a number between `low` and `high` lies below the chord of the
/// parabola between the two; this sums that up.
proof fn lemma_squares_below_chord(intervals: Seq<u64>, low: u64, high: u64)
    requires
        forall|i: int| 0 <= i < intervals.len() ==> low <= #[trigger] intervals[i] <= high,
    ensures
        total_squares(intervals) <= (low + high) * total(intervals) - intervals.len() * low * high,
    decreases intervals.len(),
{
    let (l, h) = (low as int, high as int);
    if intervals.len() > 0 {
        let rest = intervals.drop_last();
        lemma_squares_below_chord(rest, low, high);
        let x = intervals.last() as int;
        assert(intervals[intervals.len() - 1] == x);
        let (squares, sum, n) = (total_squares(rest) as int, total(rest) as int, rest.len() as int);
        assert(x * x <= (l + h) * x - l * h) by (nonlinear_arith)
            requires
                l <= x <= h,
        ;
        assert((l + h) * (sum + x) - (n + 1) * l * h == ((l + h) * sum - n * l * h) + ((l + h) * x
            - l * h)) by (nonlinear_arith);
    } else {
        assert((l + h) * 0 - 0 * l * h == 0) by (nonlinear_arith);
    }
}

proof fn lemma_recording_keeps_the_period(stats: FrameStatsView, times: Seq<u64>)
    ensures
        stats.record_all(times).last_report == stats.last_report,
    decreases times.len(),
{
    if times.len() > 0 {
        lemma_recording_keeps_the_period(stats, times.drop_last());
    }
}

proof fn lemma_total_bounds(intervals: Seq<u64>, low: u64, high: u64)
    requires
        forall|i: int| 0 <= i < intervals.len() ==> low <= #[trigger] intervals[i] <= high,
    ensures
        intervals.len() * low <= total(intervals) <= intervals.len() * high,
    decreases intervals.len(),
{
    if intervals.len() > 0 {
        let n = intervals.len() as int;
        lemma_total_bounds(intervals.drop_last(), low, high);
        assert((n - 1) * low + low == n * low) by (nonlinear_arith);
        assert((n - 1) * high + high == n * high) by (nonlinear_arith);
        assert(intervals.last() == intervals[n - 1]);
    } else {
        assert(0 * low == 0 && 0 * high == 0) by (nonlinear_arith);
    }
}

/// Where the squared deviations add up to nothing, each is nothing.
proof fn lemma_deviation_is_zero(intervals: Seq<u64>, i: int, scale: int, centre: int)
    requires
        0 <= i < intervals.len(),
        squared_deviations(intervals, scale, centre) == 0,
    ensures
        scale * intervals[i] == centre,
    decreases intervals.len(),
{
    let n = intervals.len() as int;
    let deviation = scale * intervals.last() - centre;
    assert(deviation * deviation >= 0) by (nonlinear_arith);
    assert(intervals.take(n) == intervals);
    assert(intervals.take(n - 1) == intervals.drop_last());
    lemma_deviations_grow(intervals, n - 1, n, scale, centre);
    assert(deviation * deviation == 0);
    if i == n - 1 {
        assert(deviation == 0) by (nonlinear_arith)
            requires
                deviation * deviation == 0,
        ;
    } else {
        lemma_deviation_is_zero(intervals.drop_last(), i, scale, centre);
    }
}

/// Intervals that all equal `each`, scaled to `centre`, do not deviate from it.
proof fn lemma_equal_intervals_stay_put(intervals: Seq<u64>, each: u64, scale: int, centre: int)
    requires
        forall|i: int| 0 <= i < intervals.len() ==> #[trigger] intervals[i] == each,
        scale * each == centre,
    ensures
        squared_deviations(intervals, scale, centre) == 0,
    decreases intervals.len(),
{
    if intervals.len() > 0 {
        assert(intervals.last() == intervals[intervals.len() - 1]);
        lemma_equal_intervals_stay_put(intervals.drop_last(), each, scale, centre);
    }
}

/// Multiplies the squares out.
proof fn lemma_expand_deviations(intervals: Seq<u64>, scale: int, centre: int)
    ensures
        squared_deviations(intervals, scale, centre) == scale * scale * total_squares(intervals)
            - 2 * scale * centre * total(intervals) + intervals.len() * centre * centre,
    decreases intervals.len(),
{
    if intervals.len() > 0 {
        let rest = intervals.drop_last();
        lemma_expand_deviations(rest, scale, centre);
        let x = intervals.last() as int;
        let squares = total_squares(rest) as int;
        let sum = total(rest) as int;
        let n = rest.len() as int;
        assert(scale * scale * squares - 2 * scale * centre * sum + n * centre * centre + (scale
            * x - centre) * (scale * x - centre) == scale * scale * (squares + x * x) - 2 * scale
            * centre * (sum + x) + (n + 1) * centre * centre) by (nonlinear_arith);
    } else {
        assert(scale * scale * 0 - 2 * scale * centre * 0 + 0 * centre * centre == 0)
            by (nonlinear_arith);
    }
}

/// The view of the timing shows each of its fields as it is.
pub proof fn the_view_shows_the_fields(stats: FrameStats)
    ensures
        stats@.intervals == stats.intervals_ns@,
        stats@.last_frame == stats.last_frame,
        stats@.last_report == stats.last_report,
{
}

/// The time between two readings of the clock is what has to be added to the earlier one
/// to get the later one; a clock that goes back measures nothing.
pub proof fn elapsed_time_leads_from_one_reading_to_the_other(earlier: u64, later: u64)
    ensures
        earlier <= later ==> earlier + elapsed(earlier, later) == later,
        later < earlier ==> elapsed(earlier, later) == 0,
{
}

/// Recording a frame adds the time since the frame before, behind all that was measured
/// already, and does not touch the period. The first frame only starts the measurement.
pub proof fn recording_adds_one_interval(stats: FrameStatsView, now: u64)
    ensures
        stats.record(now).last_frame == Some(now),
        stats.record(now).last_report == stats.last_report,
        stats.last_frame is None ==> stats.record(now).intervals == stats.intervals,
        stats.last_frame matches Some(last) ==> {
            &&& stats.record(now).intervals.len() == stats.intervals.len() + 1
            &&& stats.record(now).intervals.drop_last() == stats.intervals
            &&& last <= now ==> stats.record(now).intervals.last() == now - last
            &&& now < last ==> stats.record(now).intervals.last() == 0
        },
{
    if let Some(last) = stats.last_frame {
        let intervals = stats.record(now).intervals;
        assert(intervals.drop_last() == stats.intervals);
    }
}

/// Each interval is the time between two frames that follow each other.
pub proof fn intervals_lie_between_neighbouring_frames(start: u64, times: Seq<u64>, i: int)
    requires
        forall|i: int, j: int| 0 <= i <= j < times.len() ==> times[i] <= times[j],
        0 <= i < times.len() - 1,
    ensures
        FrameStatsView::fresh(start).record_all(times).intervals.len() == times.len() - 1,
        FrameStatsView::fresh(start).record_all(times).intervals[i] == times[i + 1] - times[i],
    decreases times.len(),
{
    intervals_cover_the_time_between_frames(start, times);
    let earlier = times.drop_last();
    intervals_cover_the_time_between_frames(start, earlier);
    if i < times.len() - 2 {
        intervals_lie_between_neighbouring_frames(start, earlier, i);
    }
}

/// A report is due exactly if five seconds have passed since the last one and there are
/// two intervals, however long ago it was and however many there are.
pub proof fn a_report_is_due_after_five_seconds(stats: FrameStatsView, now: u64)
    ensures
        stats.should_report(now) <==> now - stats.last_report >= 5_000_000_000
            && stats.intervals.len() >= 2,
{
}

/// A report comes: whenever three frames were drawn, or more, and five seconds have
/// passed since the measurement began.
pub proof fn a_report_comes_after_five_seconds(start: u64, times: Seq<u64>, now: u64)
    requires
        times.len() > 2,
        forall|i: int, j: int| 0 <= i <= j < times.len() ==> times[i] <= times[j],
        now >= start + REPORT_PERIOD_NS,
    ensures
        FrameStatsView::fresh(start).record_all(times).should_report(now),
{
    intervals_cover_the_time_between_frames(start, times);
    lemma_recording_keeps_the_period(FrameStatsView::fresh(start), times);
}

/// A report that is due stays due until it is made, whatever is recorded meanwhile.
pub proof fn a_due_report_stays_due(stats: FrameStatsView, now: u64, times: Seq<u64>, later: u64)
    requires
        stats.should_report(now),
        now <= later,
    ensures
        stats.record_all(times).should_report(later),
    decreases times.len(),
{
    lemma_recording_keeps_the_period(stats, times);
    if times.len() > 0 {
        a_due_report_stays_due(stats, now, times.drop_last(), later);
    }
}

/// The measurement begins with nothing, in a period that starts at that time; and a
/// report begins it anew, but for the last frame, which it keeps.
pub proof fn a_report_begins_the_next_period(stats: FrameStatsView, now: u64)
    ensures
        FrameStatsView::fresh(now).intervals.len() == 0,
        FrameStatsView::fresh(now).last_frame is None,
        FrameStatsView::fresh(now).last_report == now,
        stats.reported(now).intervals.len() == 0,
        stats.reported(now).last_frame == stats.last_frame,
        stats.reported(now).last_report == now,
        !stats.reported(now).should_report(now),
{
}

/// Sums are taken over all of the intervals: one more adds itself to the sum, and its
/// square to the sum of the squares.
pub proof fn sums_grow_by_what_is_added(intervals: Seq<u64>, interval: u64)
    ensures
        total(Seq::empty()) == 0,
        total_squares(Seq::empty()) == 0,
        total(intervals.push(interval)) == total(intervals) + interval,
        total_squares(intervals.push(interval)) == total_squares(intervals) + interval * interval,
{
    assert(intervals.push(interval).drop_last() == intervals);
    assert(interval * interval >= 0) by (nonlinear_arith);
}

/// The spread is the same wherever the intervals lie: if each is longer by the same
/// time, it does not change. What counts is how far each is from the average.
pub proof fn the_spread_is_one_of_differences(intervals: Seq<u64>, longer: Seq<u64>, by: u64)
    requires
        intervals.len() == longer.len(),
        forall|i: int| 0 <= i < intervals.len() ==> #[trigger] longer[i] == intervals[i] + by,
    ensures
        spread(longer) == spread(intervals),
        total(longer) == total(intervals) + intervals.len() * by,
{
    let n = intervals.len() as int;
    lemma_shifted_total(intervals, longer, by);
    lemma_shifted_deviations(intervals, longer, by, n, total(intervals) as int);
}

proof fn lemma_shifted_total(intervals: Seq<u64>, longer: Seq<u64>, by: u64)
    requires
        intervals.len() == longer.len(),
        forall|i: int| 0 <= i < intervals.len() ==> #[trigger] longer[i] == intervals[i] + by,
    ensures
        total(longer) == total(intervals) + intervals.len() * by,
    decreases intervals.len(),
{
    if intervals.len() > 0 {
        lemma_shifted_total(intervals.drop_last(), longer.drop_last(), by);
        let n = intervals.len() as int;
        assert(longer[n - 1] == intervals[n - 1] + by);
        assert((n - 1) * by + by == n * by) by (nonlinear_arith);
    } else {
        assert(0 * by == 0) by (nonlinear_arith);
    }
}

proof fn lemma_shifted_deviations(
    intervals: Seq<u64>,
    longer: Seq<u64>,
    by: u64,
    scale: int,
    centre: int,
)
    requires
        intervals.len() == longer.len(),
        forall|i: int| 0 <= i < intervals.len() ==> #[trigger] longer[i] == intervals[i] + by,
    ensures
        squared_deviations(longer, scale, centre + scale * by) == squared_deviations(
            intervals,
            scale,
            centre,
        ),
    decreases intervals.len(),
{
    if intervals.len() > 0 {
        lemma_shifted_deviations(intervals.drop_last(), longer.drop_last(), by, scale, centre);
        let last = intervals.len() - 1;
        assert(longer[last] == intervals[last] + by);
        let x = intervals[last] as int;
        assert(scale * (x + by) - (centre + scale * by) == scale * x - centre)
            by (nonlinear_arith);
    }
}

/// A report says how many intervals there are, their sum, and which is the shortest and
/// which the longest.
pub proof fn a_report_is_on_all_of_the_intervals(intervals: Seq<u64>, report: FrameReport, i: int)
    requires
        report.describes(intervals),
        0 <= i < intervals.len(),
    ensures
        report.count == intervals.len(),
        report.total_ns == total(intervals),
        report.min_ns <= intervals[i] <= report.max_ns,
        exists|j: int| 0 <= j < intervals.len() && #[trigger] intervals[j] == report.min_ns,
        exists|j: int| 0 <= j < intervals.len() && #[trigger] intervals[j] == report.max_ns,
{
}

/// The line shows every number in full behind its label, one behind the other, and
/// holds nothing else.
pub proof fn the_line_shows_every_number(fields: StatsFields)
    ensures
        ({
            let line = fields.line();
            let fps = "[stats] fps="@.len() as int;
            let delayed = fps + fields.fps@.len() + " delayed="@.len();
            let vo_drops = delayed + fields.delayed@.len() + " vo_drops="@.len();
            let dec_drops = vo_drops + fields.vo_drops@.len() + " dec_drops="@.len();
            let vsync = dec_drops + fields.dec_drops@.len() + " vsync_ratio="@.len();
            let avg = vsync + fields.vsync_ratio@.len() + " | interval avg="@.len();
            let min = avg + fields.avg@.len() + "ms min="@.len();
            let max = min + fields.min@.len() + "ms max="@.len();
            let jitter = max + fields.max@.len() + "ms jitter="@.len();
            let end = jitter + fields.jitter@.len() + "ms"@.len();
            &&& line.len() == end
            &&& line.subrange(0, fps) == "[stats] fps="@
            &&& line.subrange(fps, delayed) == fields.fps@ + " delayed="@
            &&& line.subrange(delayed, vo_drops) == fields.delayed@ + " vo_drops="@
            &&& line.subrange(vo_drops, dec_drops) == fields.vo_drops@ + " dec_drops="@
            &&& line.subrange(dec_drops, vsync) == fields.dec_drops@ + " vsync_ratio="@
            &&& line.subrange(vsync, avg) == fields.vsync_ratio@ + " | interval avg="@
            &&& line.subrange(avg, min) == fields.avg@ + "ms min="@
            &&& line.subrange(min, max) == fields.min@ + "ms max="@
            &&& line.subrange(max, jitter) == fields.max@ + "ms jitter="@
            &&& line.subrange(jitter, end) == fields.jitter@ + "ms"@
        }),
{
    let to_fps = "[stats] fps="@;
    let to_delayed = to_fps + fields.fps@ + " delayed="@;
    let to_vo_drops = to_delayed + fields.delayed@ + " vo_drops="@;
    let to_dec_drops = to_vo_drops + fields.vo_drops@ + " dec_drops="@;
    let to_vsync_ratio = to_dec_drops + fields.dec_drops@ + " vsync_ratio="@;
    let to_avg = to_vsync_ratio + fields.vsync_ratio@ + " | interval avg="@;
    let to_min = to_avg + fields.avg@ + "ms min="@;
    let to_max = to_min + fields.min@ + "ms max="@;
    let to_jitter = to_max + fields.max@ + "ms jitter="@;
    let to_end = to_jitter + fields.jitter@ + "ms"@;
    let line = fields.line();
    assert(line.take(to_end.len() as int) == to_end);
    lemma_ends_with(line, to_jitter, fields.jitter@, "ms"@);
    lemma_ends_with(line, to_max, fields.max@, "ms jitter="@);
    lemma_ends_with(line, to_min, fields.min@, "ms max="@);
    lemma_ends_with(line, to_avg, fields.avg@, "ms min="@);
    lemma_ends_with(line, to_vsync_ratio, fields.vsync_ratio@, " | interval avg="@);
    lemma_ends_with(line, to_dec_drops, fields.dec_drops@, " vsync_ratio="@);
    lemma_ends_with(line, to_vo_drops, fields.vo_drops@, " dec_drops="@);
    lemma_ends_with(line, to_delayed, fields.delayed@, " vo_drops="@);
    lemma_ends_with(line, to_fps, fields.fps@, " delayed="@);
    assert(line.take(to_fps.len() as int) == line.subrange(0, to_fps.len() as int));
}

/// A line that starts with three texts has the first of them at its start, and the other
/// two behind it.
proof fn lemma_ends_with(line: Seq<char>, before: Seq<char>, number: Seq<char>, label: Seq<char>)
    requires
        line.len() >= (before + number + label).len(),
        line.take((before + number + label).len() as int) == before + number + label,
    ensures
        line.take(before.len() as int) == before,
        line.subrange(
            before.len() as int,
            before.len() + number.len() + label.len() as int,
        ) == number
            + label,
{
    let start = line.take((before + number + label).len() as int);
    assert(start.take(before.len() as int) == before);
    assert(line.take(before.len() as int) == start.take(before.len() as int));
    assert(start.skip(before.len() as int) == number + label);
    assert(line.subrange(
            before.len() as int,
            before.len() + number.len() + label.len() as int,
        )
        == start.skip(before.len() as int));
}

} // verus!
