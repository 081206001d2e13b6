use murale::stats::{counter_or_unknown, summarize, FrameReport, FrameStats, StatsFields};
use murale::wide::Wide;

const MS: u64 = 1_000_000;
const S: u64 = 1_000_000_000;

#[test]
fn the_first_frame_has_no_interval() {
    let mut stats = FrameStats::new(7);
    stats.record(10);
    assert!(stats.intervals_ns.is_empty());
    assert_eq!(stats.last_frame, Some(10));
    assert_eq!(stats.last_report, 7);
    stats.record(25);
    stats.record(31);
    assert_eq!(stats.intervals_ns, vec![15, 6]);
}

#[test]
fn intervals_add_up_to_the_time_between_frames() {
    let times = [3 * MS, 19 * MS, 36 * MS, 36 * MS, 90 * MS];
    let mut stats = FrameStats::new(0);
    for time in times {
        stats.record(time);
    }
    assert_eq!(stats.intervals_ns.len(), 4);
    assert_eq!(stats.intervals_ns.iter().sum::<u64>(), 87 * MS);
}

#[test]
fn a_clock_that_goes_back_measures_nothing() {
    let mut stats = FrameStats::new(0);
    stats.record(100);
    stats.record(40);
    assert_eq!(stats.intervals_ns, vec![0]);
    assert_eq!(stats.last_frame, Some(40));
}

#[test]
fn reports_need_five_seconds_and_two_intervals() {
    let mut stats = FrameStats::new(S);
    assert!(!stats.should_report(100 * S));
    stats.record(2 * S);
    stats.record(3 * S);
    assert!(!stats.should_report(100 * S));
    stats.record(4 * S);
    assert!(!stats.should_report(6 * S - 1));
    assert!(stats.should_report(6 * S));
    assert!(!stats.should_report(0));
}

#[test]
fn a_report_is_exact() {
    let mut stats = FrameStats::new(0);
    for time in [0, 2, 6, 10, 14, 19, 24, 31, 40] {
        stats.record(time * MS);
    }
    let report = stats.take_stats(41 * MS);
    assert_eq!(report.count, 8);
    assert_eq!(report.total_ns, 40 * MS as u128);
    assert_eq!(report.min_ns, 2 * MS);
    assert_eq!(report.max_ns, 9 * MS);
    assert_eq!(report.scatter.high, 0);
    let variance = report.scatter.low as f64 / 64.0;
    assert_eq!(variance.sqrt(), 2.0 * MS as f64);
    assert!(stats.intervals_ns.is_empty());
    assert_eq!(stats.last_report, 41 * MS);
    assert_eq!(stats.last_frame, Some(40 * MS));
}

#[test]
fn the_interval_after_a_report_is_kept() {
    let mut stats = FrameStats::new(0);
    stats.record(10);
    stats.record(20);
    stats.take_stats(23);
    stats.record(35);
    assert_eq!(stats.intervals_ns, vec![15]);
    assert!(!stats.should_report(23 + 5 * S));
    stats.record(36);
    assert!(!stats.should_report(22 + 5 * S));
    assert!(stats.should_report(23 + 5 * S));
}

#[test]
fn equal_intervals_have_no_spread() {
    let report = summarize(&vec![4 * MS; 5]);
    assert_eq!(
        report,
        FrameReport {
            count: 5,
            total_ns: 20 * MS as u128,
            min_ns: 4 * MS,
            max_ns: 4 * MS,
            scatter: Wide { high: 0, low: 0 },
        }
    );
    assert_eq!(summarize(&vec![1, 2]).scatter, Wide::new(1));
    assert_eq!(summarize(&vec![9]).scatter, Wide::new(0));
}

#[test]
fn the_spread_is_the_scaled_variance() {
    let intervals: Vec<u64> = vec![3, 8, 1, 12, 8];
    let report = summarize(&intervals);
    let n = 5u128;
    let sum: u128 = 32;
    let squares: u128 = 9 + 64 + 1 + 144 + 64;
    assert_eq!(report.total_ns, sum);
    assert_eq!(report.scatter, Wide::new(n * squares - sum * sum));
    let mut deviations: u128 = 0;
    for x in [3i128, 8, 1, 12, 8] {
        deviations += ((5 * x - 32) * (5 * x - 32)) as u128;
    }
    assert_eq!(n * report.scatter.low, deviations);
    assert!(n * report.min_ns as u128 <= sum && sum <= n * report.max_ns as u128);
}

#[test]
fn intervals_in_another_order_give_the_same_report() {
    let report = summarize(&vec![3, 8, 1, 12, 8]);
    assert_eq!(report, summarize(&vec![8, 12, 8, 3, 1]));
    assert_eq!(report, summarize(&vec![1, 3, 8, 8, 12]));
    assert_ne!(report, summarize(&vec![1, 3, 3, 8, 12]));
}

#[test]
fn the_deviation_is_at_most_half_the_range() {
    let report = summarize(&vec![3, 8, 1, 12, 8]);
    assert!(4 * report.scatter.low <= 5 * 5 * 11 * 11);
    let halves = summarize(&vec![10, 30, 30, 10]);
    assert_eq!(4 * halves.scatter.low, 4 * 4 * 20 * 20);
}

#[test]
fn the_widest_scatter_is_exact() {
    let most = u64::MAX as u128;
    let two = summarize(&vec![0, u64::MAX]);
    assert_eq!(two.total_ns, most);
    assert_eq!(two.scatter, Wide::new(most * most));
    // Four intervals: 4 * 2 * most * most - (2 * most) * (2 * most).
    let four = summarize(&vec![0, u64::MAX, u64::MAX, 0]);
    assert_eq!(four.scatter, Wide { high: 3, low: (most * most).wrapping_mul(4) });
}

#[test]
fn the_line_names_every_number() {
    let fields = StatsFields {
        fps: "60.0".to_string(),
        delayed: counter_or_unknown(Some(3)).to_string(),
        vo_drops: counter_or_unknown(None).to_string(),
        dec_drops: counter_or_unknown(Some(0)).to_string(),
        vsync_ratio: "4.00".to_string(),
        avg: "16.67".to_string(),
        min: "15.90".to_string(),
        max: "17.40".to_string(),
        jitter: "0.31".to_string(),
    };
    assert_eq!(
        fields.write(),
        "[stats] fps=60.0 delayed=3 vo_drops=-1 dec_drops=0 vsync_ratio=4.00 | interval avg=16.67ms min=15.90ms max=17.40ms jitter=0.31ms"
    );
}
