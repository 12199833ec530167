use rspeed::result::{latency_rank_stats, sort_ascending, Phase};

#[test]
fn latency_rank_stats_basic() {
    let nanos = vec![200_000_000u64, 100_000_000, 300_000_000];
    let r = latency_rank_stats(&nanos);
    assert_eq!(r.samples, 3);
    assert_eq!(r.min_nanos, 100_000_000);
    assert_eq!(r.median_nanos, 200_000_000);
    assert_eq!(r.max_nanos, 300_000_000);
}

#[test]
fn latency_rank_stats_single_sample() {
    let r = latency_rank_stats(&vec![42]);
    assert_eq!((r.samples, r.min_nanos, r.median_nanos, r.max_nanos), (1, 42, 42, 42));
}

#[test]
fn latency_rank_stats_even_count_takes_upper_median() {
    let r = latency_rank_stats(&vec![40, 10, 30, 20]);
    assert_eq!(r.median_nanos, 30);
    assert!(r.min_nanos <= r.median_nanos && r.median_nanos <= r.max_nanos);
}

#[test]
fn sort_ascending_keeps_duplicates() {
    assert_eq!(sort_ascending(&vec![5, 1, 5, 3, 1]), vec![1, 1, 3, 5, 5]);
    assert_eq!(sort_ascending(&vec![]), Vec::<u64>::new());
    assert_eq!(sort_ascending(&vec![u64::MAX, 0]), vec![0, u64::MAX]);
}

#[test]
fn phase_default_is_latency() {
    assert_eq!(Phase::default(), Phase::Latency);
}
