use monty_hall::config::SimulationConfig;
use monty_hall::stats::RunningStatistics;
use monty_hall::worker::{worker_count, Worker};

fn observed_rate(door_count: usize, opened: usize, switch: bool, trials: usize) -> f64 {
    let config = SimulationConfig::new(door_count, Some(opened), switch, None).unwrap();
    let (tx, mut rx) = bufchan::unbounded();
    let mut worker = Worker::new(&config, tx);
    let mut stats = RunningStatistics::new();
    for _ in 0..trials {
        stats.record(worker.play_once());
    }
    drop(worker);
    // every forwarded outcome arrives exactly once: sends equal receives
    let mut received = RunningStatistics::new();
    while let Some(won) = rx.recv() {
        received.record(won);
    }
    assert_eq!(received.total, stats.total);
    assert_eq!(received.wins, stats.wins);
    stats.wins as f64 / stats.total as f64
}

#[test]
fn classical_switch_rate_approaches_two_thirds() {
    let rate = observed_rate(3, 1, true, 1_000_000);
    assert!((rate - 2.0 / 3.0).abs() < 0.005, "observed {rate}");
}

#[test]
fn classical_stay_rate_approaches_one_third() {
    let rate = observed_rate(3, 1, false, 1_000_000);
    assert!((rate - 1.0 / 3.0).abs() < 0.005, "observed {rate}");
}

#[test]
fn ten_doors_switch_rate_approaches_nine_tenths() {
    let rate = observed_rate(10, 8, true, 200_000);
    assert!((rate - 0.9).abs() < 0.01, "observed {rate}");
}

#[test]
fn ten_doors_stay_rate_approaches_one_tenth() {
    let rate = observed_rate(10, 8, false, 200_000);
    assert!((rate - 0.1).abs() < 0.01, "observed {rate}");
}

#[test]
fn partial_quota_switch_rate_stays_plausible() {
    // with 5 doors and one opened, switching wins somewhere between the
    // stay rate (1/5) and the full-reveal rate (4/5)
    let rate = observed_rate(5, 1, true, 200_000);
    assert!(rate > 0.2 && rate < 0.8, "observed {rate}");
}

#[test]
fn worker_count_takes_the_detected_parallelism() {
    assert_eq!(worker_count(Some(8)), 8);
    assert_eq!(worker_count(Some(1)), 1);
}

#[test]
fn worker_count_falls_back_to_sixteen() {
    assert_eq!(worker_count(None), 16);
    assert_eq!(worker_count(Some(0)), 16);
}
