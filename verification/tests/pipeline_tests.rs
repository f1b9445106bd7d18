use monty_hall::cancel::CancelFlag;
use monty_hall::config::SimulationConfig;
use monty_hall::phase::{advance, RunPhase};
use monty_hall::stats::tally;
use monty_hall::worker::Worker;

#[test]
fn cancel_flag_starts_unset_and_stays_set() {
    let cancel = CancelFlag::new();
    assert!(!cancel.check());
    cancel.signal();
    assert!(cancel.check());
    cancel.signal();
    assert!(cancel.check());
}

#[test]
fn cancelled_worker_loop_exits_without_a_trial() {
    let config = SimulationConfig::new(3, None, true, None).unwrap();
    let cancel = CancelFlag::new();
    cancel.signal();
    let (tx, mut rx) = bufchan::unbounded();
    let mut worker = Worker::new(&config, tx);
    let mut trials = 0;
    while !cancel.check() {
        worker.play_once();
        trials += 1;
    }
    drop(worker);
    assert_eq!(trials, 0);
    assert_eq!(rx.recv(), None);
}

#[test]
fn outcomes_sent_before_cancellation_are_still_counted() {
    let config = SimulationConfig::new(4, Some(2), true, None).unwrap();
    let cancel = CancelFlag::new();
    let (tx, mut rx) = bufchan::unbounded();
    let mut worker = Worker::new(&config, tx);
    for _ in 0..50 {
        worker.play_once();
    }
    cancel.signal();
    // the loop boundary observes the signal; the worker and its sender retire
    assert!(cancel.check());
    drop(worker);
    let mut drained = Vec::new();
    while let Some(won) = rx.recv() {
        drained.push(won);
    }
    assert_eq!(drained.len(), 50);
}

#[test]
fn channel_delivers_every_send_exactly_once() {
    let (mut tx, mut rx) = bufchan::unbounded();
    let mut sent_wins = 0;
    for trial in 0..1000 {
        let won = trial % 7 == 0;
        if won {
            sent_wins += 1;
        }
        tx.send(won);
    }
    drop(tx);
    let mut drained = Vec::new();
    while let Some(won) = rx.recv() {
        drained.push(won);
    }
    let stats = tally(&drained);
    assert_eq!(stats.total, 1000);
    assert_eq!(stats.wins, sent_wins);
}

#[test]
fn lifecycle_passes_every_phase_in_order() {
    let mut phase = RunPhase::Idle;
    phase = advance(phase);
    assert_eq!(phase, RunPhase::Running);
    phase = advance(phase);
    assert_eq!(phase, RunPhase::Stopping);
    phase = advance(phase);
    assert_eq!(phase, RunPhase::Draining);
    phase = advance(phase);
    assert_eq!(phase, RunPhase::Done);
    phase = advance(phase);
    assert_eq!(phase, RunPhase::Done);
}
