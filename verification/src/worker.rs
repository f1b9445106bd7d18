use crate::config::SimulationConfig;
use crate::trial::{play_single, trial_outcome};
use vstd::prelude::*;

verus! {

/// rand's thread-local generator, opaque to verification.
#[verifier::external_type_specification]
#[verifier::external_body]
pub struct ExThreadRng(rand::rngs::ThreadRng);

/// bufchan's sending half of the outcome channel, opaque to verification.
#[verifier::external_type_specification]
#[verifier::external_body]
#[verifier::reject_recursive_types(T)]
pub struct ExSender<T>(bufchan::Sender<T>);

/// Relies on rand::thread_rng: a handle to the calling thread's generator,
/// independent randomness for each worker.
#[verifier::external_body]
fn fresh_rng() -> rand::rngs::ThreadRng {
    rand::thread_rng()
}

/// Relies on rand::Rng::sample over rand::distributions::Uniform: a door
/// index drawn uniformly from the `door_count` doors. Uniform::new panics on
/// an empty range, so the count must be positive.
#[verifier::external_body]
fn draw_door(rng: &mut rand::rngs::ThreadRng, door_count: usize) -> (drawn: usize)
    requires
        door_count >= 1,
    ensures
        drawn < door_count,
{
    rand::Rng::sample(rng, rand::distributions::Uniform::new(0, door_count))
}

/// Relies on bufchan::Sender::send: hands one outcome to the channel for the
/// aggregator to drain; locally buffered, guaranteed not to block.
#[verifier::external_body]
fn send_outcome(tx: &mut bufchan::Sender<bool>, won: bool) {
    tx.send(won);
}

/// One simulation worker: the shared configuration, its own randomness, a
/// reusable scratch buffer, and a clone of the channel's sending half. The
/// sender is dropped with the worker, which lets the channel report closure
/// once every worker has finished.
pub struct Worker {
    config: SimulationConfig,
    rng: rand::rngs::ThreadRng,
    doors: Vec<bool>,
    tx: bufchan::Sender<bool>,
}

impl Worker {
    /// The worker invariant: a well-formed configuration and a scratch buffer
    /// sized to it.
    pub closed spec fn wf(&self) -> bool {
        self.config.wf() && self.doors@.len() == self.config.door_count
    }

    /// The configuration this worker plays under.
    pub closed spec fn config_spec(&self) -> SimulationConfig {
        self.config
    }

    /// Builds a worker for one validated configuration: the scratch buffer is
    /// allocated once here and reused by every trial.
    pub fn new(config: &SimulationConfig, tx: bufchan::Sender<bool>) -> (worker: Worker)
        requires
            config.wf(),
        ensures
            worker.wf(),
            worker.config_spec() == *config,
    {
        let mut doors: Vec<bool> = Vec::new();
        let mut idx: usize = 0;
        while idx < config.door_count
            invariant
                doors@.len() == idx,
                idx <= config.door_count,
            decreases config.door_count - idx,
        {
            doors.push(false);
            idx = idx + 1;
        }
        Worker { config: *config, rng: fresh_rng(), doors, tx }
    }

    /// One worker-loop iteration: draws the car's door and the initial pick,
    /// plays the trial, and forwards the outcome on the channel. Whatever the
    /// draws were, the forwarded outcome is the deterministic result of some
    /// pair of in-range draws under this worker's configuration.
    pub fn play_once(&mut self) -> (won: bool)
        requires
            old(self).wf(),
        ensures
            final(self).wf(),
            final(self).config_spec() == old(self).config_spec(),
            exists|car: int, pick: int|
                {
                    &&& 0 <= car < old(self).config_spec().door_count
                    &&& 0 <= pick < old(self).config_spec().door_count
                    &&& won == trial_outcome(old(self).config_spec(), car, pick)
                },
    {
        let config = self.config;
        let car_pos = draw_door(&mut self.rng, config.door_count);
        let pick = draw_door(&mut self.rng, config.door_count);
        let won = play_single(&config, car_pos, pick, &mut self.doors);
        send_outcome(&mut self.tx, won);
        assert(won == trial_outcome(config, car_pos as int, pick as int));
        won
    }
}

/// Worker-pool sizing: the detected hardware concurrency where one was found,
/// else a fallback of sixteen threads.
pub fn worker_count(detected: Option<usize>) -> (count: usize)
    ensures
        count >= 1,
        detected matches Some(found) ==> count == if found >= 1 {
            found
        } else {
            16
        },
        detected is None ==> count == 16,
{
    match detected {
        Some(found) => if found >= 1 {
            found
        } else {
            16
        },
        None => 16,
    }
}

} // verus!
