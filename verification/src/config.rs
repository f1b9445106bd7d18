use vstd::prelude::*;

verus! {

/// The settings of one simulation run, immutable once built and shared
/// read-only by every worker.
#[derive(Clone, Copy, Debug)]
pub struct SimulationConfig {
    /// Total number of doors in the game; at least three.
    pub door_count: usize,
    /// How many losing doors the host opens before the player may switch;
    /// at most `door_count - 2`, so the car's door and one switch target
    /// always stay closed.
    pub doors_opened_by_host: usize,
    /// Whether the player abandons the initial pick for the lowest-indexed
    /// door left closed.
    pub switch_strategy: bool,
    /// Stop after this many seconds; `None` means run until an external stop
    /// event.
    pub run_for_seconds: Option<usize>,
}

/// Why a requested configuration was rejected before any thread spawns.
#[derive(Clone, Copy, Debug, PartialEq, Eq, Structural)]
pub enum ConfigError {
    /// Fewer than three doors leave no room for both a host reveal and a
    /// switch.
    TooFewDoors,
    /// The host would open so many doors that no switch target stays closed.
    TooManyDoorsOpened,
}

/// The number of doors the host is asked to open: the explicit request, or
/// all but two doors when none was given.
pub open spec fn requested_open(door_count: int, open: Option<usize>) -> int {
    match open {
        Some(k) => k as int,
        None => door_count - 2,
    }
}

impl SimulationConfig {
    /// The configuration invariant: enough doors, and a quota that leaves the
    /// car's door and one further door closed.
    pub open spec fn wf(&self) -> bool {
        &&& self.door_count >= 3
        &&& self.doors_opened_by_host + 2 <= self.door_count
    }

    /// Validates and builds a configuration. Too few doors, or a quota above
    /// `door_count - 2`, is rejected, never clamped; a missing quota defaults
    /// to `door_count - 2`.
    pub fn new(
        door_count: usize,
        doors_opened_by_host: Option<usize>,
        switch_strategy: bool,
        run_for_seconds: Option<usize>,
    ) -> (result: Result<SimulationConfig, ConfigError>)
        ensures
            door_count < 3 ==> result == Err::<SimulationConfig, ConfigError>(
                ConfigError::TooFewDoors,
            ),
            door_count >= 3 && requested_open(door_count as int, doors_opened_by_host)
                > door_count - 2 ==> result == Err::<SimulationConfig, ConfigError>(
                ConfigError::TooManyDoorsOpened,
            ),
            door_count >= 3 && requested_open(door_count as int, doors_opened_by_host)
                <= door_count - 2 ==> {
                &&& result matches Ok(config)
                &&& config.door_count == door_count
                &&& config.doors_opened_by_host == requested_open(
                    door_count as int,
                    doors_opened_by_host,
                )
                &&& config.switch_strategy == switch_strategy
                &&& config.run_for_seconds == run_for_seconds
                &&& config.wf()
            },
    {
        if door_count < 3 {
            return Err(ConfigError::TooFewDoors);
        }
        let opened = match doors_opened_by_host {
            Some(k) => k,
            None => door_count - 2,
        };
        if opened > door_count - 2 {
            return Err(ConfigError::TooManyDoorsOpened);
        }
        Ok(SimulationConfig { door_count, doors_opened_by_host: opened, switch_strategy, run_for_seconds })
    }
}

impl ConfigError {
    /// The rejection, in words.
    pub open spec fn message_spec(&self) -> Seq<char> {
        match self {
            ConfigError::TooFewDoors => "the game needs at least 3 doors"@,
            ConfigError::TooManyDoorsOpened =>
                "the host must leave the car's door and one other door closed"@,
        }
    }

    /// A descriptive message for the rejected configuration.
    pub fn message(&self) -> (m: &'static str)
        ensures
            m@ == self.message_spec(),
    {
        match self {
            ConfigError::TooFewDoors => "the game needs at least 3 doors",
            ConfigError::TooManyDoorsOpened =>
                "the host must leave the car's door and one other door closed",
        }
    }
}

} // verus!
