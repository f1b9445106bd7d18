use crate::config::SimulationConfig;
use vstd::prelude::*;

verus! {

/// Door `i` is a candidate for the host to open: it hides no car and is not
/// the player's pick.
pub open spec fn can_open(car: int, pick: int, i: int) -> bool {
    i != car && i != pick
}

/// How many candidate doors lie strictly below index `i`.
pub open spec fn candidates_below(car: int, pick: int, i: int) -> int
    decreases i when i >= 0
{
    if i <= 0 {
        0
    } else {
        candidates_below(car, pick, i - 1) + if can_open(car, pick, i - 1) {
            1int
        } else {
            0int
        }
    }
}

/// The host scans doors in increasing order and opens candidates until the
/// quota is met: door `i` ends opened exactly when it is a candidate whose
/// rank among the candidates is below the quota.
pub open spec fn host_opens(config: SimulationConfig, car: int, pick: int, i: int) -> bool {
    can_open(car, pick, i) && candidates_below(car, pick, i) < config.doors_opened_by_host
}

/// The first door at or above `i` that the switching player may take: not the
/// initial pick and not opened by the host.
pub open spec fn switch_destination_from(
    config: SimulationConfig,
    car: int,
    pick: int,
    i: int,
) -> int
    decreases config.door_count - i when i <= config.door_count
{
    if i >= config.door_count {
        i
    } else if i != pick && !host_opens(config, car, pick, i) {
        i
    } else {
        switch_destination_from(config, car, pick, i + 1)
    }
}

/// The door the switching player ends on: the lowest-indexed door that is
/// neither host-opened nor the initial pick.
pub open spec fn switch_destination(config: SimulationConfig, car: int, pick: int) -> int {
    switch_destination_from(config, car, pick, 0)
}

/// The outcome of one trial as a function of the two uniform draws alone:
/// a switching player wins when the switch destination hides the car, a
/// staying player when the initial pick does.
pub open spec fn trial_outcome(config: SimulationConfig, car: int, pick: int) -> bool {
    if config.switch_strategy {
        switch_destination(config, car, pick) == car
    } else {
        car == pick
    }
}

/// Candidate counts never shrink and grow by at most one per door.
pub proof fn lemma_candidates_monotone(car: int, pick: int, i: int, j: int)
    requires
        0 <= i <= j,
    ensures
        candidates_below(car, pick, i) <= candidates_below(car, pick, j)
            <= candidates_below(car, pick, i) + (j - i),
    decreases j - i,
{
    if i < j {
        lemma_candidates_monotone(car, pick, i, j - 1);
    }
}

/// Exactly how many candidates lie below `i`: all doors below `i`, less the
/// car's door and the pick where those lie below `i` themselves.
pub proof fn lemma_candidates_exact(car: int, pick: int, i: int)
    requires
        0 <= i,
    ensures
        candidates_below(car, pick, i) == i - (if 0 <= car < i {
            1int
        } else {
            0int
        }) - (if 0 <= pick < i && pick != car {
            1int
        } else {
            0int
        }),
    decreases i,
{
    if i > 0 {
        lemma_candidates_exact(car, pick, i - 1);
    }
}

/// How many doors below `i` the host opens.
pub open spec fn opened_below(config: SimulationConfig, car: int, pick: int, i: int) -> int
    decreases i when i >= 0
{
    if i <= 0 {
        0
    } else {
        opened_below(config, car, pick, i - 1) + if host_opens(config, car, pick, i - 1) {
            1int
        } else {
            0int
        }
    }
}

/// The host opens exactly the smaller of the quota and the candidate count:
/// in particular never more doors than the quota allows.
pub proof fn lemma_opened_count(config: SimulationConfig, car: int, pick: int, i: int)
    requires
        0 <= i,
    ensures
        opened_below(config, car, pick, i) == if config.doors_opened_by_host
            <= candidates_below(car, pick, i) {
            config.doors_opened_by_host as int
        } else {
            candidates_below(car, pick, i)
        },
    decreases i,
{
    if i > 0 {
        lemma_opened_count(config, car, pick, i - 1);
    }
}

/// Under a well-formed configuration with in-range draws the host opens the
/// whole quota, and no more.
pub proof fn lemma_host_opens_quota(config: SimulationConfig, car: int, pick: int)
    requires
        config.wf(),
        0 <= car < config.door_count,
        0 <= pick < config.door_count,
    ensures
        opened_below(config, car, pick, config.door_count as int)
            == config.doors_opened_by_host,
{
    lemma_candidates_exact(car, pick, config.door_count as int);
    lemma_opened_count(config, car, pick, config.door_count as int);
}

/// Some legal switch target always exists among doors with rank at least `k`
/// as long as more than `k` candidates exist in total.
proof fn lemma_exists_candidate_of_rank(car: int, pick: int, n: int, k: int)
    requires
        0 <= n,
        0 <= k,
        k + 1 <= candidates_below(car, pick, n),
    ensures
        exists|j: int|
            0 <= j < n && can_open(car, pick, j) && candidates_below(car, pick, j) == k,
    decreases n,
{
    if can_open(car, pick, n - 1) && candidates_below(car, pick, n - 1) == k {
        assert(0 <= n - 1 < n && can_open(car, pick, n - 1) && candidates_below(car, pick, n - 1)
            == k);
    } else {
        lemma_exists_candidate_of_rank(car, pick, n - 1, k);
    }
}

/// A well-formed configuration always leaves a legal switch target: some door
/// that is neither the initial pick nor host-opened.
proof fn lemma_target_exists(config: SimulationConfig, car: int, pick: int)
    requires
        config.wf(),
        0 <= car < config.door_count,
        0 <= pick < config.door_count,
    ensures
        exists|j: int|
            0 <= j < config.door_count && j != pick && !host_opens(config, car, pick, j),
{
    let n = config.door_count as int;
    if car != pick {
        assert(0 <= car < n && car != pick && !host_opens(config, car, pick, car));
    } else {
        lemma_candidates_exact(car, pick, n);
        lemma_exists_candidate_of_rank(car, pick, n, config.doors_opened_by_host as int);
        let j = choose|j: int|
            0 <= j < n && can_open(car, pick, j) && candidates_below(car, pick, j)
                == config.doors_opened_by_host;
        assert(0 <= j < n && j != pick && !host_opens(config, car, pick, j));
    }
}

/// The recursive scan finds the least legal target at or above `i`, granted
/// one exists there.
proof fn lemma_switch_destination_from_finds(
    config: SimulationConfig,
    car: int,
    pick: int,
    i: int,
)
    requires
        config.wf(),
        0 <= i <= config.door_count,
        exists|j: int|
            i <= j < config.door_count && j != pick && !host_opens(config, car, pick, j),
    ensures
        ({
            let d = switch_destination_from(config, car, pick, i);
            &&& i <= d < config.door_count
            &&& d != pick
            &&& !host_opens(config, car, pick, d)
            &&& forall|j: int|
                i <= j < d ==> (j == pick || host_opens(config, car, pick, j))
        }),
    decreases config.door_count - i,
{
    if i != pick && !host_opens(config, car, pick, i) {
    } else {
        let j = choose|j: int|
            i <= j < config.door_count && j != pick && !host_opens(config, car, pick, j);
        assert(i + 1 <= j < config.door_count && j != pick && !host_opens(config, car, pick, j));
        lemma_switch_destination_from_finds(config, car, pick, i + 1);
    }
}

/// What the switch destination is: an in-range door, distinct from the
/// initial pick and from every host-opened door, and the least such door.
pub proof fn lemma_switch_destination_props(config: SimulationConfig, car: int, pick: int)
    requires
        config.wf(),
        0 <= car < config.door_count,
        0 <= pick < config.door_count,
    ensures
        ({
            let d = switch_destination(config, car, pick);
            &&& 0 <= d < config.door_count
            &&& d != pick
            &&& !host_opens(config, car, pick, d)
            &&& forall|j: int|
                0 <= j < d ==> (j == pick || host_opens(config, car, pick, j))
        }),
{
    lemma_target_exists(config, car, pick);
    lemma_switch_destination_from_finds(config, car, pick, 0);
}

/// With the maximal quota — every door but the pick's and one more opened —
/// switching wins exactly when the initial pick missed the car, and staying
/// wins exactly when it hit: the classical two-out-of-three for three doors,
/// and nine-out-of-ten for ten.
pub proof fn lemma_max_quota_outcome(config: SimulationConfig, car: int, pick: int)
    requires
        config.wf(),
        config.doors_opened_by_host + 2 == config.door_count,
        0 <= car < config.door_count,
        0 <= pick < config.door_count,
    ensures
        config.switch_strategy ==> trial_outcome(config, car, pick) == (car != pick),
        !config.switch_strategy ==> trial_outcome(config, car, pick) == (car == pick),
{
    if config.switch_strategy {
        let n = config.door_count as int;
        let quota = config.doors_opened_by_host as int;
        lemma_switch_destination_props(config, car, pick);
        let d = switch_destination(config, car, pick);
        if car == pick {
            assert(d != car);
        } else {
            assert forall|j: int| 0 <= j < car && j != pick implies host_opens(
                config,
                car,
                pick,
                j,
            ) by {
                lemma_candidates_exact(car, pick, j);
            }
            if d < car {
                assert(host_opens(config, car, pick, d));
                assert(false);
            }
            assert(!host_opens(config, car, pick, car));
            if car < d {
                assert(car == pick || host_opens(config, car, pick, car));
                assert(false);
            }
            assert(d == car);
        }
    }
}

/// How many picks below `pick_bound` win against this car position.
pub open spec fn winning_picks_below(config: SimulationConfig, car: int, pick_bound: int) -> int
    decreases pick_bound when pick_bound >= 0
{
    if pick_bound <= 0 {
        0
    } else {
        winning_picks_below(config, car, pick_bound - 1) + if trial_outcome(
            config,
            car,
            pick_bound - 1,
        ) {
            1int
        } else {
            0int
        }
    }
}

/// How many of the draw pairs with a car position below `car_bound` win.
pub open spec fn winning_pairs_below(config: SimulationConfig, car_bound: int) -> int
    decreases car_bound when car_bound >= 0
{
    if car_bound <= 0 {
        0
    } else {
        winning_pairs_below(config, car_bound - 1) + winning_picks_below(
            config,
            car_bound - 1,
            config.door_count as int,
        )
    }
}

/// Row count under the maximal quota: against one fixed car position, a
/// switching player wins for every pick but the car's own door, a staying
/// player only for that one pick.
proof fn lemma_max_quota_row_count(config: SimulationConfig, car: int, pick_bound: int)
    requires
        config.wf(),
        config.doors_opened_by_host + 2 == config.door_count,
        0 <= car < config.door_count,
        0 <= pick_bound <= config.door_count,
    ensures
        config.switch_strategy ==> winning_picks_below(config, car, pick_bound) == pick_bound - (
        if car < pick_bound {
            1int
        } else {
            0int
        }),
        !config.switch_strategy ==> winning_picks_below(config, car, pick_bound) == if car
            < pick_bound {
            1int
        } else {
            0int
        },
    decreases pick_bound,
{
    if pick_bound > 0 {
        lemma_max_quota_row_count(config, car, pick_bound - 1);
        lemma_max_quota_outcome(config, car, pick_bound - 1);
    }
}

/// Over the whole grid of equally likely draw pairs under the maximal quota,
/// the switching player wins all pairs whose pick missed the car —
/// `door_count * (door_count - 1)` of the `door_count * door_count` pairs —
/// and the staying player the remaining `door_count`: two thirds against one
/// third at three doors, nine tenths against one tenth at ten.
pub proof fn lemma_max_quota_win_count(config: SimulationConfig)
    requires
        config.wf(),
        config.doors_opened_by_host + 2 == config.door_count,
    ensures
        config.switch_strategy ==> winning_pairs_below(config, config.door_count as int)
            == config.door_count * config.door_count - config.door_count,
        !config.switch_strategy ==> winning_pairs_below(config, config.door_count as int)
            == config.door_count,
{
    lemma_max_quota_pair_count(config, config.door_count as int);
}

/// The grid count, row by row.
proof fn lemma_max_quota_pair_count(config: SimulationConfig, car_bound: int)
    requires
        config.wf(),
        config.doors_opened_by_host + 2 == config.door_count,
        0 <= car_bound <= config.door_count,
    ensures
        config.switch_strategy ==> winning_pairs_below(config, car_bound) == car_bound
            * config.door_count - car_bound,
        !config.switch_strategy ==> winning_pairs_below(config, car_bound) == car_bound,
    decreases car_bound,
{
    let n = config.door_count as int;
    if car_bound > 0 {
        lemma_max_quota_pair_count(config, car_bound - 1);
        lemma_max_quota_row_count(config, car_bound - 1, n);
        assert(car_bound * n == (car_bound - 1) * n + n) by (nonlinear_arith);
    }
}

/// Plays one trial with the given uniform draws, reusing `doors` as the
/// scratch buffer of host-opened doors; no allocation happens per call.
///
/// The outcome is fully determined by the configuration and the two draws,
/// and the buffer ends marking exactly the doors the host opened: never more
/// than the quota, and never the pick or the switch destination.
pub fn play_single(
    config: &SimulationConfig,
    car_pos: usize,
    pick: usize,
    doors: &mut Vec<bool>,
) -> (won: bool)
    requires
        config.wf(),
        car_pos < config.door_count,
        pick < config.door_count,
        old(doors)@.len() == config.door_count,
    ensures
        final(doors)@.len() == config.door_count,
        won == trial_outcome(*config, car_pos as int, pick as int),
        forall|i: int|
            0 <= i < config.door_count ==> final(doors)@[i] == (config.switch_strategy
                && host_opens(*config, car_pos as int, pick as int, i)),
{
    let ghost car = car_pos as int;
    let ghost chosen = pick as int;
    let n = config.door_count;

    let mut idx: usize = 0;
    while idx < n
        invariant
            doors@.len() == n,
            idx <= n,
            forall|j: int| 0 <= j < idx ==> doors@[j] == false,
        decreases n - idx,
    {
        doors[idx] = false;
        idx = idx + 1;
    }

    if !config.switch_strategy {
        return car_pos == pick;
    }

    let quota = config.doors_opened_by_host;
    let mut opened: usize = 0;
    let mut current: usize = 0;
    while opened < quota
        invariant
            config.wf(),
            n == config.door_count,
            quota == config.doors_opened_by_host,
            car == car_pos as int,
            chosen == pick as int,
            car_pos < n,
            pick < n,
            doors@.len() == n,
            current <= n,
            opened <= quota,
            opened == candidates_below(car, chosen, current as int),
            forall|j: int| 0 <= j < current ==> doors@[j] == host_opens(*config, car, chosen, j),
            forall|j: int| current <= j < n ==> doors@[j] == false,
        decreases n - current,
    {
        proof {
            lemma_candidates_exact(car, chosen, n as int);
            lemma_candidates_monotone(car, chosen, current as int, n as int);
            assert(current < n);
        }
        if current != car_pos && current != pick {
            doors[current] = true;
            opened = opened + 1;
        }
        current = current + 1;
    }
    proof {
        assert forall|j: int| current <= j < n implies !host_opens(*config, car, chosen, j) by {
            lemma_candidates_monotone(car, chosen, current as int, j);
        }
        lemma_switch_destination_props(*config, car, chosen);
    }
    let ghost destination = switch_destination(*config, car, chosen);

    let mut target: usize = 0;
    while target == pick || doors[target]
        invariant
            n == config.door_count,
            pick < n,
            doors@.len() == n,
            car == car_pos as int,
            chosen == pick as int,
            destination == switch_destination(*config, car, chosen),
            0 <= destination < n,
            destination != chosen,
            !host_opens(*config, car, chosen, destination),
            forall|j: int|
                0 <= j < destination ==> (j == chosen || host_opens(*config, car, chosen, j)),
            forall|j: int| 0 <= j < n ==> doors@[j] == host_opens(*config, car, chosen, j),
            target <= destination,
        decreases destination - target,
    {
        target = target + 1;
    }
    assert(target == destination);
    car_pos == target
}

} // verus!
