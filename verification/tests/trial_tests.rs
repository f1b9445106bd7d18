use monty_hall::config::SimulationConfig;
use monty_hall::trial::play_single;

fn play(config: &SimulationConfig, car_pos: usize, pick: usize) -> (bool, Vec<bool>) {
    let mut doors = vec![false; config.door_count];
    let won = play_single(config, car_pos, pick, &mut doors);
    (won, doors)
}

#[test]
fn classical_switch_wins_exactly_when_pick_missed() {
    let config = SimulationConfig::new(3, Some(1), true, None).unwrap();
    for car in 0..3 {
        for pick in 0..3 {
            let (won, _) = play(&config, car, pick);
            assert_eq!(won, car != pick);
        }
    }
}

#[test]
fn classical_switch_wins_two_thirds_of_draws() {
    let config = SimulationConfig::new(3, Some(1), true, None).unwrap();
    let mut wins = 0;
    for car in 0..3 {
        for pick in 0..3 {
            if play(&config, car, pick).0 {
                wins += 1;
            }
        }
    }
    assert_eq!(wins, 6);
}

#[test]
fn classical_stay_wins_one_third_of_draws() {
    let config = SimulationConfig::new(3, Some(1), false, None).unwrap();
    let mut wins = 0;
    for car in 0..3 {
        for pick in 0..3 {
            let (won, doors) = play(&config, car, pick);
            assert_eq!(won, car == pick);
            assert!(doors.iter().all(|opened| !opened));
            if won {
                wins += 1;
            }
        }
    }
    assert_eq!(wins, 3);
}

#[test]
fn ten_doors_switch_wins_nine_tenths_of_draws() {
    let config = SimulationConfig::new(10, Some(8), true, None).unwrap();
    let mut wins = 0;
    for car in 0..10 {
        for pick in 0..10 {
            if play(&config, car, pick).0 {
                wins += 1;
            }
        }
    }
    assert_eq!(wins, 90);
}

#[test]
fn ten_doors_stay_wins_one_tenth_of_draws() {
    let config = SimulationConfig::new(10, Some(8), false, None).unwrap();
    let mut wins = 0;
    for car in 0..10 {
        for pick in 0..10 {
            if play(&config, car, pick).0 {
                wins += 1;
            }
        }
    }
    assert_eq!(wins, 10);
}

#[test]
fn partial_quota_follows_the_scan_order() {
    let config = SimulationConfig::new(5, Some(1), true, None).unwrap();
    // host opens door 1 (the lowest candidate), switch target becomes door 2
    assert_eq!(play(&config, 4, 0).0, false);
    assert_eq!(play(&config, 2, 0).0, true);
    assert_eq!(play(&config, 0, 0).0, false);
    // host opens door 0, switch target becomes door 1
    assert_eq!(play(&config, 1, 3).0, true);
}

#[test]
fn host_never_opens_more_than_the_quota() {
    let config = SimulationConfig::new(8, Some(3), true, None).unwrap();
    for car in 0..8 {
        for pick in 0..8 {
            let (_, doors) = play(&config, car, pick);
            let opened = doors.iter().filter(|opened| **opened).count();
            assert_eq!(opened, 3);
            assert!(!doors[car], "the car's door stays closed");
            assert!(!doors[pick], "the picked door stays closed");
        }
    }
}

#[test]
fn identical_draws_give_identical_outcomes() {
    let config = SimulationConfig::new(7, Some(4), true, None).unwrap();
    for car in 0..7 {
        for pick in 0..7 {
            let first = play(&config, car, pick);
            let second = play(&config, car, pick);
            assert_eq!(first, second);
        }
    }
}
