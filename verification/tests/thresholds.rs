use fancy_core::ec_control::fan::{
    binary_search, find_first_nonzero_down, select_threshold, sort_thresholds, Fan,
};
use fancy_core::nbfc::TemperatureThreshold;

fn pct(percent: f64) -> i32 {
    (percent * 1000.0).round() as i32
}

fn threshold(up: u8, down: u8, speed: f64) -> TemperatureThreshold {
    TemperatureThreshold { up_threshold: up, down_threshold: down, fan_speed: pct(speed) }
}

fn curve() -> Vec<TemperatureThreshold> {
    vec![
        threshold(0, 0, 0.0),
        threshold(60, 48, 10.0),
        threshold(63, 55, 20.0),
        threshold(66, 59, 50.0),
        threshold(68, 63, 70.0),
        threshold(71, 67, 100.0),
    ]
}

fn fan_with(thresholds: Vec<TemperatureThreshold>, level: usize) -> Fan {
    Fan {
        name: "CPU fan".to_string(),
        index: 0,
        thresholds,
        current_threshold: level,
        fan_speed: 0,
        last_written_speed: None,
    }
}

#[test]
fn at_or_above_the_last_upper_bound_the_last_level_is_chosen() {
    for level in 0..6 {
        assert_eq!(select_threshold(&curve(), level, 71), 5);
        assert_eq!(select_threshold(&curve(), level, 100), 5);
        assert_eq!(select_threshold(&curve(), level, 255), 5);
    }
}

#[test]
fn within_its_bounds_a_level_stays() {
    assert_eq!(select_threshold(&curve(), 1, 48), 1);
    assert_eq!(select_threshold(&curve(), 1, 60), 1);
    assert_eq!(select_threshold(&curve(), 2, 60), 2);
    assert_eq!(select_threshold(&curve(), 3, 60), 3);
    assert_eq!(select_threshold(&curve(), 4, 63), 4);
    assert_eq!(select_threshold(&curve(), 5, 67), 5);
    assert_eq!(select_threshold(&curve(), 0, 0), 0);
}

#[test]
fn at_or_below_the_first_lower_bound_the_first_level_is_chosen() {
    for level in 1..6 {
        assert_eq!(select_threshold(&curve(), level, 47), 0);
        assert_eq!(select_threshold(&curve(), level, 0), 0);
    }
    // The bound itself belongs to the first level, unless the level at hand holds it.
    assert_eq!(select_threshold(&curve(), 2, 48), 0);
    assert_eq!(select_threshold(&curve(), 1, 48), 1);
}

#[test]
fn outside_its_bounds_a_level_gives_way_to_the_one_that_is_found() {
    // From the first level up.
    assert_eq!(select_threshold(&curve(), 0, 49), 1);
    // Three thresholds hold 62; the search ends at the one in the middle of the curve.
    assert_eq!(select_threshold(&curve(), 0, 62), 3);
    assert_eq!(select_threshold(&curve(), 0, 64), 3);
    assert_eq!(select_threshold(&curve(), 0, 67), 5);
    assert_eq!(select_threshold(&curve(), 0, 70), 5);
    assert_eq!(binary_search(&curve(), 62), Some(3));
    assert_eq!(binary_search(&curve(), 67), Some(5));
    assert_eq!(binary_search(&curve(), 58), Some(1));
    // From the last level down.
    assert_eq!(select_threshold(&curve(), 5, 66), 3);
    assert_eq!(select_threshold(&curve(), 5, 58), 1);
    assert_eq!(select_threshold(&curve(), 5, 54), 1);
}

#[test]
fn a_temperature_that_no_threshold_holds_changes_nothing() {
    let gaps = vec![threshold(0, 0, 0.0), threshold(50, 40, 50.0), threshold(70, 60, 100.0)];
    assert_eq!(select_threshold(&gaps, 0, 55), 0);
    assert_eq!(select_threshold(&gaps, 1, 55), 1);
    assert_eq!(select_threshold(&gaps, 2, 55), 2);
    assert_eq!(binary_search(&gaps, 55), None);
    assert_eq!(binary_search(&gaps, 45), Some(1));
    assert_eq!(binary_search(&gaps, 70), Some(2));
    assert_eq!(binary_search(&gaps, 0), Some(0));
    assert_eq!(binary_search(&Vec::new(), 0), None);
}

#[test]
fn a_single_threshold_is_always_chosen() {
    let single = vec![threshold(50, 40, 100.0)];
    for temp in [0u8, 39, 40, 45, 50, 51, 255] {
        assert_eq!(select_threshold(&single, 0, temp), 0);
    }
}

#[test]
fn the_first_lower_bound_other_than_zero_is_found() {
    assert_eq!(find_first_nonzero_down(&curve()), Some(48));
    assert_eq!(find_first_nonzero_down(&vec![threshold(0, 0, 0.0)]), None);
    assert_eq!(find_first_nonzero_down(&Vec::new()), None);
    assert_eq!(
        find_first_nonzero_down(&vec![threshold(5, 0, 0.0), threshold(9, 0, 1.0), threshold(9, 7, 2.0)]),
        Some(7)
    );
    assert_eq!(find_first_nonzero_down(&vec![threshold(50, 40, 100.0)]), Some(40));
}

#[test]
fn a_fan_reports_the_speed_of_a_new_level_only() {
    let mut fan = fan_with(curve(), 0);
    assert_eq!(fan.refresh_fan_threshold(30), None);
    assert_eq!(fan.current_threshold, 0);
    assert_eq!(fan.refresh_fan_threshold(50), Some(pct(10.0)));
    assert_eq!(fan.current_threshold, 1);
    assert!(fan.current_threshold().same_values(&threshold(60, 48, 10.0)));
    assert_eq!(fan.refresh_fan_threshold(55), None);
    assert_eq!(fan.refresh_fan_threshold(80), Some(pct(100.0)));
    assert_eq!(fan.current_threshold, 5);
    // Still above the last upper bound: the level is the same, nothing is reported.
    assert_eq!(fan.refresh_fan_threshold(90), None);
    assert_eq!(fan.refresh_fan_threshold(67), None);
    assert_eq!(fan.refresh_fan_threshold(66), Some(pct(50.0)));
    assert_eq!(fan.current_threshold, 3);
    assert_eq!(fan.refresh_fan_threshold(10), Some(pct(0.0)));
    assert_eq!(fan.name, "CPU fan");
}

fn levels(thresholds: &Vec<TemperatureThreshold>, start: usize, temps: &[u8]) -> Vec<usize> {
    let mut level = start;
    let mut seen = Vec::new();
    for temp in temps {
        level = select_threshold(thresholds, level, *temp);
        seen.push(level);
    }
    seen
}

#[test]
fn a_rising_sweep_never_lowers_the_level() {
    let rising: Vec<u8> = (0..=90).collect();
    let seen = levels(&curve(), 0, &rising);
    assert!(seen.windows(2).all(|w| w[0] <= w[1]));
    assert_eq!(seen[0], 0);
    assert_eq!(seen[48], 0);
    assert_eq!(seen[49], 1);
    assert_eq!(seen[60], 1);
    assert_eq!(seen[61], 3);
    assert_eq!(seen[66], 3);
    assert_eq!(seen[67], 5);
    assert_eq!(seen[90], 5);
    // A list that is not in order, and that has a threshold upside down.
    let odd = vec![
        threshold(12, 10, 1.0),
        threshold(3, 9, 2.0),
        threshold(30, 2, 3.0),
        threshold(8, 8, 4.0),
        threshold(40, 35, 5.0),
    ];
    let seen = levels(&odd, 0, &rising);
    assert!(seen.windows(2).all(|w| w[0] <= w[1]));
    // With jumps.
    let seen = levels(&curve(), 0, &[0, 0, 49, 49, 62, 70, 70, 255]);
    assert_eq!(seen, vec![0, 0, 1, 1, 3, 5, 5, 5]);
}

#[test]
fn a_falling_sweep_never_raises_the_level() {
    let falling: Vec<u8> = (0..=90).rev().collect();
    for start in 0..6 {
        let seen = levels(&curve(), start, &falling);
        assert!(seen.windows(2).all(|w| w[0] >= w[1]));
        assert_eq!(seen[0], 5);
        assert_eq!(*seen.last().unwrap(), 0);
        assert_eq!(seen[90 - 67], 5);
        assert_eq!(seen[90 - 66], 3);
        assert_eq!(seen[90 - 59], 3);
        assert_eq!(seen[90 - 58], 1);
        assert_eq!(seen[90 - 48], 1);
        assert_eq!(seen[90 - 47], 0);
    }
    let odd = vec![
        threshold(12, 10, 1.0),
        threshold(3, 9, 2.0),
        threshold(30, 2, 3.0),
        threshold(8, 8, 4.0),
        threshold(40, 35, 5.0),
    ];
    for start in 0..5 {
        let seen = levels(&odd, start, &falling);
        assert!(seen.windows(2).all(|w| w[0] >= w[1]));
    }
}

#[test]
fn a_falling_sweep_from_a_gap_may_raise_the_level() {
    // The sweep starts below the last upper bound, in a gap of the curve,
    // with a fan at its first level: nothing holds 55, and 45 is found.
    let gaps = vec![threshold(0, 0, 0.0), threshold(50, 40, 50.0), threshold(70, 60, 100.0)];
    assert_eq!(levels(&gaps, 0, &[55, 45]), vec![0, 1]);
}

#[test]
fn hysteresis_keeps_a_level_between_its_bounds() {
    // Up to the level of 50 %, then back: the level is left at its own bounds only.
    let seen = levels(&curve(), 0, &[50, 61, 60, 59, 58, 50, 48, 47]);
    assert_eq!(seen, vec![1, 3, 3, 3, 1, 1, 1, 0]);
}

#[test]
fn sorting_orders_by_lower_bound_and_keeps_ties_in_place() {
    let mixed = vec![
        threshold(71, 67, 100.0),
        threshold(60, 48, 10.0),
        threshold(1, 0, 0.0),
        threshold(61, 48, 11.0),
        threshold(2, 0, 1.0),
        threshold(62, 48, 12.0),
    ];
    let sorted = sort_thresholds(&mixed);
    let expected = vec![
        threshold(1, 0, 0.0),
        threshold(2, 0, 1.0),
        threshold(60, 48, 10.0),
        threshold(61, 48, 11.0),
        threshold(62, 48, 12.0),
        threshold(71, 67, 100.0),
    ];
    assert_eq!(sorted.len(), expected.len());
    assert!(sorted.iter().zip(expected.iter()).all(|(s, e)| s.same_values(e)));
    assert!(sort_thresholds(&Vec::new()).is_empty());
    let again = sort_thresholds(&sorted);
    assert!(again.iter().zip(expected.iter()).all(|(s, e)| s.same_values(e)));
}
