use avionics_sw_hapsis::history::{History, HISTORY_LEN};

const SEA_LEVEL_HPA: f32 = 1013.25;

fn altitude_of(pressure: f32) -> f32 {
    44330.0 * (1.0 - libm::powf(pressure / SEA_LEVEL_HPA, 1.0 / 5.255))
}

fn mean(history: &History<f32>) -> f32 {
    let window = history.snapshot();
    let sum: f32 = window.iter().sum();
    sum / window.len() as f32
}

#[test]
fn window_has_ten_slots() {
    assert_eq!(HISTORY_LEN, 10);
    assert_eq!(History::new(0u8).snapshot().len(), 10);
}

#[test]
fn new_history_is_filled_with_the_seed() {
    let history = History::new(7i32);
    assert_eq!(history.snapshot(), [7; 10]);
    for age in 0..10 {
        assert_eq!(history.get(age), 7);
    }
}

#[test]
fn push_puts_the_value_in_front_and_evicts_the_oldest() {
    let mut history = History::new(0i32);
    history.push(1);
    assert_eq!(history.snapshot(), [1, 0, 0, 0, 0, 0, 0, 0, 0, 0]);
    history.push(2);
    history.push(3);
    assert_eq!(history.snapshot(), [3, 2, 1, 0, 0, 0, 0, 0, 0, 0]);
    assert_eq!(history.get(0), 3);
    assert_eq!(history.get(2), 1);
    assert_eq!(history.get(9), 0);
}

#[test]
fn ten_pushes_replace_the_window() {
    let mut history = History::new(-1i32);
    for value in 1..=10 {
        history.push(value);
    }
    assert_eq!(history.snapshot(), [10, 9, 8, 7, 6, 5, 4, 3, 2, 1]);
    history.push(11);
    assert_eq!(history.snapshot(), [11, 10, 9, 8, 7, 6, 5, 4, 3, 2]);
}

#[test]
fn window_keeps_the_last_ten_over_many_pushes() {
    let mut history = History::new(0u32);
    for value in 1..=37u32 {
        history.push(value);
    }
    assert_eq!(history.snapshot(), [37, 36, 35, 34, 33, 32, 31, 30, 29, 28]);
}

#[test]
fn sea_level_pressure_converges_to_zero_metres() {
    let mut history = History::new(0.0f32);
    for _ in 0..10 {
        history.push(altitude_of(1013.25));
    }
    assert!(mean(&history).abs() < 1e-3);
}

#[test]
fn sea_level_pressure_replaces_an_earlier_climb() {
    let mut history = History::new(0.0f32);
    for _ in 0..10 {
        history.push(altitude_of(900.0));
    }
    assert!(mean(&history) > 900.0);
    for _ in 0..10 {
        history.push(altitude_of(1013.25));
    }
    assert!(mean(&history).abs() < 1e-3);
}

#[test]
fn early_output_is_biased_towards_the_zero_seed() {
    let mut history = History::new(0.0f32);
    let altitude = altitude_of(900.0);
    history.push(altitude);
    assert!((mean(&history) - altitude / 10.0).abs() < 1e-2);
    history.push(altitude);
    history.push(altitude);
    assert!((mean(&history) - 3.0 * altitude / 10.0).abs() < 1e-2);
}

#[test]
fn one_outlier_moves_the_mean_by_a_tenth_of_its_delta() {
    let base = altitude_of(1000.0);
    let outlier = altitude_of(800.0);
    let mut steady = History::new(0.0f32);
    let mut disturbed = History::new(0.0f32);
    for _ in 0..10 {
        steady.push(base);
        disturbed.push(base);
    }
    steady.push(base);
    disturbed.push(outlier);
    let delta = outlier - base;
    for _ in 0..10 {
        let moved = mean(&disturbed) - mean(&steady);
        assert!(moved.abs() <= delta.abs() / 10.0 + 1e-2);
        assert!((moved - delta / 10.0).abs() < 1e-2);
        steady.push(base);
        disturbed.push(base);
    }
    // Ten pushes later the outlier has left the window.
    assert_eq!(mean(&disturbed), mean(&steady));
}

#[test]
fn barometric_formula_value() {
    // 44330 * (1 - (900 / 1013.25)^(1 / 5.255)) is about 988.5 m
    assert!((altitude_of(900.0) - 988.5).abs() < 0.5);
    assert!(altitude_of(1013.25).abs() < 1e-3);
}
