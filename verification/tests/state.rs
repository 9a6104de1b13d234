use tui_slider::SliderState;

fn ratio_as_f64(state: &SliderState) -> f64 {
    let p = state.percentage();
    p.num as f64 / p.den as f64
}

#[test]
fn test_new_state() {
    let state = SliderState::new(50, 0, 100);
    assert_eq!(state.value(), 50);
    assert_eq!(state.min(), 0);
    assert_eq!(state.max(), 100);
}

#[test]
fn test_clamping() {
    let mut state = SliderState::new(50, 0, 100);

    state.set_value(150);
    assert_eq!(state.value(), 100);

    state.set_value(-50);
    assert_eq!(state.value(), 0);
}

#[test]
fn test_percentage() {
    let state = SliderState::new(50, 0, 100);
    assert_eq!(ratio_as_f64(&state), 0.5);

    let state = SliderState::new(25, 0, 100);
    assert_eq!(ratio_as_f64(&state), 0.25);

    let state = SliderState::new(0, 0, 100);
    assert_eq!(ratio_as_f64(&state), 0.0);

    let state = SliderState::new(100, 0, 100);
    assert_eq!(ratio_as_f64(&state), 1.0);
}

#[test]
fn test_set_percentage() {
    let mut state = SliderState::new(0, 0, 100);
    state.set_percentage(50, 100);
    assert_eq!(state.value(), 50);

    state.set_percentage(25, 100);
    assert_eq!(state.value(), 25);
}

#[test]
fn test_increase_decrease() {
    let mut state = SliderState::new(50, 0, 100);

    state.increase(10);
    assert_eq!(state.value(), 60);

    state.set_value(50); // Reset
    state.decrease(10);
    assert_eq!(state.value(), 40);
}

#[test]
fn test_position() {
    let state = SliderState::new(50, 0, 100);
    assert_eq!(state.position(100), 50);

    let state = SliderState::new(25, 0, 100);
    assert_eq!(state.position(100), 25);
}

#[test]
fn test_set_from_position() {
    let mut state = SliderState::new(0, 0, 100);
    state.set_from_position(50, 100);
    assert_eq!(state.value(), 50);
}

#[test]
fn test_default_step() {
    let state = SliderState::new(50, 0, 100);
    assert_eq!(state.step(), 1);
}

#[test]
fn test_set_step() {
    let mut state = SliderState::new(50, 0, 100);
    state.set_step(5);
    assert_eq!(state.step(), 5);

    state.set_step(10);
    assert_eq!(state.step(), 10);
}

#[test]
fn test_step_up() {
    let mut state = SliderState::new(50, 0, 100);
    state.set_step(5);

    state.step_up();
    assert_eq!(state.value(), 55);

    state.step_up();
    assert_eq!(state.value(), 60);
}

#[test]
fn test_step_down() {
    let mut state = SliderState::new(50, 0, 100);
    state.set_step(5);

    state.step_down();
    assert_eq!(state.value(), 45);

    state.step_down();
    assert_eq!(state.value(), 40);
}

#[test]
fn test_step_up_clamping() {
    let mut state = SliderState::new(95, 0, 100);
    state.set_step(10);

    state.step_up();
    assert_eq!(state.value(), 100); // Clamped to max
}

#[test]
fn test_step_down_clamping() {
    let mut state = SliderState::new(5, 0, 100);
    state.set_step(10);

    state.step_down();
    assert_eq!(state.value(), 0); // Clamped to min
}

#[test]
fn test_with_step() {
    let state = SliderState::with_step(50, 0, 100, 5);
    assert_eq!(state.value(), 50);
    assert_eq!(state.min(), 0);
    assert_eq!(state.max(), 100);
    assert_eq!(state.step(), 5);
}

#[test]
fn test_with_step_operations() {
    // A step of 2.5 display units, with the state held in tenths.
    let mut state = SliderState::with_step(500, 0, 1000, 25);

    state.step_up();
    assert_eq!(state.value(), 525);

    state.step_down();
    assert_eq!(state.value(), 500);
}

#[test]
fn test_different_step_sizes() {
    // Steps of 0.1 and 25 display units, with the state held in tenths.
    let mut state = SliderState::new(500, 0, 1000);

    state.set_step(1);
    state.step_up();
    assert_eq!(state.value(), 501);

    state.set_value(500);
    state.set_step(250);
    state.step_up();
    assert_eq!(state.value(), 750);
}

#[test]
fn test_slider_state() {
    let mut state = SliderState::new(50, 0, 100);
    assert_eq!(state.value(), 50);

    state.set_value(75);
    assert_eq!(state.value(), 75);

    state.set_value(150); // Should clamp to max
    assert_eq!(state.value(), 100);

    state.set_value(-10); // Should clamp to min
    assert_eq!(state.value(), 0);
}

#[test]
fn lib_test_slider_percentage() {
    let state = SliderState::new(50, 0, 100);
    assert_eq!(ratio_as_f64(&state), 0.5);

    let state = SliderState::new(25, 0, 100);
    assert_eq!(ratio_as_f64(&state), 0.25);
}

#[test]
fn test_set_min_set_max_reclamp() {
    let mut state = SliderState::new(50, 0, 100);
    state.set_min(60);
    assert_eq!(state.min(), 60);
    assert_eq!(state.value(), 60);

    let mut state = SliderState::new(50, 0, 100);
    state.set_max(40);
    assert_eq!(state.max(), 40);
    assert_eq!(state.value(), 40);
}

#[test]
fn test_clamping_invariant_samples() {
    for v in [-1000, -1, 0, 1, 37, 99, 100, 101, 100000] {
        let state = SliderState::new(v, 0, 100);
        assert!(state.value() >= 0 && state.value() <= 100);
    }
    let state = SliderState::new(i64::MIN, -5, 5);
    assert_eq!(state.value(), -5);
    let state = SliderState::new(i64::MAX, -5, 5);
    assert_eq!(state.value(), 5);
}

#[test]
fn test_percentage_round_trip_samples() {
    // Exact when the range absorbs the fraction.
    let mut state = SliderState::new(0, 0, 1000);
    state.set_percentage(37, 100);
    assert_eq!(state.value(), 370);
    let p = state.percentage();
    assert_eq!((p.num, p.den), (370, 1000));

    // Otherwise off by at most half a denominator unit: |v*den - num*range|
    // <= den / 2.
    let mut state = SliderState::new(0, 0, 3);
    state.set_percentage(1, 2);
    assert_eq!(state.value(), 2); // 1.5 rounded up
    let p = state.percentage();
    let err = (p.num as i128 * 2 - p.den as i128).abs();
    assert!(2 * err <= 2); // doubled form of err <= den/2 with den == 2
}

#[test]
fn test_percentage_degenerate_range_excluded() {
    // Bounds are strictly ordered, so the percentage denominator is the
    // range itself and never zero.
    let state = SliderState::new(7, 7, 8);
    let p = state.percentage();
    assert_eq!((p.num, p.den), (0, 1));
}

#[test]
fn test_is_predicates() {
    let state = SliderState::new(0, 0, 100);
    assert!(state.is_at_min());
    assert!(!state.is_at_max());
    assert!(!state.is_at_middle());
    assert!(state.is_low());
    assert!(!state.is_medium());
    assert!(!state.is_high());

    let state = SliderState::new(50, 0, 100);
    assert!(state.is_at_middle());
    assert!(state.is_medium());

    let state = SliderState::new(80, 0, 100);
    assert!(state.is_high());
}

#[test]
fn test_distances_and_range() {
    let state = SliderState::new(75, 25, 100);
    assert_eq!(state.range(), 75);
    assert_eq!(state.distance_from_min(), 50);
    assert_eq!(state.distance_from_max(), 25);
}

#[test]
fn test_value_string() {
    let state = SliderState::new(75, 0, 100);
    assert_eq!(state.value_string(0), "75");
    assert_eq!(state.value_string(1), "75.0");
    assert_eq!(state.value_string(3), "75.000");

    let state = SliderState::new(-12, -100, 100);
    assert_eq!(state.value_string(0), "-12");
}

#[test]
fn test_percentage_string() {
    let state = SliderState::new(75, 0, 100);
    assert_eq!(state.percentage_string(), "75%");

    let state = SliderState::new(50, 0, 100);
    assert_eq!(state.percentage_string(), "50%");

    let state = SliderState::new(1, 0, 3);
    assert_eq!(state.percentage_string(), "33%");
}

#[test]
fn test_default_state() {
    let state = SliderState::default();
    assert_eq!(state.value(), 0);
    assert_eq!(state.min(), 0);
    assert_eq!(state.max(), 100);
    assert_eq!(state.step(), 1);
}

#[test]
fn test_position_round_trip() {
    let mut state = SliderState::new(0, 0, 100);
    state.set_from_position(25, 100);
    assert_eq!(state.value(), 25);
    assert_eq!(state.position(100), 25);

    // Zero length is a no-op.
    state.set_from_position(7, 0);
    assert_eq!(state.value(), 25);
}
