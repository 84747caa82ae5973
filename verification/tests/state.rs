use wasm_hello::state::DECIMAL_MAX_UNITS;
use wasm_hello::state::DECIMAL_MIN_UNITS;
use wasm_hello::state::DECIMAL_UNITS_PER_WHOLE;
use wasm_hello::state::HelloState;

#[test]
fn fresh_state_defaults() {
    let s = HelloState::new();
    assert_eq!(s.get_counter(), 0);
    assert_eq!(s.get_message(), "Rust WASM is so Sigma!");
    assert_eq!(s.get_fave_gum(), "Hubba Bubba");
    assert_eq!(s.get_fave_ice_shape(), "Cube");
    assert_eq!(s.get_decimal(), 0);
}

#[test]
fn initialize_sets_counter() {
    let mut s = HelloState::new();
    s.initialize(42);
    assert_eq!(s.get_counter(), 42);
    s.initialize(-7);
    assert_eq!(s.get_counter(), -7);
}

#[test]
fn initialize_leaves_other_fields() {
    let mut s = HelloState::new();
    s.set_message(String::from("hello"));
    s.set_decimal(12_345);
    s.initialize(99);
    assert_eq!(s.get_message(), "hello");
    assert_eq!(s.get_decimal(), 12_345);
    assert_eq!(s.get_fave_gum(), "Hubba Bubba");
}

#[test]
fn increment_adds_one_each_time() {
    let mut s = HelloState::new();
    s.increment_counter();
    s.increment_counter();
    s.increment_counter();
    assert_eq!(s.get_counter(), 3);
}

#[test]
fn initialize_then_increment_thrice() {
    let mut s = HelloState::new();
    s.initialize(5);
    s.increment_counter();
    s.increment_counter();
    s.increment_counter();
    assert_eq!(s.get_counter(), 8);
}

#[test]
fn increment_wraps_at_top() {
    let mut s = HelloState::new();
    s.initialize(i32::MAX);
    s.increment_counter();
    assert_eq!(s.get_counter(), i32::MIN);
}

#[test]
fn message_round_trip() {
    let mut s = HelloState::new();
    s.set_message(String::from("a new message"));
    assert_eq!(s.get_message(), "a new message");
    s.set_message(String::new());
    assert_eq!(s.get_message(), "");
}

#[test]
fn gum_round_trip() {
    let mut s = HelloState::new();
    s.set_fave_gum(String::from("Juicy Fruit"));
    assert_eq!(s.get_fave_gum(), "Juicy Fruit");
}

#[test]
fn ice_shape_round_trip() {
    let mut s = HelloState::new();
    s.set_fave_ice_shape(String::from("Crushed"));
    assert_eq!(s.get_fave_ice_shape(), "Crushed");
}

#[test]
fn setters_touch_only_their_field() {
    let mut s = HelloState::new();
    s.set_fave_gum(String::from("Bazooka"));
    assert_eq!(s.get_message(), "Rust WASM is so Sigma!");
    assert_eq!(s.get_fave_ice_shape(), "Cube");
    assert_eq!(s.get_counter(), 0);
    s.set_fave_ice_shape(String::from("Sphere"));
    assert_eq!(s.get_fave_gum(), "Bazooka");
    s.set_message(String::from("x"));
    assert_eq!(s.get_fave_ice_shape(), "Sphere");
}

#[test]
fn decimal_in_range_is_kept() {
    let mut s = HelloState::new();
    s.set_decimal(31_416);
    assert_eq!(s.get_decimal(), 31_416);
    s.set_decimal(-99_999);
    assert_eq!(s.get_decimal(), -99_999);
    s.set_decimal(0);
    assert_eq!(s.get_decimal(), 0);
}

#[test]
fn decimal_bounds_are_kept_unchanged() {
    let mut s = HelloState::new();
    s.set_decimal(DECIMAL_MIN_UNITS);
    assert_eq!(s.get_decimal(), DECIMAL_MIN_UNITS);
    s.set_decimal(DECIMAL_MAX_UNITS);
    assert_eq!(s.get_decimal(), DECIMAL_MAX_UNITS);
}

#[test]
fn decimal_just_outside_bounds_is_clamped() {
    let mut s = HelloState::new();
    s.set_decimal(DECIMAL_MIN_UNITS - 1);
    assert_eq!(s.get_decimal(), DECIMAL_MIN_UNITS);
    s.set_decimal(DECIMAL_MAX_UNITS + 1);
    assert_eq!(s.get_decimal(), DECIMAL_MAX_UNITS);
}

#[test]
fn decimal_far_outside_bounds_is_clamped() {
    let mut s = HelloState::new();
    s.set_decimal(i64::MIN);
    assert_eq!(s.get_decimal(), DECIMAL_MIN_UNITS);
    s.set_decimal(i64::MAX);
    assert_eq!(s.get_decimal(), DECIMAL_MAX_UNITS);
}

#[test]
fn decimal_matches_float_boundary_examples() {
    // -10.0001 and 10.0001, written in ten-thousandths, clamp to the bounds;
    // -10.0 and 10.0 are returned unchanged.
    let mut s = HelloState::new();
    let just_below: i64 = (-10.0001_f64 * DECIMAL_UNITS_PER_WHOLE as f64).round() as i64;
    s.set_decimal(just_below);
    assert_eq!(s.get_decimal() as f64 / DECIMAL_UNITS_PER_WHOLE as f64, -10.0);
    let just_above: i64 = (10.0001_f64 * DECIMAL_UNITS_PER_WHOLE as f64).round() as i64;
    s.set_decimal(just_above);
    assert_eq!(s.get_decimal() as f64 / DECIMAL_UNITS_PER_WHOLE as f64, 10.0);
    let at_bound: i64 = (-10.0_f64 * DECIMAL_UNITS_PER_WHOLE as f64).round() as i64;
    s.set_decimal(at_bound);
    assert_eq!(s.get_decimal() as f64 / DECIMAL_UNITS_PER_WHOLE as f64, -10.0);
}
