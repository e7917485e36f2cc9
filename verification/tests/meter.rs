use jetpack::App;
use jetpack::HeatState;
use jetpack::HeldKeys;

fn up_held() -> HeldKeys {
    HeldKeys { up: true, ..HeldKeys::none() }
}

#[test]
fn thrust_drains_meter_and_lifts() {
    let mut app = App::new();
    app.process_input(&up_held(), 100);
    // cost 0.1 * 1.5 = 0.15; at the baseline size the weight factor is 1.0,
    // so the impulse is the base 0.15
    assert_eq!(app.meter, 850);
    assert_eq!(app.vel_y, 2_850);
    assert_eq!(app.heat, HeatState::Normal);
}

#[test]
fn thrust_impulse_scales_with_size() {
    // a smaller square is lighter: size 25.0 gives weight 1.0 + 25.0*0.02 =
    // 1.5, impulse 0.225
    let mut small = App::new();
    small.square_size = 25_000;
    small.process_input(&up_held(), 100);
    assert_eq!(small.vel_y, 3_000 - 225);

    // a larger square is heavier: size 70.0 gives weight 1.0 - 20.0*0.02 =
    // 0.6, impulse 0.09
    let mut large = App::new();
    large.square_size = 70_000;
    large.process_input(&up_held(), 100);
    assert_eq!(large.vel_y, 3_000 - 90);
}

#[test]
fn exhausting_thrust_attempt_overheats() {
    // a full meter of 1.0 cannot pay a cost of 1.0 * 1.5: the attempt
    // overheats instead of draining, and the velocity is untouched
    let mut app = App::new();
    app.process_input(&up_held(), 1_000);
    assert_eq!(app.heat, HeatState::Overheated);
    assert_eq!(app.meter, 1_000);
    assert_eq!(app.vel_y, 3_000);
    assert_eq!(app.vel_x, 3_000);
}

#[test]
fn overheat_with_full_meter_clears_in_meter_phase() {
    // the same exhausting attempt, run through a whole frame: the meter is
    // already full, so the meter phase clears the fresh overheat at once
    let mut app = App::new();
    app.update(&up_held(), 1_000);
    assert_eq!(app.heat, HeatState::Normal);
    assert_eq!(app.meter, 1_000);
}

#[test]
fn overheat_with_low_meter_persists() {
    let mut app = App::new();
    app.meter = 400;
    app.update(&up_held(), 1_000);
    // cost 1.5 exceeds 0.4: overheat; then one second of the slower
    // overheated regeneration, 0.25
    assert_eq!(app.heat, HeatState::Overheated);
    assert_eq!(app.meter, 650);
}

#[test]
fn thrust_is_no_op_while_overheated() {
    let mut app = App::new();
    app.meter = 500;
    app.heat = HeatState::Overheated;
    app.process_input(&up_held(), 100);
    assert_eq!(app.heat, HeatState::Overheated);
    assert_eq!(app.meter, 500);
    assert_eq!(app.vel_y, 3_000);

    let mut app2 = App::new();
    app2.meter = 500;
    app2.heat = HeatState::Overheated;
    app2.update(&up_held(), 100);
    // still locked out; only the slow regeneration ran: 0.1 * 0.25
    assert_eq!(app2.heat, HeatState::Overheated);
    assert_eq!(app2.meter, 525);
}

#[test]
fn overheat_clears_exactly_at_full_meter() {
    let mut app = App::new();
    app.meter = 990;
    app.heat = HeatState::Overheated;
    app.update(&HeldKeys::none(), 100);
    // 0.99 + 0.025 caps at the full meter, and the lockout ends on the
    // same frame
    assert_eq!(app.heat, HeatState::Normal);
    assert_eq!(app.meter, 1_000);
}

#[test]
fn regeneration_caps_at_full() {
    let mut app = App::new();
    app.meter = 900;
    app.update(&HeldKeys::none(), 1_000);
    assert_eq!(app.meter, 1_000);
}

#[test]
fn meter_never_drains_without_thrust() {
    let mut app = App::new();
    app.meter = 300;
    let keys = HeldKeys { left: true, right: true, grow: true, shrink: true, ..HeldKeys::none() };
    app.update(&keys, 200);
    // every other key held: the meter only regenerated, 0.3 + 0.2 * 0.5
    assert_eq!(app.meter, 400);
}
