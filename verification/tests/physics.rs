use jetpack::App;
use jetpack::Config;
use jetpack::HeatState;
use jetpack::HeldKeys;

fn frictionless(bounce_factor: i64, gravity: i64) -> Config {
    Config {
        gravity,
        bounce_factor,
        friction: 0,
        noise: 0,
        thrust_cost_rate: 1500,
        regen_rate: 500,
        overheat_regen_rate: 250,
        bounce_ceiling: false,
    }
}

#[test]
fn new_defaults() {
    let app = App::new();
    assert_eq!(app.pos_x, 375_000);
    assert_eq!(app.pos_y, 275_000);
    assert_eq!(app.vel_x, 3_000);
    assert_eq!(app.vel_y, 3_000);
    assert_eq!(app.meter, 1_000);
    assert_eq!(app.square_size, 50_000);
    assert_eq!(app.heat, HeatState::Normal);
    assert_eq!(app.cfg, Config::jetpack());
}

#[test]
fn floor_bounce_reverses_and_damps() {
    // Gravity off, bounce factor 0.9: the square drifts down-right from the
    // center until the predicted vertical position would pass the floor, and
    // that frame reverses the vertical velocity to -2.7 before the move.
    let mut app = App::with_config(frictionless(900, 0));
    let keys = HeldKeys::none();
    let mut guard: i32 = 0;
    while app.pos_y + app.vel_y <= 550_000 {
        app.update(&keys, 16);
        guard += 1;
        assert!(guard < 200);
    }
    let py_before: i64 = app.pos_y;
    app.update(&keys, 16);
    assert_eq!(app.vel_y, -2_700);
    assert_eq!(app.pos_y, py_before - 2_700);
}

#[test]
fn right_wall_bounce_overshoots_once() {
    let mut app = App::with_config(frictionless(900, 0));
    app.pos_x = 748_000;
    app.vel_x = 3_000;
    app.vel_y = 0;
    app.update(&HeldKeys::none(), 16);
    // predicted 751.0 passes the right boundary 750.0: velocity flips to
    // -2.7 and the position still moves by it, ending past the boundary
    // untouched by any clamp
    assert_eq!(app.vel_x, -2_700);
    assert_eq!(app.pos_x, 748_000 - 2_700);
    assert!(app.pos_x < 750_000);
}

#[test]
fn left_wall_bounce() {
    let mut app = App::with_config(frictionless(900, 0));
    app.pos_x = 1_000;
    app.vel_x = -3_000;
    app.vel_y = 0;
    app.update(&HeldKeys::none(), 16);
    assert_eq!(app.vel_x, 2_700);
    assert_eq!(app.pos_x, 3_700);
}

#[test]
fn ceiling_bounces_only_in_arcade_profile() {
    let mut app = App::with_config(Config::arcade());
    app.pos_y = 2_000;
    app.vel_y = -3_000;
    app.vel_x = 0;
    app.update(&HeldKeys::none(), 16);
    assert_eq!(app.vel_y, 1_500);
    assert_eq!(app.pos_y, 3_500);
}

#[test]
fn no_ceiling_bounce_under_gravity() {
    let mut app = App::new();
    app.pos_y = 2_000;
    app.vel_y = -20_000;
    app.vel_x = 0;
    app.update(&HeldKeys::none(), 0);
    // dt = 0 adds no gravity; the square leaves through the ceiling untouched
    assert_eq!(app.vel_y, -20_000);
    assert_eq!(app.pos_y, -18_000);
}

#[test]
fn gravity_accelerates_downward() {
    let mut app = App::new();
    app.update(&HeldKeys::none(), 1_000);
    // one second of gravity at 9.8: velocity 3.0 -> 12.8, then one move step
    assert_eq!(app.vel_y, 12_800);
    assert_eq!(app.pos_y, 287_800);
    assert_eq!(app.vel_x, 3_000);
    assert_eq!(app.pos_x, 378_000);
}

#[test]
fn floor_contact_damps_horizontal_velocity() {
    let mut app = App::with_config(Config {
        gravity: 0,
        bounce_factor: 500,
        friction: 9,
        noise: 10,
        thrust_cost_rate: 1500,
        regen_rate: 500,
        overheat_regen_rate: 250,
        bounce_ceiling: false,
    });
    app.pos_y = 548_000;
    app.vel_y = 3_000;
    app.vel_x = 3_000;
    app.update(&HeldKeys::none(), 16);
    // floor bounce halves and flips the fall; the landing position 546.5 is
    // inside the contact band (above 544.5), so friction takes 0.9% of the
    // horizontal velocity: 3.0 - 0.027
    assert_eq!(app.vel_y, -1_500);
    assert_eq!(app.pos_y, 546_500);
    assert_eq!(app.vel_x, 2_973);
    assert_eq!(app.pos_x, 378_000);
}

#[test]
fn steering_keys_accelerate() {
    let mut app = App::new();
    let right = HeldKeys { right: true, ..HeldKeys::none() };
    app.update(&right, 0);
    assert_eq!(app.vel_x, 3_100);
    assert_eq!(app.pos_x, 375_000 + 3_100);

    let mut app2 = App::new();
    let left = HeldKeys { left: true, ..HeldKeys::none() };
    app2.update(&left, 0);
    assert_eq!(app2.vel_x, 2_900);

    let mut app3 = App::new();
    let both = HeldKeys { left: true, right: true, ..HeldKeys::none() };
    app3.update(&both, 0);
    assert_eq!(app3.vel_x, 3_000);
}

#[test]
fn zero_dt_rest_state_is_fixed() {
    let mut app = App::new();
    app.vel_x = 0;
    app.vel_y = 0;
    app.meter = 700;
    let before = app;
    app.update(&HeldKeys::none(), 0);
    assert_eq!(app, before);
}
