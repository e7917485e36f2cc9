use jetpack::App;
use jetpack::HeatState;
use jetpack::MeterColor;

#[test]
fn render_square_geometry() {
    let mut app = App::new();
    app.pos_x = 120_000;
    app.pos_y = 80_000;
    app.square_size = 60_000;
    let rp = app.render_params();
    assert_eq!(rp.square_x, 120_000);
    assert_eq!(rp.square_y, 80_000);
    assert_eq!(rp.square_side, 60_000);
    assert_eq!(rp.bar_x, 10_000);
    assert_eq!(rp.bar_y, 10_000);
    assert_eq!(rp.bar_width, 30_000);
}

#[test]
fn render_full_meter_is_healthy_and_empty_bar() {
    let app = App::new();
    let rp = app.render_params();
    assert_eq!(rp.bar_fill, 0);
    assert_eq!(rp.color, MeterColor::Healthy);
}

#[test]
fn render_low_meter_fill_and_color() {
    let mut app = App::new();
    app.meter = 250;
    let rp = app.render_params();
    // three quarters spent: fill 0.75 * 80.0
    assert_eq!(rp.bar_fill, 60_000);
    assert_eq!(rp.color, MeterColor::Low);
}

#[test]
fn render_half_meter_is_still_healthy() {
    let mut app = App::new();
    app.meter = 500;
    let rp = app.render_params();
    assert_eq!(rp.bar_fill, 40_000);
    assert_eq!(rp.color, MeterColor::Healthy);
}

#[test]
fn render_overheat_overrides_meter_color() {
    let mut app = App::new();
    app.meter = 800;
    app.heat = HeatState::Overheated;
    let rp = app.render_params();
    assert_eq!(rp.bar_fill, 16_000);
    assert_eq!(rp.color, MeterColor::Overheated);
}
