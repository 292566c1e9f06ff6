use eulers_dream::color::{random_color, Color};
use eulers_dream::flower::{App, Coord, FlowingPoint};
use eulers_dream::paint::Paint;

// Units used throughout: a thousandth of a pixel, a microsecond, and binary
// angles (2^64 to the turn).
const UNITS_PER_PIXEL: f64 = 1000.0;
const TICKS_PER_SECOND: f64 = 1_000_000.0;
const TURN: f64 = 18_446_744_073_709_551_616.0;

fn base_speed_units(radians_per_second_per_pixel: f64) -> u64 {
    (radians_per_second_per_pixel / std::f64::consts::TAU * TURN / TICKS_PER_SECOND / UNITS_PER_PIXEL)
        .round() as u64
}

fn radians(angle: u64) -> f64 {
    angle as f64 / TURN * std::f64::consts::TAU
}

fn radians_per_second(speed: u64) -> f64 {
    radians(speed) * TICKS_PER_SECOND
}

fn position(center: Coord, orbit_radius: u64, angle: u64) -> (f64, f64) {
    let a = radians(angle);
    let r = orbit_radius as f64 / UNITS_PER_PIXEL;
    (
        center.x as f64 / UNITS_PER_PIXEL + r * a.cos(),
        center.y as f64 / UNITS_PER_PIXEL + r * a.sin(),
    )
}

fn grey(v: u8) -> Color {
    Color { r: v, g: v, b: v, a: 255 }
}

fn three_point_app() -> App {
    let colors = vec![grey(10), grey(20), grey(30)];
    App::initialize(3, Coord { x: 500_000, y: 500_000 }, 1500, base_speed_units(0.02), 2500, &colors)
}

#[test]
fn initialize_three_points() {
    let app = three_point_app();
    let b = base_speed_units(0.02);
    let pts = app.points();
    assert_eq!(pts.len(), 3);
    let orbits: Vec<u64> = pts.iter().map(|p| p.orbit_radius).collect();
    assert_eq!(orbits, vec![1500, 3000, 4500]);
    let speeds: Vec<u64> = pts.iter().map(|p| p.speed).collect();
    assert_eq!(speeds, vec![1500 * b, 3000 * b, 4500 * b]);
    for (p, want) in pts.iter().zip([0.03, 0.06, 0.09]) {
        assert!((radians_per_second(p.speed) - want).abs() < 1e-9);
        assert_eq!(p.angle, 0);
        assert_eq!(p.radius, 2500);
    }
    assert_eq!(pts[0].color, grey(10));
    assert_eq!(pts[2].color, grey(30));
    assert_eq!(app.center(), Coord { x: 500_000, y: 500_000 });
}

#[test]
fn initial_positions_lie_on_the_orbits_at_angle_zero() {
    let app = three_point_app();
    for p in app.points() {
        let (x, y) = position(app.center(), p.orbit_radius, p.angle);
        assert!((x - (500.0 + p.orbit_radius as f64 / 1000.0)).abs() < 1e-9);
        assert!((y - 500.0).abs() < 1e-9);
    }
}

#[test]
fn advance_one_second() {
    let mut app = three_point_app();
    app.update(1_000_000);
    let pts = app.points();
    for (p, want) in pts.iter().zip([0.03, 0.06, 0.09]) {
        assert_eq!(p.angle, p.speed * 1_000_000);
        assert!((radians(p.angle) - want).abs() < 1e-9);
    }
    let (x, y) = position(app.center(), pts[0].orbit_radius, pts[0].angle);
    assert!((x - (500.0 + 1.5 * 0.03f64.cos())).abs() < 1e-9);
    assert!((y - (500.0 + 1.5 * 0.03f64.sin())).abs() < 1e-9);
}

#[test]
fn update_keeps_orbits_speeds_and_colors() {
    let mut app = three_point_app();
    let before: Vec<FlowingPoint> = app.points().clone();
    for dt in [16_667i64, 0, 33_333, -5_000, 1_000_000_000] {
        app.update(dt);
    }
    for (p, q) in app.points().iter().zip(before.iter()) {
        assert_eq!(p.orbit_radius, q.orbit_radius);
        assert_eq!(p.speed, q.speed);
        assert_eq!(p.radius, q.radius);
        assert_eq!(p.color, q.color);
    }
}

#[test]
fn zero_updates_change_nothing() {
    let mut app = three_point_app();
    app.update(250_000);
    let before: Vec<FlowingPoint> = app.points().clone();
    for _ in 0..5 {
        app.update(0);
    }
    assert_eq!(app.points(), &before);
}

#[test]
fn updates_add_up() {
    let mut split = three_point_app();
    let mut whole = three_point_app();
    split.update(123_456);
    split.update(7_654_321);
    whole.update(123_456 + 7_654_321);
    assert_eq!(split.points(), whole.points());
}

#[test]
fn negative_update_turns_back() {
    let mut app = three_point_app();
    app.update(2_000_000);
    app.update(-2_000_000);
    assert!(app.points().iter().all(|p| p.angle == 0));
    app.update(-1_000_000);
    let p = app.points()[0];
    assert_eq!(p.angle, 0u64.wrapping_sub(p.speed * 1_000_000));
    assert!((radians(p.angle) - (std::f64::consts::TAU - 0.03)).abs() < 1e-9);
}

#[test]
fn angle_wraps_after_a_full_turn() {
    let colors = vec![grey(0)];
    let mut app = App::initialize(1, Coord { x: 0, y: 0 }, 1, 1 << 62, 1, &colors);
    app.update(5);
    // 5 quarter turns are one turn and a quarter.
    assert_eq!(app.points()[0].angle, 1 << 62);
    app.update(i64::MAX);
    let want = ((1u128 << 62) + (1u128 << 62) * (i64::MAX as u128)) % (1u128 << 64);
    assert_eq!(app.points()[0].angle as u128, want);
}

#[test]
fn orbit_radii_increase_with_index() {
    let colors: Vec<Color> = (0..300).map(|i| grey(i as u8)).collect();
    let app = App::initialize(300, Coord { x: 500_000, y: 500_000 }, 1500, base_speed_units(0.02), 2500, &colors);
    let pts = app.points();
    assert_eq!(pts.len(), 300);
    for (i, p) in pts.iter().enumerate() {
        assert_eq!(p.orbit_radius, (i as u64 + 1) * 1500);
    }
    assert!(pts.windows(2).all(|w| w[0].orbit_radius < w[1].orbit_radius));
}

#[test]
fn render_empty_only_clears() {
    let app = App::initialize(0, Coord { x: 500_000, y: 500_000 }, 1500, 1, 2500, &Vec::new());
    assert_eq!(app.render(), vec![Paint::Clear { color: Color::white() }]);
}

#[test]
fn render_paints_points_in_order() {
    let mut app = three_point_app();
    app.update(40_000);
    let frame = app.render();
    assert_eq!(frame.len(), 4);
    assert_eq!(frame[0], Paint::Clear { color: Color { r: 255, g: 255, b: 255, a: 255 } });
    for (i, p) in app.points().iter().enumerate() {
        assert_eq!(
            frame[i + 1],
            Paint::Disc {
                center: Coord { x: 500_000, y: 500_000 },
                orbit_radius: p.orbit_radius,
                angle: p.angle,
                radius: p.radius,
                color: p.color,
            }
        );
    }
    let colors: Vec<Color> = frame[1..]
        .iter()
        .map(|op| match op {
            Paint::Disc { color, .. } => *color,
            Paint::Clear { .. } => panic!("a clear after the first operation"),
        })
        .collect();
    assert_eq!(colors, vec![grey(10), grey(20), grey(30)]);
}

#[test]
fn random_colors_are_opaque() {
    for _ in 0..100 {
        assert_eq!(random_color().a, 255);
    }
    let app = App::with_random_colors(300, Coord { x: 500_000, y: 500_000 }, 1500, base_speed_units(0.02), 2500);
    assert_eq!(app.points().len(), 300);
    assert!(app.points().iter().all(|p| p.color.a == 255 && p.angle == 0));
    assert_eq!(app.points()[299].orbit_radius, 450_000);
}

#[test]
fn white_is_opaque_white() {
    assert_eq!(Color::white(), Color { r: 255, g: 255, b: 255, a: 255 });
}
