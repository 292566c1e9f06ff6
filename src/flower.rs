//! The orbiting points and their motion.
use vstd::prelude::*;
use crate::angle::{advance_angle, advanced_angle, lemma_advance_additive, lemma_advance_zero};
use crate::color::{random_color, Color};
use crate::paint::{disc_of, frame_of, Paint};

verus! {

/// A position in the plane, in length units.
#[derive(Clone, Copy, Debug, PartialEq, Eq, Structural)]
pub struct Coord {
    pub x: i64,
    pub y: i64,
}

/// One orbiting point.
///
/// Its position is not stored: it is always
/// `center + orbit_radius * (cos angle, sin angle)`.
#[derive(Clone, Copy, Debug, PartialEq, Eq, Structural)]
pub struct FlowingPoint {
    /// Radius of the disc the point is painted as, in length units.
    pub radius: u64,
    /// Angular speed, in angle units per tick.
    pub speed: u64,
    /// Current binary angle.
    pub angle: u64,
    /// Distance from the center, in length units.
    pub orbit_radius: u64,
    pub color: Color,
}

impl FlowingPoint {
    /// The point after turning for `dt` ticks at its own speed.
    pub open spec fn advanced(self, dt: int) -> FlowingPoint {
        FlowingPoint {
            angle: advanced_angle(self.angle as int, self.speed as int, dt) as u64,
            ..self
        }
    }
}

/// Every point turned for `dt` ticks.
pub open spec fn advanced_all(points: Seq<FlowingPoint>, dt: int) -> Seq<FlowingPoint> {
    points.map_values(|p: FlowingPoint| p.advanced(dt))
}

/// Every point turned for `dts[0]` ticks, then `dts[1]` ticks, and so on.
pub open spec fn advanced_by_each(points: Seq<FlowingPoint>, dts: Seq<int>) -> Seq<FlowingPoint>
    decreases dts.len(),
{
    if dts.len() == 0 {
        points
    } else {
        advanced_by_each(advanced_all(points, dts[0]), dts.drop_first())
    }
}

/// The point created at position `index`.
pub open spec fn initial_point(
    index: int,
    radius_factor: int,
    base_speed: int,
    point_radius: int,
    color: Color,
) -> FlowingPoint {
    FlowingPoint {
        radius: point_radius as u64,
        speed: ((index + 1) * radius_factor * base_speed) as u64,
        angle: 0,
        orbit_radius: ((index + 1) * radius_factor) as u64,
        color,
    }
}

/// What an `App` holds, as plain values.
pub ghost struct AppView {
    pub center: Coord,
    pub radius_factor: u64,
    pub base_speed: u64,
    pub point_radius: u64,
    pub points: Seq<FlowingPoint>,
}

impl AppView {
    /// Each point keeps the orbit, speed and disc radius it was created with.
    pub open spec fn wf(self) -> bool {
        forall|i: int|
            0 <= i < self.points.len() ==> {
                &&& #[trigger] self.points[i].orbit_radius == (i + 1) * self.radius_factor
                &&& self.points[i].speed == self.points[i].orbit_radius * self.base_speed
                &&& self.points[i].radius == self.point_radius
            }
    }
}

/// The simulation: a fixed collection of points orbiting one center.
pub struct App {
    center: Coord,
    radius_factor: u64,
    base_speed: u64,
    point_radius: u64,
    flowing_points: Vec<FlowingPoint>,
}

impl View for App {
    type V = AppView;

    closed spec fn view(&self) -> AppView {
        AppView {
            center: self.center,
            radius_factor: self.radius_factor,
            base_speed: self.base_speed,
            point_radius: self.point_radius,
            points: self.flowing_points@,
        }
    }
}

impl App {
    /// Creates `count` points at angle 0. The point at `i` orbits at
    /// `(i + 1) * radius_factor`, turns at its orbit radius times
    /// `base_speed`, and takes `colors[i]`.
    pub fn initialize(
        count: usize,
        center: Coord,
        radius_factor: u64,
        base_speed: u64,
        point_radius: u64,
        colors: &Vec<Color>,
    ) -> (app: App)
        requires
            colors.len() == count,
            count * radius_factor * base_speed <= u64::MAX,
            count * radius_factor <= u64::MAX,
        ensures
            app@.wf(),
            app@.center == center,
            app@.radius_factor == radius_factor,
            app@.base_speed == base_speed,
            app@.point_radius == point_radius,
            app@.points.len() == count,
            forall|i: int|
                0 <= i < count ==> #[trigger] app@.points[i] == initial_point(
                    i,
                    radius_factor as int,
                    base_speed as int,
                    point_radius as int,
                    colors@[i],
                ),
    {
        let mut points: Vec<FlowingPoint> = Vec::new();
        let mut i: usize = 0;
        while i < count
            invariant
                i <= count,
                colors.len() == count,
                count * radius_factor * base_speed <= u64::MAX,
                count * radius_factor <= u64::MAX,
                points@.len() == i,
                forall|j: int|
                    0 <= j < i ==> #[trigger] points@[j] == initial_point(
                        j,
                        radius_factor as int,
                        base_speed as int,
                        point_radius as int,
                        colors@[j],
                    ),
            decreases count - i,
        {
            let k: u64 = i as u64 + 1;
            proof {
                lemma_prefix_product_fits(k as int, count as int, radius_factor as int, base_speed as int);
            }
            let orbit_radius = k * radius_factor;
            let speed = orbit_radius * base_speed;
            points.push(FlowingPoint { radius: point_radius, speed, angle: 0, orbit_radius, color: colors[i] });
            i += 1;
        }
        proof {
            assert forall|j: int| 0 <= j < count implies {
                &&& #[trigger] points@[j].orbit_radius == (j + 1) * radius_factor
                &&& points@[j].speed == points@[j].orbit_radius * base_speed
            } by {
                lemma_prefix_product_fits(j + 1, count as int, radius_factor as int, base_speed as int);
            }
        }
        App { center, radius_factor, base_speed, point_radius, flowing_points: points }
    }

    /// Like `initialize`, with a random opaque color for each point.
    pub fn with_random_colors(
        count: usize,
        center: Coord,
        radius_factor: u64,
        base_speed: u64,
        point_radius: u64,
    ) -> (app: App)
        requires
            count * radius_factor * base_speed <= u64::MAX,
            count * radius_factor <= u64::MAX,
        ensures
            app@.wf(),
            app@.center == center,
            app@.radius_factor == radius_factor,
            app@.base_speed == base_speed,
            app@.point_radius == point_radius,
            app@.points.len() == count,
            forall|i: int|
                0 <= i < count ==> {
                    &&& #[trigger] app@.points[i] == initial_point(
                        i,
                        radius_factor as int,
                        base_speed as int,
                        point_radius as int,
                        app@.points[i].color,
                    )
                    &&& app@.points[i].color.a == 255
                },
    {
        let mut colors: Vec<Color> = Vec::new();
        let mut i: usize = 0;
        while i < count
            invariant
                i <= count,
                colors@.len() == i,
                forall|j: int| 0 <= j < i ==> (#[trigger] colors@[j]).a == 255,
            decreases count - i,
        {
            colors.push(random_color());
            i += 1;
        }
        App::initialize(count, center, radius_factor, base_speed, point_radius, &colors)
    }

    /// Turns every point for `dt` ticks at its own speed; negative `dt`
    /// turns backwards. Nothing else changes.
    pub fn update(&mut self, dt: i64)
        ensures
            final(self)@ == (AppView { points: advanced_all(old(self)@.points, dt as int), ..old(self)@ }),
    {
        let n = self.flowing_points.len();
        let mut i: usize = 0;
        while i < n
            invariant
                i <= n,
                n == self.flowing_points@.len(),
                self.center == old(self).center,
                self.radius_factor == old(self).radius_factor,
                self.base_speed == old(self).base_speed,
                self.point_radius == old(self).point_radius,
                old(self).flowing_points@.len() == n,
                forall|j: int|
                    0 <= j < i ==> #[trigger] self.flowing_points@[j]
                        == old(self).flowing_points@[j].advanced(dt as int),
                forall|j: int|
                    i <= j < n ==> #[trigger] self.flowing_points@[j] == old(self).flowing_points@[j],
            decreases n - i,
        {
            let mut p = self.flowing_points[i];
            p.angle = advance_angle(p.angle, p.speed, dt);
            self.flowing_points.set(i, p);
            i += 1;
        }
        proof {
            assert(self.flowing_points@ =~= advanced_all(old(self).flowing_points@, dt as int));
        }
    }

    /// The points, in the order they were created.
    pub fn points(&self) -> (r: &Vec<FlowingPoint>)
        ensures
            r@ == self@.points,
    {
        &self.flowing_points
    }

    /// The center every point orbits.
    pub fn center(&self) -> (c: Coord)
        ensures
            c == self@.center,
    {
        self.center
    }

    /// The frame for the current state: a clear to white, then one disc per
    /// point, in the order the points were created.
    pub fn render(&self) -> (frame: Vec<Paint>)
        ensures
            frame@ == frame_of(self@.center, self@.points),
    {
        let mut frame: Vec<Paint> = Vec::new();
        frame.push(Paint::Clear { color: Color::white() });
        let n = self.flowing_points.len();
        let mut i: usize = 0;
        while i < n
            invariant
                i <= n,
                n == self.flowing_points@.len(),
                frame@.len() == i + 1,
                frame@[0] == (Paint::Clear { color: Color { r: 255, g: 255, b: 255, a: 255 } }),
                forall|j: int|
                    0 <= j < i ==> #[trigger] frame@[j + 1] == disc_of(self.center, self.flowing_points@[j]),
            decreases n - i,
        {
            let p = self.flowing_points[i];
            frame.push(Paint::Disc {
                center: self.center,
                orbit_radius: p.orbit_radius,
                angle: p.angle,
                radius: p.radius,
                color: p.color,
            });
            i += 1;
        }
        proof {
            let want = frame_of(self.center, self.flowing_points@);
            assert forall|k: int| 1 <= k < frame@.len() implies #[trigger] frame@[k] == want[k] by {
                assert(frame@[(k - 1) + 1] == disc_of(self.center, self.flowing_points@[k - 1]));
            }
            assert(frame@ =~= want);
        }
        frame
    }
}

/// Updates, however many and whatever their deltas, change only angles:
/// every point keeps its orbit radius, speed, disc radius and color, and a
/// well-formed state stays well-formed.
pub proof fn lemma_updates_keep_orbits(v: AppView, dts: Seq<int>)
    ensures
        advanced_by_each(v.points, dts).len() == v.points.len(),
        forall|i: int|
            0 <= i < v.points.len() ==> {
                let p = #[trigger] advanced_by_each(v.points, dts)[i];
                &&& p.orbit_radius == v.points[i].orbit_radius
                &&& p.speed == v.points[i].speed
                &&& p.radius == v.points[i].radius
                &&& p.color == v.points[i].color
            },
        v.wf() ==> (AppView { points: advanced_by_each(v.points, dts), ..v }).wf(),
    decreases dts.len(),
{
    if dts.len() > 0 {
        let next = AppView { points: advanced_all(v.points, dts[0]), ..v };
        lemma_updates_keep_orbits(next, dts.drop_first());
        assert forall|i: int| 0 <= i < v.points.len() implies {
            let p = #[trigger] advanced_by_each(v.points, dts)[i];
            &&& p.orbit_radius == v.points[i].orbit_radius
            &&& p.speed == v.points[i].speed
            &&& p.radius == v.points[i].radius
            &&& p.color == v.points[i].color
        } by {
            assert(advanced_by_each(next.points, dts.drop_first())[i] == advanced_by_each(v.points, dts)[i]);
            assert(next.points[i] == v.points[i].advanced(dts[0]));
        }
        if v.wf() {
            assert forall|i: int| 0 <= i < next.points.len() implies {
                &&& #[trigger] next.points[i].orbit_radius == (i + 1) * next.radius_factor
                &&& next.points[i].speed == next.points[i].orbit_radius * next.base_speed
                &&& next.points[i].radius == next.point_radius
            } by {
                assert(next.points[i] == v.points[i].advanced(dts[0]));
            }
        }
    }
}

/// Updating by zero ticks, any number of times, changes nothing.
pub proof fn lemma_zero_updates_change_nothing(points: Seq<FlowingPoint>, n: nat)
    ensures
        advanced_by_each(points, Seq::new(n, |k: int| 0int)) == points,
    decreases n,
{
    let zeros = Seq::new(n, |k: int| 0int);
    if n > 0 {
        assert forall|i: int| 0 <= i < points.len() implies #[trigger] advanced_all(points, 0)[i] == points[i] by {
            lemma_advance_zero(points[i].angle, points[i].speed);
        }
        assert(advanced_all(points, 0) =~= points);
        assert(zeros.drop_first() =~= Seq::new((n - 1) as nat, |k: int| 0int));
        lemma_zero_updates_change_nothing(points, (n - 1) as nat);
    }
}

/// An update by `t1` ticks followed by one by `t2` ticks leaves every point
/// as one update by `t1 + t2` ticks does.
pub proof fn lemma_updates_add_up(points: Seq<FlowingPoint>, t1: int, t2: int)
    ensures
        advanced_all(advanced_all(points, t1), t2) == advanced_all(points, t1 + t2),
{
    assert forall|i: int| 0 <= i < points.len() implies
        #[trigger] advanced_all(advanced_all(points, t1), t2)[i] == advanced_all(points, t1 + t2)[i] by {
        lemma_advance_additive(points[i].angle as int, points[i].speed as int, t1, t2);
    }
    assert(advanced_all(advanced_all(points, t1), t2) =~= advanced_all(points, t1 + t2));
}

/// With a positive radius factor, orbit radii strictly increase with the
/// index of the point.
pub proof fn lemma_orbits_increase(v: AppView)
    requires
        v.wf(),
        v.radius_factor > 0,
    ensures
        forall|i: int, j: int|
            0 <= i < j < v.points.len() ==> #[trigger] v.points[i].orbit_radius
                < #[trigger] v.points[j].orbit_radius,
{
    assert forall|i: int, j: int| 0 <= i < j < v.points.len() implies #[trigger] v.points[i].orbit_radius
        < #[trigger] v.points[j].orbit_radius by {
        let f = v.radius_factor as int;
        assert((i + 1) * f < (j + 1) * f) by (nonlinear_arith)
            requires
                i < j,
                f > 0,
        ;
    }
}

proof fn lemma_prefix_product_fits(k: int, count: int, f: int, b: int)
    requires
        1 <= k <= count,
        0 <= f,
        0 <= b,
    ensures
        k * f <= count * f,
        k * f * b <= count * f * b,
        0 <= k * f,
        0 <= k * f * b,
{
    assert(k * f <= count * f && 0 <= k * f) by (nonlinear_arith)
        requires
            1 <= k <= count,
            0 <= f,
    ;
    assert(k * f * b <= count * f * b && 0 <= k * f * b) by (nonlinear_arith)
        requires
            k * f <= count * f,
            0 <= k * f,
            0 <= b,
    ;
}

} // verus!
