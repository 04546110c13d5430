use vstd::prelude::*;
use crate::car::Car;
use crate::car::lemma_mooved_bounded;
use crate::config::{Config, half};
use crate::se_base::{Direction, Light, Side, TrafficLight};

verus! {

/// The whole intersection: four approach queues holding vehicles before the
/// stop line, one crossing slot holding the vehicle currently inside the
/// intersection, four departure queues holding vehicles that have left it,
/// and one traffic light per origin side. Index 0 of every queue is the
/// vehicle nearest the reference line of that queue.
#[derive(Debug, Clone, PartialEq, Eq)]
pub struct Road {
    pub cars_before_stop_north: Vec<Car>,
    pub cars_before_stop_south: Vec<Car>,
    pub cars_before_stop_east: Vec<Car>,
    pub cars_before_stop_west: Vec<Car>,
    pub cars_in_intersection: Vec<Car>,
    pub cars_after_stop_north: Vec<Car>,
    pub cars_after_stop_south: Vec<Car>,
    pub cars_after_stop_east: Vec<Car>,
    pub cars_after_stop_west: Vec<Car>,
    pub north_lights: TrafficLight,
    pub east_lights: TrafficLight,
    pub south_lights: TrafficLight,
    pub west_lights: TrafficLight,
}

/// Mathematical snapshot of a `Road`: each queue as a sequence of vehicles
/// and each light as its colour. The per-tick transition is specified as a
/// function on this type.
#[verifier::ext_equal]
pub ghost struct RoadView {
    pub before_north: Seq<Car>,
    pub before_south: Seq<Car>,
    pub before_east: Seq<Car>,
    pub before_west: Seq<Car>,
    pub crossing: Seq<Car>,
    pub after_north: Seq<Car>,
    pub after_south: Seq<Car>,
    pub after_east: Seq<Car>,
    pub after_west: Seq<Car>,
    pub light_north: Light,
    pub light_south: Light,
    pub light_east: Light,
    pub light_west: Light,
}

impl RoadView {
    /// The same snapshot with the four lights replaced.
    pub open spec fn with_lights(self, n: Light, s: Light, e: Light, w: Light) -> RoadView {
        RoadView {
            light_north: n,
            light_south: s,
            light_east: e,
            light_west: w,
            ..self
        }
    }

    /// The same snapshot with the crossing slot replaced.
    pub open spec fn with_crossing(self, c: Seq<Car>) -> RoadView {
        RoadView { crossing: c, ..self }
    }

    /// The same snapshot with one departure queue replaced.
    pub open spec fn with_after(self, label: Side, q: Seq<Car>) -> RoadView {
        match label {
            Side::FromNorth => RoadView { after_north: q, ..self },
            Side::FromSouth => RoadView { after_south: q, ..self },
            Side::FromEast => RoadView { after_east: q, ..self },
            Side::FromWest => RoadView { after_west: q, ..self },
        }
    }

    /// All nine queues are empty.
    pub open spec fn all_queues_empty(self) -> bool {
        &&& self.before_north.len() == 0
        &&& self.before_south.len() == 0
        &&& self.before_east.len() == 0
        &&& self.before_west.len() == 0
        &&& self.crossing.len() == 0
        &&& self.after_north.len() == 0
        &&& self.after_south.len() == 0
        &&& self.after_east.len() == 0
        &&& self.after_west.len() == 0
    }

    /// Some light shows green.
    pub open spec fn some_green(self) -> bool {
        ||| self.light_south == Light::Green
        ||| self.light_north == Light::Green
        ||| self.light_east == Light::Green
        ||| self.light_west == Light::Green
    }

    /// How many lights show green.
    pub open spec fn green_count(self) -> int {
        (if self.light_north == Light::Green { 1int } else { 0 })
            + (if self.light_south == Light::Green { 1int } else { 0 })
            + (if self.light_east == Light::Green { 1int } else { 0 })
            + (if self.light_west == Light::Green { 1int } else { 0 })
    }

    /// Every vehicle in every queue is within the driver-facing coordinate
    /// bounds, so a whole tick of movement stays inside `i32`.
    pub open spec fn cars_bounded(self) -> bool {
        &&& (forall|i: int| 0 <= i < self.before_north.len() ==> #[trigger] self.before_north[i].bounded())
        &&& (forall|i: int| 0 <= i < self.before_south.len() ==> #[trigger] self.before_south[i].bounded())
        &&& (forall|i: int| 0 <= i < self.before_east.len() ==> #[trigger] self.before_east[i].bounded())
        &&& (forall|i: int| 0 <= i < self.before_west.len() ==> #[trigger] self.before_west[i].bounded())
        &&& (forall|i: int| 0 <= i < self.crossing.len() ==> #[trigger] self.crossing[i].bounded())
        &&& (forall|i: int| 0 <= i < self.after_north.len() ==> #[trigger] self.after_north[i].bounded())
        &&& (forall|i: int| 0 <= i < self.after_south.len() ==> #[trigger] self.after_south[i].bounded())
        &&& (forall|i: int| 0 <= i < self.after_east.len() ==> #[trigger] self.after_east[i].bounded())
        &&& (forall|i: int| 0 <= i < self.after_west.len() ==> #[trigger] self.after_west[i].bounded())
    }
}

impl View for Road {
    type V = RoadView;

    open spec fn view(&self) -> RoadView {
        RoadView {
            before_north: self.cars_before_stop_north@,
            before_south: self.cars_before_stop_south@,
            before_east: self.cars_before_stop_east@,
            before_west: self.cars_before_stop_west@,
            crossing: self.cars_in_intersection@,
            after_north: self.cars_after_stop_north@,
            after_south: self.cars_after_stop_south@,
            after_east: self.cars_after_stop_east@,
            after_west: self.cars_after_stop_west@,
            light_north: self.north_lights.color,
            light_south: self.south_lights.color,
            light_east: self.east_lights.color,
            light_west: self.west_lights.color,
        }
    }
}

/// Whether the given queue's vehicles flow towards larger coordinate values.
/// Approach queues flow towards the centre of the world, departure queues
/// away from it, each along the axis of its label.
pub open spec fn flow_positive(label: Side, departing: bool) -> bool {
    match label {
        Side::FromNorth => !departing,
        Side::FromSouth => departing,
        Side::FromEast => !departing,
        Side::FromWest => departing,
    }
}

/// The signed position of a vehicle along its queue's axis of travel,
/// oriented so that driving forward always increases it.
pub open spec fn flow(c: Car, label: Side, departing: bool) -> int {
    let coord = match label {
        Side::FromNorth => c.y as int,
        Side::FromSouth => c.y as int,
        Side::FromEast => c.x as int,
        Side::FromWest => c.x as int,
    };
    if flow_positive(label, departing) {
        coord
    } else {
        -coord
    }
}

/// The car-following rule: a trailing vehicle may advance only if a full
/// step still leaves it more than the security distance behind the position
/// `front` of the vehicle ahead (already updated this tick).
pub open spec fn gap_allows(c: Car, front: int, cfg: Config, label: Side, departing: bool) -> bool {
    flow(c, label, departing) + c.velocity < front - cfg.security_distance
}

/// Advance the vehicles behind the head of a queue, front to back: each
/// moves only if the car-following rule allows it against the last vehicle
/// that moved, whose new position then becomes the reference for the next.
pub open spec fn advance_rest(
    q: Seq<Car>,
    front: int,
    light: Light,
    cfg: Config,
    label: Side,
    departing: bool,
) -> Seq<Car>
    decreases q.len(),
{
    if q.len() == 0 {
        q
    } else if gap_allows(q[0], front, cfg, label, departing) {
        let m = q[0].mooved(cfg, light);
        seq![m] + advance_rest(q.drop_first(), flow(m, label, departing), light, cfg, label, departing)
    } else {
        seq![q[0]] + advance_rest(q.drop_first(), front, light, cfg, label, departing)
    }
}

/// Advance a whole queue for one tick: the head moves under the given light,
/// and every follower obeys the car-following rule behind it.
pub open spec fn advance_queue(
    q: Seq<Car>,
    light: Light,
    cfg: Config,
    label: Side,
    departing: bool,
) -> Seq<Car> {
    if q.len() == 0 {
        q
    } else {
        let m = q[0].mooved(cfg, light);
        seq![m] + advance_rest(q.drop_first(), flow(m, label, departing), light, cfg, label, departing)
    }
}

/// Step 1 of a tick, light arbitration: a green phase lasts exactly one
/// tick, so if any light is green all four turn red; otherwise the side with
/// the longest approach queue gets the only green, ties broken in the fixed
/// priority order east, west, north, south.
pub open spec fn arbitrate(r: RoadView) -> RoadView {
    if r.some_green() {
        r.with_lights(Light::Red, Light::Red, Light::Red, Light::Red)
    } else {
        let a = r.before_east.len();
        let b = r.before_west.len();
        let c = r.before_north.len();
        let d = r.before_south.len();
        if a >= b && a >= c && a >= d {
            r.with_lights(Light::Red, Light::Red, Light::Green, Light::Red)
        } else if b >= a && b >= c && b >= d {
            r.with_lights(Light::Red, Light::Red, Light::Red, Light::Green)
        } else if c >= a && c >= b && c >= d {
            r.with_lights(Light::Green, Light::Red, Light::Red, Light::Red)
        } else {
            r.with_lights(Light::Red, Light::Green, Light::Red, Light::Red)
        }
    }
}

/// The exit routing table: which departure queue a vehicle joins, from its
/// origin side and its turn direction.
pub open spec fn exit_side(side: Side, direction: Direction) -> Side {
    match (side, direction) {
        (Side::FromEast, Direction::Left) => Side::FromNorth,
        (Side::FromEast, Direction::Straight) => Side::FromWest,
        (Side::FromEast, Direction::Right) => Side::FromSouth,
        (Side::FromNorth, Direction::Left) => Side::FromWest,
        (Side::FromNorth, Direction::Straight) => Side::FromSouth,
        (Side::FromNorth, Direction::Right) => Side::FromEast,
        (Side::FromWest, Direction::Left) => Side::FromSouth,
        (Side::FromWest, Direction::Straight) => Side::FromEast,
        (Side::FromWest, Direction::Right) => Side::FromNorth,
        (Side::FromSouth, Direction::Left) => Side::FromEast,
        (Side::FromSouth, Direction::Straight) => Side::FromNorth,
        (Side::FromSouth, Direction::Right) => Side::FromWest,
    }
}

/// A crossing vehicle has cleared the intersection once it leaves the zone
/// two bounding boxes wide centred on the reference lines, on either axis.
pub open spec fn exited(c: Car, cfg: Config) -> bool {
    let w2 = cfg.output_width as int / 2;
    let h2 = cfg.output_height as int / 2;
    ||| c.x > w2 + cfg.car_width
    ||| c.x < w2 - 2 * cfg.car_width
    ||| c.y > h2 + cfg.car_height
    ||| c.y < h2 - 2 * cfg.car_height
}

/// Step 2 of a tick: the vehicle in the crossing slot, if any, advances
/// under a forced green; if its new position has cleared the intersection it
/// is appended to the departure queue the routing table names and the slot
/// is emptied.
pub open spec fn cross_step(r: RoadView, cfg: Config) -> RoadView {
    if r.crossing.len() == 0 {
        r
    } else {
        let m = r.crossing[0].mooved(cfg, Light::Green);
        let cr = r.crossing.update(0, m);
        if exited(m, cfg) {
            let dest = exit_side(m.side, m.direction);
            let r2 = r.with_crossing(cr.drop_last());
            r2.with_after(dest, r.after_queue(dest).push(m))
        } else {
            r.with_crossing(cr)
        }
    }
}

impl RoadView {
    /// The departure queue with the given label.
    pub open spec fn after_queue(self, label: Side) -> Seq<Car> {
        match label {
            Side::FromNorth => self.after_north,
            Side::FromSouth => self.after_south,
            Side::FromEast => self.after_east,
            Side::FromWest => self.after_west,
        }
    }
}

/// Step 3 of a tick: every departure queue advances under a forced green,
/// with the car-following rule among its vehicles.
pub open spec fn dep_step(r: RoadView, cfg: Config) -> RoadView {
    RoadView {
        after_north: advance_queue(r.after_north, Light::Green, cfg, Side::FromNorth, true),
        after_south: advance_queue(r.after_south, Light::Green, cfg, Side::FromSouth, true),
        after_east: advance_queue(r.after_east, Light::Green, cfg, Side::FromEast, true),
        after_west: advance_queue(r.after_west, Light::Green, cfg, Side::FromWest, true),
        ..r
    }
}

/// Whether a vehicle heading the given approach queue is still strictly
/// before the boundary at which it waits to enter the intersection.
pub open spec fn before_line(c: Car, cfg: Config, label: Side) -> bool {
    let w2 = cfg.output_width as int / 2;
    let h2 = cfg.output_height as int / 2;
    match label {
        Side::FromNorth => c.y < h2 - 2 * cfg.car_height,
        Side::FromSouth => c.y > h2 + 2 * cfg.car_height,
        Side::FromEast => c.x < w2 - 2 * cfg.car_width,
        Side::FromWest => c.x > w2 + cfg.car_width,
    }
}

/// Step 4 of a tick for one approach queue: while the head is before the
/// boundary the queue advances under its own light; if the head then stands
/// at or past the boundary, its light is green and the crossing slot is
/// empty, the head is dequeued into the crossing slot.
pub open spec fn app_one(
    q: Seq<Car>,
    crossing: Seq<Car>,
    light: Light,
    cfg: Config,
    label: Side,
) -> (Seq<Car>, Seq<Car>) {
    if q.len() == 0 {
        (q, crossing)
    } else {
        let q1 = if before_line(q[0], cfg, label) {
            advance_queue(q, light, cfg, label, false)
        } else {
            q
        };
        if !before_line(q1[0], cfg, label) && light == Light::Green && crossing.len() == 0 {
            (q1.drop_first(), crossing.push(q1[0]))
        } else {
            (q1, crossing)
        }
    }
}

/// Step 4 of a tick: the approach queues are processed in the fixed order
/// north, south, east, west; the order is significant, because at most one
/// head can enter the crossing slot per tick and the earlier side wins.
pub open spec fn app_step(r: RoadView, cfg: Config) -> RoadView {
    let pn = app_one(r.before_north, r.crossing, r.light_north, cfg, Side::FromNorth);
    let ps = app_one(r.before_south, pn.1, r.light_south, cfg, Side::FromSouth);
    let pe = app_one(r.before_east, ps.1, r.light_east, cfg, Side::FromEast);
    let pw = app_one(r.before_west, pe.1, r.light_west, cfg, Side::FromWest);
    RoadView {
        before_north: pn.0,
        before_south: ps.0,
        before_east: pe.0,
        before_west: pw.0,
        crossing: pw.1,
        ..r
    }
}

/// One whole tick: light arbitration, then the crossing slot, then the
/// departure queues, then the approach queues.
pub open spec fn tick_spec(r: RoadView, cfg: Config) -> RoadView {
    app_step(dep_step(cross_step(arbitrate(r), cfg), cfg), cfg)
}

/// An advanced queue keeps its length, and every vehicle in it is either
/// untouched or exactly one movement step of its old self.
pub proof fn lemma_advance_rest_shape(
    q: Seq<Car>,
    front: int,
    light: Light,
    cfg: Config,
    label: Side,
    departing: bool,
)
    ensures
        advance_rest(q, front, light, cfg, label, departing).len() == q.len(),
        forall|j: int|
            0 <= j < q.len() ==> advance_rest(q, front, light, cfg, label, departing)[j] == q[j]
                || advance_rest(q, front, light, cfg, label, departing)[j] == q[j].mooved(cfg, light),
    decreases q.len(),
{
    if q.len() > 0 {
        let r = advance_rest(q, front, light, cfg, label, departing);
        if gap_allows(q[0], front, cfg, label, departing) {
            let m = q[0].mooved(cfg, light);
            let tail = advance_rest(
                q.drop_first(),
                flow(m, label, departing),
                light,
                cfg,
                label,
                departing,
            );
            lemma_advance_rest_shape(q.drop_first(), flow(m, label, departing), light, cfg, label, departing);
            assert forall|j: int| 0 <= j < q.len() implies r[j] == q[j] || r[j] == q[j].mooved(
                cfg,
                light,
            ) by {
                if j > 0 {
                    assert(r[j] == tail[j - 1]);
                    assert(q.drop_first()[j - 1] == q[j]);
                }
            }
        } else {
            let tail = advance_rest(q.drop_first(), front, light, cfg, label, departing);
            lemma_advance_rest_shape(q.drop_first(), front, light, cfg, label, departing);
            assert forall|j: int| 0 <= j < q.len() implies r[j] == q[j] || r[j] == q[j].mooved(
                cfg,
                light,
            ) by {
                if j > 0 {
                    assert(r[j] == tail[j - 1]);
                    assert(q.drop_first()[j - 1] == q[j]);
                }
            }
        }
    }
}

/// The same shape facts for a whole advanced queue.
pub proof fn lemma_advance_queue_shape(
    q: Seq<Car>,
    light: Light,
    cfg: Config,
    label: Side,
    departing: bool,
)
    ensures
        advance_queue(q, light, cfg, label, departing).len() == q.len(),
        forall|j: int|
            0 <= j < q.len() ==> advance_queue(q, light, cfg, label, departing)[j] == q[j]
                || advance_queue(q, light, cfg, label, departing)[j] == q[j].mooved(cfg, light),
{
    if q.len() > 0 {
        let r = advance_queue(q, light, cfg, label, departing);
        let m = q[0].mooved(cfg, light);
        let tail = advance_rest(
            q.drop_first(),
            flow(m, label, departing),
            light,
            cfg,
            label,
            departing,
        );
        lemma_advance_rest_shape(q.drop_first(), flow(m, label, departing), light, cfg, label, departing);
        assert forall|j: int| 0 <= j < q.len() implies r[j] == q[j] || r[j] == q[j].mooved(
            cfg,
            light,
        ) by {
            if j > 0 {
                assert(r[j] == tail[j - 1]);
                assert(q.drop_first()[j - 1] == q[j]);
            }
        }
    }
}

/// The signed queue position of a vehicle, as executable code.
fn flow_pos(c: &Car, label: Side, departing: bool) -> (r: i32)
    requires
        -1200000000 <= c.x <= 1200000000,
        -1200000000 <= c.y <= 1200000000,
    ensures
        r == flow(*c, label, departing),
{
    let coord: i32 = match label {
        Side::FromNorth => c.y,
        Side::FromSouth => c.y,
        Side::FromEast => c.x,
        Side::FromWest => c.x,
    };
    let positive: bool = match label {
        Side::FromNorth => !departing,
        Side::FromSouth => departing,
        Side::FromEast => !departing,
        Side::FromWest => departing,
    };
    if positive {
        coord
    } else {
        -coord
    }
}

/// Whether the head of an approach queue is still before its boundary, as
/// executable code.
fn car_before_line(c: &Car, cfg: &Config, label: Side) -> (b: bool)
    requires
        cfg.wf(),
        -1200000000 <= c.x <= 1200000000,
        -1200000000 <= c.y <= 1200000000,
    ensures
        b == before_line(*c, *cfg, label),
{
    let w2: i32 = half(cfg.output_width);
    let h2: i32 = half(cfg.output_height);
    match label {
        Side::FromNorth => c.y < h2 - 2 * cfg.car_height,
        Side::FromSouth => c.y > h2 + 2 * cfg.car_height,
        Side::FromEast => c.x < w2 - 2 * cfg.car_width,
        Side::FromWest => c.x > w2 + cfg.car_width,
    }
}

/// Whether a crossing vehicle has cleared the intersection, as executable
/// code.
fn car_exited(c: &Car, cfg: &Config) -> (b: bool)
    requires
        cfg.wf(),
        -1200000000 <= c.x <= 1200000000,
        -1200000000 <= c.y <= 1200000000,
    ensures
        b == exited(*c, *cfg),
{
    let w2: i32 = half(cfg.output_width);
    let h2: i32 = half(cfg.output_height);
    c.x > w2 + cfg.car_width || c.x < w2 - 2 * cfg.car_width || c.y > h2 + cfg.car_height || c.y
        < h2 - 2 * cfg.car_height
}

/// The exit routing table, as executable code.
pub fn exit_side_of(side: Side, direction: Direction) -> (d: Side)
    ensures
        d == exit_side(side, direction),
{
    match (side, direction) {
        (Side::FromEast, Direction::Left) => Side::FromNorth,
        (Side::FromEast, Direction::Straight) => Side::FromWest,
        (Side::FromEast, Direction::Right) => Side::FromSouth,
        (Side::FromNorth, Direction::Left) => Side::FromWest,
        (Side::FromNorth, Direction::Straight) => Side::FromSouth,
        (Side::FromNorth, Direction::Right) => Side::FromEast,
        (Side::FromWest, Direction::Left) => Side::FromSouth,
        (Side::FromWest, Direction::Straight) => Side::FromEast,
        (Side::FromWest, Direction::Right) => Side::FromNorth,
        (Side::FromSouth, Direction::Left) => Side::FromEast,
        (Side::FromSouth, Direction::Straight) => Side::FromNorth,
        (Side::FromSouth, Direction::Right) => Side::FromWest,
    }
}

/// Advance one queue in place for one tick, exactly as `advance_queue`
/// describes: the head first, then one forward walk over the followers, each
/// compared against the last vehicle that moved.
fn advance_queue_vec(q: &mut Vec<Car>, light: TrafficLight, cfg: &Config, label: Side, departing: bool)
    requires
        cfg.wf(),
        forall|i: int| 0 <= i < old(q)@.len() ==> #[trigger] old(q)@[i].step_bounded(),
    ensures
        final(q)@ == advance_queue(old(q)@, light.color, *cfg, label, departing),
{
    let ghost q0 = q@;
    if q.len() == 0 {
        return ;
    }
    let mut head: Car = q[0];
    head.moove(cfg, light);
    proof {
        lemma_mooved_bounded_queue(q0[0], *cfg, light.color);
    }
    q[0] = head;
    let mut front: i32 = flow_pos(&head, label, departing);
    let mut i: usize = 1;
    proof {
        assert(q0.skip(1) =~= q0.drop_first());
        assert(q@.take(1) =~= seq![head]);
    }
    while i < q.len()
        invariant
            cfg.wf(),
            1 <= i <= q@.len(),
            q@.len() == q0.len(),
            forall|j: int| 0 <= j < q0.len() ==> #[trigger] q0[j].step_bounded(),
            forall|j: int| i <= j < q0.len() ==> q@[j] == q0[j],
            -1200000000 <= front <= 1200000000,
            advance_queue(q0, light.color, *cfg, label, departing) == q@.take(i as int)
                + advance_rest(q0.skip(i as int), front as int, light.color, *cfg, label, departing),
        decreases q@.len() - i,
    {
        proof {
            assert(q@[i as int] == q0[i as int]);
            assert(q0[i as int].step_bounded());
        }
        let c: Car = q[i];
        let fp: i32 = flow_pos(&c, label, departing);
        proof {
            assert(q0.skip(i as int)[0] == q0[i as int]);
            assert(q0.skip(i as int).drop_first() =~= q0.skip(i as int + 1));
        }
        let ghost pre = q@;
        if fp + c.velocity < front - cfg.security_distance {
            let mut m: Car = c;
            m.moove(cfg, TrafficLight { color: light.color });
            proof {
                lemma_mooved_bounded_queue(q0[i as int], *cfg, light.color);
            }
            q[i] = m;
            front = flow_pos(&m, label, departing);
            proof {
                let r2 = advance_rest(
                    q0.skip(i as int + 1),
                    front as int,
                    light.color,
                    *cfg,
                    label,
                    departing,
                );
                assert(q@.take(i as int + 1) =~= pre.take(i as int) + seq![m]);
                assert((pre.take(i as int) + seq![m]) + r2 =~= pre.take(i as int) + (seq![m] + r2));
            }
        } else {
            proof {
                let r2 = advance_rest(
                    q0.skip(i as int + 1),
                    front as int,
                    light.color,
                    *cfg,
                    label,
                    departing,
                );
                assert(q@.take(i as int + 1) =~= pre.take(i as int) + seq![q0[i as int]]);
                assert((pre.take(i as int) + seq![q0[i as int]]) + r2 =~= pre.take(i as int) + (
                seq![q0[i as int]] + r2));
            }
        }
        i = i + 1;
    }
    proof {
        assert(q0.skip(i as int).len() == 0);
        assert(q@.take(i as int) + advance_rest(
            q0.skip(i as int),
            front as int,
            light.color,
            *cfg,
            label,
            departing,
        ) =~= q@);
    }
}

/// One movement step keeps a queue vehicle inside the loop's working bounds.
proof fn lemma_mooved_bounded_queue(c: Car, cfg: Config, light: Light)
    requires
        cfg.wf(),
        c.step_bounded(),
    ensures
        -1151000000 <= c.mooved(cfg, light).x <= 1151000000,
        -1151000000 <= c.mooved(cfg, light).y <= 1151000000,
        c.mooved(cfg, light).velocity == c.velocity,
{
    crate::car::lemma_mooved_bounded(c, cfg, light, 1150000000);
}

impl RoadView {
    /// Every vehicle in every queue is within the loop-level working bounds;
    /// holds after the crossing step of a tick that started `cars_bounded`.
    pub open spec fn cars_step_bounded(self) -> bool {
        &&& (forall|i: int| 0 <= i < self.before_north.len() ==> #[trigger] self.before_north[i].step_bounded())
        &&& (forall|i: int| 0 <= i < self.before_south.len() ==> #[trigger] self.before_south[i].step_bounded())
        &&& (forall|i: int| 0 <= i < self.before_east.len() ==> #[trigger] self.before_east[i].step_bounded())
        &&& (forall|i: int| 0 <= i < self.before_west.len() ==> #[trigger] self.before_west[i].step_bounded())
        &&& (forall|i: int| 0 <= i < self.crossing.len() ==> #[trigger] self.crossing[i].step_bounded())
        &&& (forall|i: int| 0 <= i < self.after_north.len() ==> #[trigger] self.after_north[i].step_bounded())
        &&& (forall|i: int| 0 <= i < self.after_south.len() ==> #[trigger] self.after_south[i].step_bounded())
        &&& (forall|i: int| 0 <= i < self.after_east.len() ==> #[trigger] self.after_east[i].step_bounded())
        &&& (forall|i: int| 0 <= i < self.after_west.len() ==> #[trigger] self.after_west[i].step_bounded())
    }
}

/// After the crossing step of a tick whose vehicles started inside the
/// driver-facing bounds, every vehicle is still inside the working bounds:
/// the only one that moved is the crossing vehicle, and only by one step.
proof fn lemma_cross_step_bounded(r: RoadView, cfg: Config)
    requires
        cfg.wf(),
        r.cars_bounded(),
    ensures
        cross_step(r, cfg).cars_step_bounded(),
{
    let r2 = cross_step(r, cfg);
    if r.crossing.len() > 0 {
        assert(r.crossing[0].bounded());
        lemma_mooved_bounded(r.crossing[0], cfg, Light::Green, 1000000000);
    }
    assert forall|i: int| 0 <= i < r2.before_north.len() implies #[trigger] r2.before_north[i].step_bounded() by {
        assert(r.before_north[i].bounded());
    }
    assert forall|i: int| 0 <= i < r2.before_south.len() implies #[trigger] r2.before_south[i].step_bounded() by {
        assert(r.before_south[i].bounded());
    }
    assert forall|i: int| 0 <= i < r2.before_east.len() implies #[trigger] r2.before_east[i].step_bounded() by {
        assert(r.before_east[i].bounded());
    }
    assert forall|i: int| 0 <= i < r2.before_west.len() implies #[trigger] r2.before_west[i].step_bounded() by {
        assert(r.before_west[i].bounded());
    }
    assert forall|i: int| 0 <= i < r2.crossing.len() implies #[trigger] r2.crossing[i].step_bounded() by {
        assert(r.crossing[i].bounded());
    }
    assert forall|i: int| 0 <= i < r2.after_north.len() implies #[trigger] r2.after_north[i].step_bounded() by {
        if i < r.after_north.len() {
            assert(r.after_north[i].bounded());
        }
    }
    assert forall|i: int| 0 <= i < r2.after_south.len() implies #[trigger] r2.after_south[i].step_bounded() by {
        if i < r.after_south.len() {
            assert(r.after_south[i].bounded());
        }
    }
    assert forall|i: int| 0 <= i < r2.after_east.len() implies #[trigger] r2.after_east[i].step_bounded() by {
        if i < r.after_east.len() {
            assert(r.after_east[i].bounded());
        }
    }
    assert forall|i: int| 0 <= i < r2.after_west.len() implies #[trigger] r2.after_west[i].step_bounded() by {
        if i < r.after_west.len() {
            assert(r.after_west[i].bounded());
        }
    }
}

impl Road {
    /// A fresh intersection: every queue empty and all four lights red.
    pub fn new() -> (r: Road)
        ensures
            r@.all_queues_empty(),
            r@.light_north == Light::Red,
            r@.light_south == Light::Red,
            r@.light_east == Light::Red,
            r@.light_west == Light::Red,
    {
        Road {
            cars_before_stop_north: Vec::new(),
            cars_before_stop_south: Vec::new(),
            cars_before_stop_east: Vec::new(),
            cars_before_stop_west: Vec::new(),
            cars_in_intersection: Vec::new(),
            cars_after_stop_north: Vec::new(),
            cars_after_stop_south: Vec::new(),
            cars_after_stop_east: Vec::new(),
            cars_after_stop_west: Vec::new(),
            north_lights: TrafficLight { color: Light::Red },
            east_lights: TrafficLight { color: Light::Red },
            south_lights: TrafficLight { color: Light::Red },
            west_lights: TrafficLight { color: Light::Red },
        }
    }

    /// Step 1 of a tick, as executable code: force all lights red after a
    /// green phase, otherwise give the longest approach queue the only
    /// green, ties broken east, west, north, south.
    fn arbitrate_exec(&mut self)
        ensures
            final(self)@ == arbitrate(old(self)@),
    {
        if self.south_lights.color == Light::Green || self.north_lights.color == Light::Green
            || self.east_lights.color == Light::Green || self.west_lights.color == Light::Green {
            self.east_lights = TrafficLight { color: Light::Red };
            self.north_lights = TrafficLight { color: Light::Red };
            self.south_lights = TrafficLight { color: Light::Red };
            self.west_lights = TrafficLight { color: Light::Red };
        } else {
            let a: usize = self.cars_before_stop_east.len();
            let b: usize = self.cars_before_stop_west.len();
            let c: usize = self.cars_before_stop_north.len();
            let d: usize = self.cars_before_stop_south.len();
            if a >= b && a >= c && a >= d {
                self.east_lights = TrafficLight { color: Light::Green };
                self.north_lights = TrafficLight { color: Light::Red };
                self.south_lights = TrafficLight { color: Light::Red };
                self.west_lights = TrafficLight { color: Light::Red };
            } else if b >= a && b >= c && b >= d {
                self.east_lights = TrafficLight { color: Light::Red };
                self.north_lights = TrafficLight { color: Light::Red };
                self.south_lights = TrafficLight { color: Light::Red };
                self.west_lights = TrafficLight { color: Light::Green };
            } else if c >= a && c >= b && c >= d {
                self.east_lights = TrafficLight { color: Light::Red };
                self.north_lights = TrafficLight { color: Light::Green };
                self.south_lights = TrafficLight { color: Light::Red };
                self.west_lights = TrafficLight { color: Light::Red };
            } else {
                self.east_lights = TrafficLight { color: Light::Red };
                self.north_lights = TrafficLight { color: Light::Red };
                self.south_lights = TrafficLight { color: Light::Green };
                self.west_lights = TrafficLight { color: Light::Red };
            }
        }
        proof {
            assert(self@ =~= arbitrate(old(self)@));
        }
    }

    /// Step 2 of a tick, as executable code: advance the crossing vehicle
    /// under a forced green and route it to its departure queue once it has
    /// cleared the intersection.
    fn cross_exec(&mut self, cfg: &Config)
        requires
            cfg.wf(),
            old(self)@.cars_bounded(),
        ensures
            final(self)@ == cross_step(old(self)@, *cfg),
    {
        let ghost r1 = old(self)@;
        if self.cars_in_intersection.len() != 0 {
            proof {
                assert(r1.crossing[0].bounded());
            }
            let mut c0: Car = self.cars_in_intersection[0];
            c0.moove(cfg, TrafficLight { color: Light::Green });
            proof {
                lemma_mooved_bounded(r1.crossing[0], *cfg, Light::Green, 1000000000);
            }
            self.cars_in_intersection[0] = c0;
            if car_exited(&c0, cfg) {
                let dest: Side = exit_side_of(c0.side, c0.direction);
                match dest {
                    Side::FromNorth => self.cars_after_stop_north.push(c0),
                    Side::FromSouth => self.cars_after_stop_south.push(c0),
                    Side::FromEast => self.cars_after_stop_east.push(c0),
                    Side::FromWest => self.cars_after_stop_west.push(c0),
                }
                let _crossed = self.cars_in_intersection.pop();
            }
        }
        proof {
            assert(self@ =~= cross_step(r1, *cfg));
        }
    }

    /// One tick of the simulation, exactly as `tick_spec` describes: light
    /// arbitration, then the crossing slot, then the four departure queues,
    /// then the four approach queues in the fixed order north, south, east,
    /// west.
    #[verifier::rlimit(100)]
    pub fn simulation_loop(&mut self, cfg: &Config)
        requires
            cfg.wf(),
            old(self)@.cars_bounded(),
        ensures
            final(self)@ == tick_spec(old(self)@, *cfg),
    {
        let ghost r0 = old(self)@;
        self.arbitrate_exec();
        let ghost r1 = arbitrate(r0);

        self.cross_exec(cfg);
        let ghost r2 = cross_step(r1, *cfg);
        proof {
            lemma_cross_step_bounded(r1, *cfg);
        }

        advance_queue_vec(
            &mut self.cars_after_stop_east,
            TrafficLight { color: Light::Green },
            cfg,
            Side::FromEast,
            true,
        );
        advance_queue_vec(
            &mut self.cars_after_stop_north,
            TrafficLight { color: Light::Green },
            cfg,
            Side::FromNorth,
            true,
        );
        advance_queue_vec(
            &mut self.cars_after_stop_west,
            TrafficLight { color: Light::Green },
            cfg,
            Side::FromWest,
            true,
        );
        advance_queue_vec(
            &mut self.cars_after_stop_south,
            TrafficLight { color: Light::Green },
            cfg,
            Side::FromSouth,
            true,
        );
        let ghost r3 = dep_step(r2, *cfg);
        proof {
            assert(self@ =~= r3);
        }

        let ln: TrafficLight = self.north_lights;
        app_one_exec(
            &mut self.cars_before_stop_north,
            &mut self.cars_in_intersection,
            ln,
            cfg,
            Side::FromNorth,
        );
        let ls: TrafficLight = self.south_lights;
        app_one_exec(
            &mut self.cars_before_stop_south,
            &mut self.cars_in_intersection,
            ls,
            cfg,
            Side::FromSouth,
        );
        let le: TrafficLight = self.east_lights;
        app_one_exec(
            &mut self.cars_before_stop_east,
            &mut self.cars_in_intersection,
            le,
            cfg,
            Side::FromEast,
        );
        let lw: TrafficLight = self.west_lights;
        app_one_exec(
            &mut self.cars_before_stop_west,
            &mut self.cars_in_intersection,
            lw,
            cfg,
            Side::FromWest,
        );
        proof {
            assert(self@ =~= app_step(r3, *cfg));
            assert(self@ =~= tick_spec(r0, *cfg));
        }
    }
}

/// Step 4 of a tick for one approach queue, as executable code: advance the
/// queue while its head is before the boundary, then let the head into the
/// crossing slot if it stands at the boundary under a green light and the
/// slot is empty.
fn app_one_exec(q: &mut Vec<Car>, crossing: &mut Vec<Car>, light: TrafficLight, cfg: &Config, label: Side)
    requires
        cfg.wf(),
        forall|i: int| 0 <= i < old(q)@.len() ==> #[trigger] old(q)@[i].step_bounded(),
    ensures
        final(q)@ == app_one(old(q)@, old(crossing)@, light.color, *cfg, label).0,
        final(crossing)@ == app_one(old(q)@, old(crossing)@, light.color, *cfg, label).1,
{
    let ghost q0 = q@;
    let ghost cr0 = crossing@;
    if q.len() > 0 {
        proof {
            assert(q0[0].step_bounded());
        }
        let h: Car = q[0];
        if car_before_line(&h, cfg, label) {
            advance_queue_vec(q, light, cfg, label, false);
        }
        proof {
            lemma_advance_queue_shape(q0, light.color, *cfg, label, false);
            lemma_mooved_bounded_queue(q0[0], *cfg, light.color);
        }
        let h2: Car = q[0];
        if !car_before_line(&h2, cfg, label) && light.color == Light::Green {
            if crossing.len() == 0 {
                crossing.push(h2);
                let _entered = q.remove(0);
                proof {
                    assert(q@ =~= app_one(q0, cr0, light.color, *cfg, label).0);
                }
            }
        }
    }
}


} // verus!
