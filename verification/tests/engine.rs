use road_intersection::car::Car;
use road_intersection::config::{Config, Rgb};
use road_intersection::road::{exit_side_of, Road};
use road_intersection::se_base::{Direction, Light, Side, TrafficLight};

fn cfg() -> Config {
    Config {
        output_width: 800,
        output_height: 600,
        car_width: 40,
        car_height: 40,
        min_velocity: 2,
        max_velocity: 10,
        security_distance: 20,
        color_left: Rgb { red: 255, green: 0, blue: 0 },
        color_straight: Rgb { red: 0, green: 255, blue: 0 },
        color_right: Rgb { red: 0, green: 0, blue: 255 },
    }
}

fn car(side: Side, direction: Direction, x: i32, y: i32, v: i32) -> Car {
    Car {
        x,
        y,
        color: Rgb { red: 9, green: 9, blue: 9 },
        direction,
        side,
        velocity: v,
    }
}

fn green() -> TrafficLight {
    TrafficLight { color: Light::Green }
}

fn red() -> TrafficLight {
    TrafficLight { color: Light::Red }
}

fn green_count(r: &Road) -> usize {
    [
        r.north_lights.color,
        r.south_lights.color,
        r.east_lights.color,
        r.west_lights.color,
    ]
    .iter()
    .filter(|c| **c == Light::Green)
    .count()
}

fn total_cars(r: &Road) -> usize {
    r.cars_before_stop_north.len()
        + r.cars_before_stop_south.len()
        + r.cars_before_stop_east.len()
        + r.cars_before_stop_west.len()
        + r.cars_in_intersection.len()
        + r.cars_after_stop_north.len()
        + r.cars_after_stop_south.len()
        + r.cars_after_stop_east.len()
        + r.cars_after_stop_west.len()
}

#[test]
fn east_left_exits_to_north_queue() {
    // A vehicle from the east turning left, already on the destination lane
    // and one step away from clearing the zone, must leave the crossing slot
    // for the north departure queue and touch no other queue. As the new
    // head of that departure queue it advances once more in the same tick:
    // 225 - 6 = 219 on leaving the slot, then 219 - 6 = 213.
    let c = cfg();
    let mut road = Road::new();
    road.cars_in_intersection
        .push(car(Side::FromEast, Direction::Left, 400, 225, 6));
    road.simulation_loop(&c);
    assert_eq!(road.cars_in_intersection.len(), 0);
    assert_eq!(road.cars_after_stop_north.len(), 1);
    assert_eq!(road.cars_after_stop_north[0].x, 400);
    assert_eq!(road.cars_after_stop_north[0].y, 213);
    assert_eq!(road.cars_after_stop_south.len(), 0);
    assert_eq!(road.cars_after_stop_east.len(), 0);
    assert_eq!(road.cars_after_stop_west.len(), 0);
}

#[test]
fn routing_table_all_twelve() {
    assert_eq!(exit_side_of(Side::FromEast, Direction::Left), Side::FromNorth);
    assert_eq!(exit_side_of(Side::FromEast, Direction::Straight), Side::FromWest);
    assert_eq!(exit_side_of(Side::FromEast, Direction::Right), Side::FromSouth);
    assert_eq!(exit_side_of(Side::FromNorth, Direction::Left), Side::FromWest);
    assert_eq!(exit_side_of(Side::FromNorth, Direction::Straight), Side::FromSouth);
    assert_eq!(exit_side_of(Side::FromNorth, Direction::Right), Side::FromEast);
    assert_eq!(exit_side_of(Side::FromWest, Direction::Left), Side::FromSouth);
    assert_eq!(exit_side_of(Side::FromWest, Direction::Straight), Side::FromEast);
    assert_eq!(exit_side_of(Side::FromWest, Direction::Right), Side::FromNorth);
    assert_eq!(exit_side_of(Side::FromSouth, Direction::Left), Side::FromEast);
    assert_eq!(exit_side_of(Side::FromSouth, Direction::Straight), Side::FromNorth);
    assert_eq!(exit_side_of(Side::FromSouth, Direction::Right), Side::FromWest);
}

#[test]
fn tie_break_prefers_east() {
    // Approach lengths east 3, west 3, north 1, south 0, all lights red:
    // after one tick east must hold the only green.
    let c = cfg();
    let mut road = Road::new();
    for i in 0..3 {
        road.cars_before_stop_east
            .push(car(Side::FromEast, Direction::Straight, -i * 100, 300, 5));
        road.cars_before_stop_west
            .push(car(Side::FromWest, Direction::Straight, 800 + i * 100, 260, 5));
    }
    road.cars_before_stop_north
        .push(car(Side::FromNorth, Direction::Straight, 360, 0, 5));
    road.simulation_loop(&c);
    assert_eq!(road.east_lights.color, Light::Green);
    assert_eq!(road.west_lights.color, Light::Red);
    assert_eq!(road.north_lights.color, Light::Red);
    assert_eq!(road.south_lights.color, Light::Red);
}

#[test]
fn longest_queue_wins_when_no_tie() {
    let c = cfg();
    let mut road = Road::new();
    for i in 0..4 {
        road.cars_before_stop_south
            .push(car(Side::FromSouth, Direction::Straight, 400, 560 + i * 100, 5));
    }
    road.cars_before_stop_east
        .push(car(Side::FromEast, Direction::Straight, 0, 300, 5));
    road.simulation_loop(&c);
    assert_eq!(road.south_lights.color, Light::Green);
    assert_eq!(green_count(&road), 1);
}

#[test]
fn green_phase_forced_red() {
    // Whatever the queues hold, the tick after a green phase shows all red.
    let c = cfg();
    let mut road = Road::new();
    road.east_lights = green();
    for i in 0..5 {
        road.cars_before_stop_east
            .push(car(Side::FromEast, Direction::Straight, -i * 100, 300, 5));
    }
    road.simulation_loop(&c);
    assert_eq!(green_count(&road), 0);
}

#[test]
fn empty_road_cycles_lights_and_stays_empty() {
    // From a fresh intersection the queues stay empty forever and the
    // lights alternate: east green (winning the tie at length zero), then
    // all red, and so on.
    let c = cfg();
    let mut road = Road::new();
    for round in 0..10 {
        road.simulation_loop(&c);
        assert_eq!(total_cars(&road), 0);
        if round % 2 == 0 {
            assert_eq!(road.east_lights.color, Light::Green);
            assert_eq!(green_count(&road), 1);
        } else {
            assert_eq!(green_count(&road), 0);
        }
    }
}

#[test]
fn departure_follower_keeps_security_distance() {
    // West departure queue flows towards larger x. The head always moves;
    // a follower moves only if a full step keeps it more than the security
    // distance behind the head's new position.
    let c = cfg();
    let mut road = Road::new();
    // Vehicles from the north that turned left travel on the lane y = 300.
    road.cars_after_stop_west
        .push(car(Side::FromNorth, Direction::Left, 500, 300, 10));
    road.cars_after_stop_west
        .push(car(Side::FromNorth, Direction::Left, 450, 300, 10));
    road.cars_after_stop_west
        .push(car(Side::FromNorth, Direction::Left, 430, 300, 10));
    road.simulation_loop(&c);
    // Head: 500 -> 510. First follower: 450 + 10 = 460 < 510 - 20, moves.
    // Second follower: 430 + 10 = 440 is not < 460 - 20, stays.
    assert_eq!(road.cars_after_stop_west[0].x, 510);
    assert_eq!(road.cars_after_stop_west[1].x, 460);
    assert_eq!(road.cars_after_stop_west[2].x, 430);
    assert!(road.cars_after_stop_west[0].x - road.cars_after_stop_west[1].x > 20);
}

#[test]
fn approach_follower_keeps_security_distance() {
    // North approach flows towards larger y; all lights stay red on the
    // first tick only if another queue is longer, so check gaps only.
    let c = cfg();
    let mut road = Road::new();
    road.cars_before_stop_north
        .push(car(Side::FromNorth, Direction::Straight, 360, 100, 10));
    road.cars_before_stop_north
        .push(car(Side::FromNorth, Direction::Straight, 360, 50, 10));
    road.cars_before_stop_north
        .push(car(Side::FromNorth, Direction::Straight, 360, 85, 10));
    road.simulation_loop(&c);
    // Head: 100 -> 110 (far zone). First follower: 50 + 10 = 60 < 110 - 20,
    // moves to 60. Second follower: 85 + 10 = 95 is not < 60 - 20, stays.
    assert_eq!(road.cars_before_stop_north[0].y, 110);
    assert_eq!(road.cars_before_stop_north[1].y, 60);
    assert_eq!(road.cars_before_stop_north[2].y, 85);
}

#[test]
fn red_light_clamps_at_approach_zone() {
    let c = cfg();
    let mut road = Road::new();
    // East approach: far boundary at 400 - 80 = 320. A car at 310 with
    // velocity 20 would reach 330, inside the approach zone, and is clamped
    // to 320 under red.
    road.cars_before_stop_east
        .push(car(Side::FromEast, Direction::Straight, 310, 300, 20));
    // Make another queue longer so east does not win the green this tick.
    for i in 0..2 {
        road.cars_before_stop_south
            .push(car(Side::FromSouth, Direction::Straight, 400, 560 + i * 100, 5));
    }
    road.simulation_loop(&c);
    assert_eq!(road.cars_before_stop_east[0].x, 320);
}

#[test]
fn moove_zones_east() {
    let c = cfg();
    // Far zone: moves freely even under red.
    let mut a = car(Side::FromEast, Direction::Straight, 0, 300, 10);
    a.moove(&c, red());
    assert_eq!((a.x, a.y), (10, 300));
    // Approach zone under green: moves.
    let mut b = car(Side::FromEast, Direction::Straight, 330, 300, 10);
    b.moove(&c, green());
    assert_eq!((b.x, b.y), (340, 300));
    // Turn zone: left turn snaps to the vertical lane and heads north.
    let mut d = car(Side::FromEast, Direction::Left, 365, 300, 10);
    d.moove(&c, red());
    assert_eq!((d.x, d.y), (400, 290));
    // Turn zone: right turn snaps and heads south.
    let mut e = car(Side::FromEast, Direction::Right, 365, 300, 10);
    e.moove(&c, red());
    assert_eq!((e.x, e.y), (360, 310));
}

#[test]
fn moove_clamp_positions_all_sides() {
    let c = cfg();
    // North: clamp at 300 - 80 = 220.
    let mut n = car(Side::FromNorth, Direction::Straight, 360, 215, 10);
    n.moove(&c, red());
    assert_eq!(n.y, 220);
    // South: clamp at 300 + 40 = 340.
    let mut s = car(Side::FromSouth, Direction::Straight, 400, 385, 10);
    s.moove(&c, red());
    assert_eq!(s.y, 340);
    // East: clamp at 400 - 80 = 320.
    let mut e = car(Side::FromEast, Direction::Straight, 315, 300, 10);
    e.moove(&c, red());
    assert_eq!(e.x, 320);
    // West: clamp at 400 + 40 = 440.
    let mut w = car(Side::FromWest, Direction::Straight, 445, 260, 10);
    w.moove(&c, red());
    assert_eq!(w.x, 440);
}

#[test]
fn head_enters_empty_crossing_slot_on_green() {
    let c = cfg();
    let mut road = Road::new();
    road.east_lights = green();
    // Head already at the boundary; green light and empty slot: it enters.
    road.cars_before_stop_east
        .push(car(Side::FromEast, Direction::Straight, 320, 300, 5));
    // All greens are forced red first, so entry needs a green set by the
    // arbitration of this very tick: make east the longest queue instead.
    let mut road2 = Road::new();
    road2
        .cars_before_stop_east
        .push(car(Side::FromEast, Direction::Straight, 320, 300, 5));
    road2.simulation_loop(&c);
    assert_eq!(road2.east_lights.color, Light::Green);
    assert_eq!(road2.cars_in_intersection.len(), 1);
    assert_eq!(road2.cars_before_stop_east.len(), 0);
    // The transfer applies no movement on the tick it happens.
    assert_eq!(road2.cars_in_intersection[0].x, 320);
    // While a green from the previous tick is being forced red, nothing
    // enters.
    road.simulation_loop(&c);
    assert_eq!(road.cars_in_intersection.len(), 0);
    assert_eq!(road.cars_before_stop_east.len(), 1);
}

#[test]
fn busy_simulation_keeps_invariants() {
    // Crossing slot holds at most one vehicle, at most one light is green,
    // and no vehicle is ever lost or duplicated, over a long mixed run.
    let c = cfg();
    let mut road = Road::new();
    let dirs = [Direction::Left, Direction::Straight, Direction::Right];
    for i in 0..6 {
        let d = dirs[(i % 3) as usize];
        road.cars_before_stop_north
            .push(car(Side::FromNorth, Direction::Straight, 360, -i * 70, 4));
        road.cars_before_stop_south
            .push(car(Side::FromSouth, d, 400, 560 + i * 70, 6));
        road.cars_before_stop_east
            .push(car(Side::FromEast, d, -i * 70, 300, 5));
        road.cars_before_stop_west
            .push(car(Side::FromWest, Direction::Left, 760 + i * 70, 260, 3));
    }
    let total = total_cars(&road);
    for _ in 0..200 {
        road.simulation_loop(&c);
        assert!(road.cars_in_intersection.len() <= 1);
        assert!(green_count(&road) <= 1);
        assert_eq!(total_cars(&road), total);
    }
}

#[test]
fn spawn_positions_match_each_side() {
    let c = cfg();
    let e = Car::new(&c, Side::FromEast);
    assert_eq!((e.x, e.y), (0, 300));
    assert_eq!(e.side, Side::FromEast);
    let n = Car::new(&c, Side::FromNorth);
    assert_eq!((n.x, n.y), (360, 0));
    let s = Car::new(&c, Side::FromSouth);
    assert_eq!((s.x, s.y), (400, 560));
    let w = Car::new(&c, Side::FromWest);
    assert_eq!((w.x, w.y), (760, 260));
}

#[test]
fn spawn_color_follows_direction() {
    let c = cfg();
    for _ in 0..100 {
        let v = Car::new(&c, Side::FromNorth);
        let expected = match v.direction {
            Direction::Left => c.color_left,
            Direction::Straight => c.color_straight,
            Direction::Right => c.color_right,
        };
        assert_eq!(v.color, expected);
    }
}

#[test]
fn spawn_random_velocity_in_range_and_directions_spread() {
    // A thousand random spawns all stay inside the configured half-open
    // velocity range; over a large sample every direction and every side
    // shows up with roughly its share.
    let c = cfg();
    for _ in 0..1000 {
        let v = Car::random_car(&c);
        assert!(v.velocity >= c.min_velocity);
        assert!(v.velocity < c.max_velocity);
    }
    let mut left = 0;
    let mut straight = 0;
    let mut right = 0;
    let mut sides = [0usize; 4];
    for _ in 0..3000 {
        let v = Car::random_car(&c);
        match v.direction {
            Direction::Left => left += 1,
            Direction::Straight => straight += 1,
            Direction::Right => right += 1,
        }
        match v.side {
            Side::FromEast => sides[0] += 1,
            Side::FromNorth => sides[1] += 1,
            Side::FromSouth => sides[2] += 1,
            Side::FromWest => sides[3] += 1,
        }
    }
    assert!(left > 700 && straight > 700 && right > 700);
    for count in sides.iter() {
        assert!(*count > 500);
    }
}
