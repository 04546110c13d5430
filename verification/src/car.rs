use vstd::prelude::*;
use crate::config::{Config, Rgb, half};
use crate::se_base::{Direction, Light, Side, TrafficLight};

verus! {

/// A vehicle: a position in pixels, a colour determined by its turn
/// direction, the fixed turn it will make, the fixed edge it came from, and
/// the fixed speed it moves at.
#[derive(Clone, Copy, Debug, PartialEq, Eq, Structural)]
pub struct Car {
    pub x: i32,
    pub y: i32,
    pub color: Rgb,
    pub direction: Direction,
    pub side: Side,
    pub velocity: i32,
}

impl Car {
    /// Coordinates a driver may hand to the engine at the start of a tick,
    /// with a velocity small enough that a tick of movement stays in `i32`.
    pub open spec fn bounded(self) -> bool {
        &&& -1000000000 <= self.x <= 1000000000
        &&& -1000000000 <= self.y <= 1000000000
        &&& 0 <= self.velocity <= 1000000
    }

    /// The loosest coordinates on which one more step of movement is still
    /// safe; a `bounded` vehicle stays inside this margin for a whole tick.
    pub open spec fn step_bounded(self) -> bool {
        &&& -1150000000 <= self.x <= 1150000000
        &&& -1150000000 <= self.y <= 1150000000
        &&& 0 <= self.velocity <= 1000000
    }

    /// The same vehicle at another position.
    pub open spec fn with_pos(self, x: int, y: int) -> Car {
        Car {
            x: x as i32,
            y: y as i32,
            color: self.color,
            direction: self.direction,
            side: self.side,
            velocity: self.velocity,
        }
    }

    /// Where a vehicle spawned on the given side starts: just outside the
    /// intersection, on the lane belonging to that side.
    pub open spec fn spawn_x(cfg: Config, side: Side) -> int {
        match side {
            Side::FromEast => 0,
            Side::FromNorth => cfg.output_width as int / 2 - cfg.car_width,
            Side::FromSouth => cfg.output_width as int / 2,
            Side::FromWest => cfg.output_width - cfg.car_width,
        }
    }

    /// The matching initial vertical coordinate.
    pub open spec fn spawn_y(cfg: Config, side: Side) -> int {
        match side {
            Side::FromEast => cfg.output_height as int / 2,
            Side::FromNorth => 0,
            Side::FromSouth => cfg.output_height - cfg.car_height,
            Side::FromWest => cfg.output_height as int / 2 - cfg.car_height,
        }
    }

    /// One tick of movement under the given light. Three zones, measured
    /// from the reference line of the vehicle's origin side: in the far zone
    /// it moves freely by its velocity; in the approach zone it moves only on
    /// green and is otherwise clamped to the zone boundary; once a step would
    /// reach the line itself it follows its turn direction, left and right
    /// turns snapping instantaneously onto the destination lane.
    pub open spec fn mooved(self, cfg: Config, light: Light) -> Car {
        let w2 = cfg.output_width as int / 2;
        let h2 = cfg.output_height as int / 2;
        let v = self.velocity as int;
        match self.side {
            Side::FromEast => {
                if self.x + v < w2 - 2 * cfg.car_width {
                    self.with_pos(self.x + v, self.y as int)
                } else if self.x + v < w2 - cfg.car_width {
                    if light == Light::Green {
                        self.with_pos(self.x + v, self.y as int)
                    } else {
                        self.with_pos(w2 - 2 * cfg.car_width, self.y as int)
                    }
                } else {
                    match self.direction {
                        Direction::Left => self.with_pos(w2, self.y - v),
                        Direction::Right => self.with_pos(w2 - cfg.car_width, self.y + v),
                        Direction::Straight => self.with_pos(self.x + v, self.y as int),
                    }
                }
            },
            Side::FromNorth => {
                if self.y + v < h2 - 2 * cfg.car_height {
                    self.with_pos(self.x as int, self.y + v)
                } else if self.y + v < h2 - cfg.car_height {
                    if light == Light::Green {
                        self.with_pos(self.x as int, self.y + v)
                    } else {
                        self.with_pos(self.x as int, h2 - 2 * cfg.car_height)
                    }
                } else {
                    match self.direction {
                        Direction::Left => self.with_pos(self.x + v, h2),
                        Direction::Right => self.with_pos(self.x - v, h2 - cfg.car_height),
                        Direction::Straight => self.with_pos(self.x as int, self.y + v),
                    }
                }
            },
            Side::FromWest => {
                if self.x - v > w2 + 2 * cfg.car_width {
                    self.with_pos(self.x - v, self.y as int)
                } else if self.x - v > w2 {
                    if light == Light::Green {
                        self.with_pos(self.x - v, self.y as int)
                    } else {
                        self.with_pos(w2 + cfg.car_width, self.y as int)
                    }
                } else {
                    match self.direction {
                        Direction::Left => self.with_pos(w2 - cfg.car_width, self.y + v),
                        Direction::Right => self.with_pos(w2, self.y - v),
                        Direction::Straight => self.with_pos(self.x - v, self.y as int),
                    }
                }
            },
            Side::FromSouth => {
                if self.y - v > h2 + 2 * cfg.car_height {
                    self.with_pos(self.x as int, self.y - v)
                } else if self.y - v > h2 {
                    if light == Light::Green {
                        self.with_pos(self.x as int, self.y - v)
                    } else {
                        self.with_pos(self.x as int, h2 + cfg.car_height)
                    }
                } else {
                    match self.direction {
                        Direction::Left => self.with_pos(self.x - v, h2 - cfg.car_height),
                        Direction::Right => self.with_pos(self.x + v, h2),
                        Direction::Straight => self.with_pos(self.x as int, self.y - v),
                    }
                }
            },
        }
    }

    /// Spawn a vehicle on the given side: the turn direction is drawn at
    /// random, the colour is the palette entry of that direction, the
    /// velocity is drawn from the configured half-open range, and the
    /// position is the fixed spawn point of the side.
    pub fn new(cfg: &Config, side: Side) -> (c: Car)
        requires
            cfg.wf(),
        ensures
            c.side == side,
            cfg.min_velocity <= c.velocity < cfg.max_velocity,
            c.color == cfg.palette(c.direction),
            c.x == Car::spawn_x(*cfg, side),
            c.y == Car::spawn_y(*cfg, side),
            c.bounded(),
    {
        let random_number = random_in_range(0, 3);
        let velocity = random_in_range(cfg.min_velocity, cfg.max_velocity);
        let direction: Direction;
        let color: Rgb;
        match random_number {
            0 => {
                direction = Direction::Left;
                color = cfg.color_left;
            },
            1 => {
                direction = Direction::Straight;
                color = cfg.color_straight;
            },
            _ => {
                direction = Direction::Right;
                color = cfg.color_right;
            },
        }
        match side {
            Side::FromEast => {
                let x: i32 = 0;
                let y: i32 = half(cfg.output_height);
                Car { x, y, color, direction, side, velocity }
            },
            Side::FromNorth => {
                let x: i32 = half(cfg.output_width) - cfg.car_width;
                let y: i32 = 0;
                Car { x, y, color, direction, side, velocity }
            },
            Side::FromSouth => {
                let x: i32 = half(cfg.output_width);
                let y: i32 = cfg.output_height - cfg.car_height;
                Car { x, y, color, direction, side, velocity }
            },
            Side::FromWest => {
                let x: i32 = cfg.output_width - cfg.car_width;
                let y: i32 = half(cfg.output_height) - cfg.car_height;
                Car { x, y, color, direction, side, velocity }
            },
        }
    }

    /// Spawn a vehicle whose origin side is itself drawn at random.
    pub fn random_car(cfg: &Config) -> (c: Car)
        requires
            cfg.wf(),
        ensures
            cfg.min_velocity <= c.velocity < cfg.max_velocity,
            c.color == cfg.palette(c.direction),
            c.x == Car::spawn_x(*cfg, c.side),
            c.y == Car::spawn_y(*cfg, c.side),
            c.bounded(),
    {
        let random_number = random_in_range(0, 4);
        match random_number {
            0 => Car::new(cfg, Side::FromEast),
            1 => Car::new(cfg, Side::FromNorth),
            2 => Car::new(cfg, Side::FromSouth),
            _ => Car::new(cfg, Side::FromWest),
        }
    }

    /// One tick of movement under the given light; the new state is exactly
    /// the one `mooved` describes.
    pub fn moove(&mut self, cfg: &Config, feu: TrafficLight)
        requires
            cfg.wf(),
            old(self).step_bounded(),
        ensures
            *final(self) == old(self).mooved(*cfg, feu.color),
    {
        let w2: i32 = half(cfg.output_width);
        let h2: i32 = half(cfg.output_height);
        match self.side {
            Side::FromEast => {
                if self.x + self.velocity < w2 - 2 * cfg.car_width {
                    self.x = self.x + self.velocity;
                } else if self.x + self.velocity < w2 - cfg.car_width {
                    if feu.color == Light::Green {
                        self.x = self.x + self.velocity;
                    } else {
                        self.x = w2 - 2 * cfg.car_width;
                    }
                } else {
                    match self.direction {
                        Direction::Left => {
                            self.x = w2;
                            self.y = self.y - self.velocity;
                        },
                        Direction::Right => {
                            self.x = w2 - cfg.car_width;
                            self.y = self.y + self.velocity;
                        },
                        Direction::Straight => {
                            self.x = self.x + self.velocity;
                        },
                    }
                }
            },
            Side::FromNorth => {
                if self.y + self.velocity < h2 - 2 * cfg.car_height {
                    self.y = self.y + self.velocity;
                } else if self.y + self.velocity < h2 - cfg.car_height {
                    if feu.color == Light::Green {
                        self.y = self.y + self.velocity;
                    } else {
                        self.y = h2 - 2 * cfg.car_height;
                    }
                } else {
                    match self.direction {
                        Direction::Left => {
                            self.y = h2;
                            self.x = self.x + self.velocity;
                        },
                        Direction::Right => {
                            self.y = h2 - cfg.car_height;
                            self.x = self.x - self.velocity;
                        },
                        Direction::Straight => {
                            self.y = self.y + self.velocity;
                        },
                    }
                }
            },
            Side::FromWest => {
                if self.x - self.velocity > w2 + 2 * cfg.car_width {
                    self.x = self.x - self.velocity;
                } else if self.x - self.velocity > w2 {
                    if feu.color == Light::Green {
                        self.x = self.x - self.velocity;
                    } else {
                        self.x = w2 + cfg.car_width;
                    }
                } else {
                    match self.direction {
                        Direction::Left => {
                            self.x = w2 - cfg.car_width;
                            self.y = self.y + self.velocity;
                        },
                        Direction::Right => {
                            self.x = w2;
                            self.y = self.y - self.velocity;
                        },
                        Direction::Straight => {
                            self.x = self.x - self.velocity;
                        },
                    }
                }
            },
            Side::FromSouth => {
                if self.y - self.velocity > h2 + 2 * cfg.car_height {
                    self.y = self.y - self.velocity;
                } else if self.y - self.velocity > h2 {
                    if feu.color == Light::Green {
                        self.y = self.y - self.velocity;
                    } else {
                        self.y = h2 + cfg.car_height;
                    }
                } else {
                    match self.direction {
                        Direction::Left => {
                            self.y = h2 - cfg.car_height;
                            self.x = self.x - self.velocity;
                        },
                        Direction::Right => {
                            self.y = h2;
                            self.x = self.x + self.velocity;
                        },
                        Direction::Straight => {
                            self.y = self.y - self.velocity;
                        },
                    }
                }
            },
        }
    }
}

/// Relies on rand::random_range: a value drawn uniformly from the given
/// half-open range; the range is non-empty, so the call does not panic.
#[verifier::external_body]
fn random_in_range(lo: i32, hi: i32) -> (r: i32)
    requires
        lo < hi,
    ensures
        lo <= r < hi,
{
    rand::random_range(lo..hi)
}

/// How far one tick of movement can take a vehicle: each coordinate either
/// changes by at most the velocity or lands on a lane or clamp line near the
/// centre of the world.
pub proof fn lemma_mooved_bounded(c: Car, cfg: Config, light: Light, b: int)
    requires
        cfg.wf(),
        0 <= b <= 1400000000,
        -b <= c.x <= b,
        -b <= c.y <= b,
        0 <= c.velocity <= 1000000,
    ensures
        -(b + 1000000) <= c.mooved(cfg, light).x <= b + 1000000,
        -(b + 1000000) <= c.mooved(cfg, light).y <= b + 1000000,
        c.mooved(cfg, light).color == c.color,
        c.mooved(cfg, light).direction == c.direction,
        c.mooved(cfg, light).side == c.side,
        c.mooved(cfg, light).velocity == c.velocity,
{
}

} // verus!
