use vstd::prelude::*;
use crate::se_base::Direction;

verus! {

/// One entry of the three-colour vehicle palette, held as plain channel
/// values so that contracts can speak about it directly.
#[derive(Clone, Copy, Debug, PartialEq, Eq, Structural)]
pub struct Rgb {
    pub red: u8,
    pub green: u8,
    pub blue: u8,
}

/// The fixed parameters of the simulated world: its pixel dimensions, the
/// bounding box shared by all vehicles, the half-open velocity range used at
/// spawn time, the minimum gap a trailing vehicle must keep, and the palette
/// that maps a turn direction to a colour. One immutable value of this type
/// is handed to every operation of the engine.
#[derive(Clone, Copy, Debug, PartialEq, Eq, Structural)]
pub struct Config {
    pub output_width: i32,
    pub output_height: i32,
    pub car_width: i32,
    pub car_height: i32,
    pub min_velocity: i32,
    pub max_velocity: i32,
    pub security_distance: i32,
    pub color_left: Rgb,
    pub color_straight: Rgb,
    pub color_right: Rgb,
}

impl Config {
    /// Well-formed configurations: positive bounding box that fits the world
    /// at least four times over, a non-empty positive velocity range, and a
    /// non-negative security distance. The numeric caps keep every position
    /// computation of the engine inside `i32`.
    pub open spec fn wf(self) -> bool {
        &&& 0 < self.car_width <= 16384
        &&& 0 < self.car_height <= 16384
        &&& 4 * self.car_width <= self.output_width <= 1000000
        &&& 4 * self.car_height <= self.output_height <= 1000000
        &&& 0 < self.min_velocity
        &&& self.min_velocity < self.max_velocity <= 1000000
        &&& 0 <= self.security_distance <= 1000000
    }

    /// The palette entry that a vehicle of the given turn direction wears.
    pub open spec fn palette(self, direction: Direction) -> Rgb {
        match direction {
            Direction::Left => self.color_left,
            Direction::Straight => self.color_straight,
            Direction::Right => self.color_right,
        }
    }
}

/// Half of a non-negative pixel dimension, as the engine's reference lines
/// are all placed relative to the centre of the world.
pub fn half(n: i32) -> (r: i32)
    requires
        0 <= n,
    ensures
        r == n as int / 2,
{
    ((n as u32) / 2) as i32
}

} // verus!
