use vstd::prelude::*;

verus! {

/// The turn a vehicle will make at the intersection, fixed when it is spawned.
#[derive(Clone, Copy, Debug, PartialEq, Eq, Structural)]
pub enum Direction {
    Left,
    Right,
    Straight,
}

/// The edge of the simulated world a vehicle originates from, fixed when it is
/// spawned. The same values also label the four approach and departure queues.
#[derive(Clone, Copy, Debug, PartialEq, Eq, Structural)]
pub enum Side {
    FromSouth,
    FromNorth,
    FromWest,
    FromEast,
}

/// The state of one traffic light.
#[derive(Clone, Copy, Debug, PartialEq, Eq, Structural)]
pub enum Light {
    Green,
    Red,
}

/// A traffic light gating one origin side's approach to the intersection.
#[derive(Clone, Copy, Debug, PartialEq, Eq, Structural)]
pub struct TrafficLight {
    pub color: Light,
}

} // verus!
