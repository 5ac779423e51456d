//! The steering-behaviour selector: which algorithm is active, with its
//! parameters embedded in the variant.

use vstd::prelude::*;

use crate::PARAM_LIMIT;
use crate::SCALE;

verus! {

/// Radius of the stock wander circle (two pixels).
pub const WANDER_RADIUS: i64 = 2 * SCALE;

/// Forward offset of the stock wander circle (three pixels).
pub const WANDER_CENTER: i64 = 3 * SCALE;

/// Milliseconds between two re-randomizations of the stock wander.
pub const WANDER_INTERVAL_MS: u64 = 100;

/// Arrival radius the seek-and-arrive hotkey selects (sixty pixels).
pub const ARRIVE_RADIUS: i64 = 60 * SCALE;

/// Trigger radius the flee hotkey selects (a hundred pixels).
pub const FLEE_TRIGGER_RADIUS: i64 = 100 * SCALE;

/// Parameters of the wander behaviour: the radius of the wander circle,
/// its forward offset along the current heading (`center`), and the number
/// of milliseconds between two re-randomizations of the wander direction.
#[derive(Debug, Clone, Copy, PartialEq, Eq, Structural)]
pub struct WanderProps {
    pub radius: i64,
    pub center: i64,
    pub interval: u64,
}

impl WanderProps {
    /// Parameters small enough for the steering arithmetic.
    pub open spec fn wf(self) -> bool {
        &&& 0 <= self.radius <= PARAM_LIMIT
        &&& 0 <= self.center <= PARAM_LIMIT
    }
}

impl Default for WanderProps {
    /// The stock wander: a two-pixel circle three pixels ahead, re-rolled
    /// every 100 ms.
    fn default() -> (w: WanderProps)
        ensures
            w.radius == WANDER_RADIUS,
            w.center == WANDER_CENTER,
            w.interval == WANDER_INTERVAL_MS,
            w.wf(),
    {
        WanderProps {
            radius: WANDER_RADIUS,
            center: WANDER_CENTER,
            interval: WANDER_INTERVAL_MS,
        }
    }
}

/// The active steering algorithm, replaced wholesale on user selection.
#[derive(Debug, Clone, Copy, PartialEq, Eq, Structural)]
pub enum SteeringBehaviour {
    SimpleSeek,
    SimpleFlee,
    SeekAndArrive(i64),
    Flee(i64),
    Wander(WanderProps),
    SeekSquad(i64, i64),
}

impl SteeringBehaviour {
    /// Every embedded parameter is a nonnegative value within
    /// `PARAM_LIMIT`.
    pub open spec fn wf(self) -> bool {
        match self {
            SteeringBehaviour::SimpleSeek => true,
            SteeringBehaviour::SimpleFlee => true,
            SteeringBehaviour::SeekAndArrive(radius) => 0 <= radius <= PARAM_LIMIT,
            SteeringBehaviour::Flee(radius) => 0 <= radius <= PARAM_LIMIT,
            SteeringBehaviour::Wander(props) => props.wf(),
            SteeringBehaviour::SeekSquad(target_radius, flee_radius) => {
                &&& 0 <= target_radius <= PARAM_LIMIT
                &&& 0 <= flee_radius <= PARAM_LIMIT
            },
        }
    }

    /// Human-readable name of the variant.
    pub fn name(&self) -> (r: &'static str)
        ensures
            r@ == match *self {
                SteeringBehaviour::SimpleSeek => "Simple Seek"@,
                SteeringBehaviour::SimpleFlee => "Simple Flee"@,
                SteeringBehaviour::SeekAndArrive(_) => "Seek and Arrive"@,
                SteeringBehaviour::Flee(_) => "Flee"@,
                SteeringBehaviour::Wander(_) => "Wander"@,
                SteeringBehaviour::SeekSquad(_, _) => "Seek Squad"@,
            },
    {
        match *self {
            SteeringBehaviour::SimpleSeek => "Simple Seek",
            SteeringBehaviour::SimpleFlee => "Simple Flee",
            SteeringBehaviour::SeekAndArrive(_) => "Seek and Arrive",
            SteeringBehaviour::Flee(_) => "Flee",
            SteeringBehaviour::Wander(_) => "Wander",
            SteeringBehaviour::SeekSquad(_, _) => "Seek Squad",
        }
    }
}

} // verus!
