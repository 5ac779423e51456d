//! Verified core of a 2D steering-behaviour simulation.
//!
//! Autonomous agents ("bots") seek, flee from, or wander around a shared
//! target point. All geometry is fixed-point: one pixel is `SCALE` units,
//! every coordinate an `i64`. The per-tick steering computation and the
//! integration of impulses into position/velocity state are verified; the
//! windowing, rendering and raw-input layers live outside the library.

use vstd::prelude::*;

pub mod behaviour;
pub mod bot;
pub mod extensions;
pub mod keyboard;
pub mod math;
pub mod notification;
pub mod sim;
pub mod target;
pub mod vec2;

verus! {

/// Fixed-point scale: number of coordinate units per pixel.
pub const SCALE: i64 = 1000;

/// Top speed of a bot, in units per tick (ten pixels).
pub const MAX_SPEED: i64 = 10 * SCALE;

/// Largest steering impulse a tick may apply, in units (three pixels).
pub const MAX_IMPULSE: i64 = 3 * SCALE;

/// Drag: each tick the clamped velocity keeps `FRICTION_NUM / FRICTION_DEN`
/// of itself (a friction coefficient of one tenth).
pub const FRICTION_NUM: i64 = 9;

/// Denominator of the retained-velocity fraction.
pub const FRICTION_DEN: i64 = 10;

/// Squared distance (one tenth of a squared pixel) under which a fleeing
/// bot treats the target as coincident and picks a random direction.
pub const NEAR_ZERO_NORM_SQ: i64 = 100_000;

/// Trigger radius that makes plain flee act everywhere (ten thousand
/// pixels).
pub const SIMPLE_FLEE_RADIUS: i64 = 10_000 * SCALE;

/// Speed of the user-driven target, in units per tick (five pixels).
pub const TARGET_SPEED: i64 = 5 * SCALE;

/// Upper bound on every behaviour parameter (radii, wander speeds).
pub const PARAM_LIMIT: i64 = 100_000_000;

/// A bot's visual radius is the view height divided by this.
pub const RADIUS_DIVISOR: i64 = 36;

} // verus!
