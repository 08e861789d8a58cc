//! Fixed-timestep bullet-hell combat core.
//!
//! The simulation advances a population of moving, colliding, scripted
//! actors (player, enemies, a boss, projectiles, visual effects) once per
//! simulated tick, driven by a pre-parsed spawn timeline.  All quantities
//! are fixed-point integers:
//!
//! - lengths are stored in units of 1/3600 of a play-field pixel, so that
//!   a velocity given in pixels per second becomes an exact integer number
//!   of units per tick (60 ticks per second);
//! - a shot's direction is an angle-fraction, stored in units of
//!   1/300000: a fraction of 1.0 is half a turn (pi radians), 0 points
//!   straight down and the angle grows clockwise;
//! - life is stored in tenths, so a shot's alive flag is `LIFE_ONE`;
//! - sine and cosine are the library's own fixed-point approximations,
//!   scaled by `TRIG_ONE`.
use vstd::prelude::*;

pub mod actor;
pub mod collide;
pub mod motion;
pub mod num;
pub mod session;
pub mod shot_type;
pub mod stage;
pub mod trig;

verus! {

/// Length units per design pixel.
pub const PX: i64 = 3600;

/// Angle units per 1.0 of angle-fraction (half a turn).
pub const FRAC_ONE: i64 = 300000;

/// Angle units per full turn (angle-fraction 2.0).
pub const FRAC_TWO: i64 = 600000;

/// Angle units per quarter turn (angle-fraction 0.5).
pub const FRAC_HALF: i64 = 150000;

/// Fixed-point scale of the trigonometric approximations: `TRIG_ONE`
/// stands for 1.0.
pub const TRIG_ONE: i64 = 60000;

/// Life units per 1.0 of health; a live shot's life is exactly this.
pub const LIFE_ONE: i64 = 10;

/// Top wall of the play field (30 pixels).
pub const STAGE_UP: i64 = 108000;

/// Bottom wall of the play field (930 pixels).
pub const STAGE_DOWN: i64 = 3348000;

/// Left wall of the play field (60 pixels).
pub const STAGE_LEFT: i64 = 216000;

/// Right wall of the play field (830 pixels).
pub const STAGE_RIGHT: i64 = 2988000;

/// Outward margin (30 pixels) granted beyond the walls to every
/// non-player kind before the soft boundary acts.
pub const MARGIN: i64 = 108000;

/// Magnitude bound on every fixed-point field of the simulation
/// (2 to the 45th); integration clamps at it, so products with the
/// trigonometric scale stay within `i64`.
pub const FIX_MAX: i64 = 35184372088832;

} // verus!
