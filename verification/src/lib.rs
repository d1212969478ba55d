//! Core logic of a small incremental digging game: the digging progression
//! account, the per-activity state machines (shovel, bucket, drill,
//! robot/pulley), the alert affordances that spawn interaction cards, and the
//! captcha gate that unlocks the robot. All timing is carried in integer
//! milliseconds and drill axes in integer thousandths of a unit, so every
//! state transition is exact arithmetic.

use vstd::prelude::*;

pub mod captcha;
pub mod cards;
pub mod digging;
pub mod hole;

verus! {

/// Scoops of dirt that make up one block of the hole.
pub const SCOOPS_PER_BLOCK: u32 = 4;

/// Scoops of dirt that make up one meter of depth.
pub const SCOOPS_PER_METER: u32 = 28;

/// Horizontal blocks in one meter of the hole.
pub const BLOCKS_PER_METER: u32 = SCOOPS_PER_METER / SCOOPS_PER_BLOCK;

} // verus!
