//! Core engine of a wave-based cell-defense simulation: actor attributes and
//! combat resolution, infection and conversion rules, substance drops, the
//! antidote batch economy, and the wave/phase state machine.
//!
//! Attribute quantities (health, damage, attack intervals, substance values)
//! are fixed-point integers with a scale of 100 (one unit is 100 ticks of the
//! representation); times are measured in the same scale, in hundredths of a
//! second.

use vstd::prelude::*;

pub mod antidote;
pub mod badcell;
pub mod cell;
pub mod fixed;
pub mod game;
pub mod gamefinish;
pub mod goodcell;
pub mod playerresource;
pub mod states;
mod rng;

verus! {

} // verus!
