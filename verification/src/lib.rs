//! Verified core of a quadcopter flight stack: pilot input modes and
//! recordings, simulation stepping decisions, and telemetry field metadata.
use vstd::prelude::*;

pub mod controller;
pub mod fields;
pub mod fusion;
pub mod float_bits;
pub mod input;
pub mod sim;
pub mod spectrum;

verus! {
}
