//! Sensor fusion strategies.
use vstd::prelude::*;

verus! {

/// Fusion that takes the gyroscope's angular velocity as is, without any
/// filtering.
#[derive(Clone, Copy, Debug)]
pub struct AngvelNoFiltering {}

} // verus!
