use vstd::prelude::*;

verus! {

/// The interpolation shape used between the low and the high temperature.
#[derive(Clone, Copy, Debug, PartialEq, Eq, Structural)]
pub enum SpeedCurve {
    Linear,
    Exponential,
    Logarithmic,
}

/// Policy for one fan, supplied from outside and never changed by the controller.
#[derive(Clone, Copy, Debug, PartialEq, Eq, Structural)]
pub struct FanConfig {
    /// Ceiling on every speed the controller computes or writes.
    pub max_allowed_speed: u32,
    /// Run at full speed whatever the temperature.
    pub always_full_speed: bool,
    /// At or below this temperature the fan idles at its minimum speed.
    pub low_temp: u8,
    /// At or above this temperature the fan runs at its maximum speed.
    pub high_temp: u8,
    pub speed_curve: SpeedCurve,
}

} // verus!
