use vstd::prelude::*;

use crate::config::{FanConfig, SpeedCurve};
use crate::text::{decimal, encode_decimal};

verus! {

/// The smaller of two integers.
pub open spec fn min_of(a: int, b: int) -> int {
    if a <= b { a } else { b }
}

/// How far above the minimum speed a curve places a temperature that lies
/// `t` degrees above the low threshold, where the thresholds are `span`
/// degrees apart and the hardware bounds `range` apart.
///
/// The logarithmic curve, `floor(range * log_span(t))`, is a floating-point
/// value that the caller supplies as `log_offset`; it never reaches past `range`.
pub open spec fn curve_offset(curve: SpeedCurve, t: int, span: int, range: int, log_offset: int) -> int {
    match curve {
        SpeedCurve::Linear => range * t / span,
        SpeedCurve::Exponential => range * (t * t * t) / (span * span * span),
        SpeedCurve::Logarithmic => min_of(log_offset, range),
    }
}

/// One fan: its configuration and the speed bounds its hardware reports.
#[derive(Clone, Copy, Debug, PartialEq, Eq, Structural)]
pub struct FanController {
    pub config: FanConfig,
    /// Lowest speed the hardware accepts; taken to be at most `max_speed`.
    pub min_speed: u32,
    /// Highest speed the hardware accepts.
    pub max_speed: u32,
}

impl FanController {
    /// A controller for a fan whose hardware reports the given bounds.
    pub fn new(config: FanConfig, min_speed: u32, max_speed: u32) -> (r: FanController)
        ensures
            r == (FanController { config, min_speed, max_speed }),
    {
        FanController { config, min_speed, max_speed }
    }

    /// The byte that switches the fan to manual control (`'1'`) or hands it
    /// back to the hardware (`'0'`).
    pub fn set_manual(&self, enabled: bool) -> (r: u8)
        ensures
            r == (if enabled { '1' as u8 } else { '0' as u8 }),
    {
        if enabled { 0x31 } else { 0x30 }
    }

    /// The text to write to the output file for a requested speed: the
    /// decimal digits of the clamped speed. The controller is left as it was.
    pub fn set_speed(&mut self, speed: u32) -> (r: Vec<u8>)
        ensures
            *final(self) == *old(self),
            r@ == decimal(old(self).clamped(speed) as nat),
            old(self).clamped(speed) <= old(self).config.max_allowed_speed,
            old(self).min_speed <= old(self).max_speed ==> old(self).clamped(speed) <= old(self).max_speed,
    {
        let v = self.clamp_speed(speed);
        encode_decimal(v)
    }

    /// The value `set_speed` writes for a requested speed: first clamped to
    /// the hardware bounds, then capped by the configured ceiling.
    pub open spec fn clamped(self, speed: u32) -> u32 {
        let hw = if speed < self.min_speed {
            self.min_speed
        } else if speed > self.max_speed {
            self.max_speed
        } else {
            speed
        };
        if hw > self.config.max_allowed_speed {
            self.config.max_allowed_speed
        } else {
            hw
        }
    }

    /// The speed recommended at `temp`, before the configured ceiling.
    pub open spec fn curve_speed(self, temp: u8, log_offset: u32) -> int {
        if temp <= self.config.low_temp {
            self.min_speed as int
        } else if temp >= self.config.high_temp {
            self.max_speed as int
        } else {
            self.min_speed + curve_offset(
                self.config.speed_curve,
                temp - self.config.low_temp,
                self.config.high_temp - self.config.low_temp,
                self.max_speed - self.min_speed,
                log_offset as int,
            )
        }
    }

    /// The speed `calc_speed` recommends at `temp`.
    pub open spec fn speed_at(self, temp: u8, log_offset: u32) -> int {
        if self.config.always_full_speed {
            min_of(self.config.max_allowed_speed as int, self.max_speed as int)
        } else {
            min_of(self.curve_speed(temp, log_offset), self.config.max_allowed_speed as int)
        }
    }

    /// Whether `calc_speed` needs the logarithmic curve's offset at `temp`.
    pub open spec fn needs_log_offset(self, temp: u8) -> bool {
        &&& !self.config.always_full_speed
        &&& self.config.speed_curve == SpeedCurve::Logarithmic
        &&& self.config.low_temp < temp < self.config.high_temp
    }

    /// Computes the speed for temperature `temp` without writing it.
    ///
    /// `log_offset` is `floor(range * log_span(t))` for the logarithmic curve,
    /// computed by the caller in floating point from the values that
    /// `log_curve_args` returns; it is read only when `needs_log_offset(temp)`
    /// holds, and is taken as at most `max_speed - min_speed`.
    pub fn calc_speed(&self, temp: u8, log_offset: u32) -> (r: u32)
        requires
            self.min_speed <= self.max_speed,
        ensures
            r == self.speed_at(temp, log_offset),
            !self.needs_log_offset(temp) ==> forall|o: u32| #[trigger] self.speed_at(temp, o) == r,
    {
        let cap = self.config.max_allowed_speed;
        if self.config.always_full_speed {
            return if cap <= self.max_speed { cap } else { self.max_speed };
        }
        let speed: u32 = if temp <= self.config.low_temp {
            self.min_speed
        } else if temp >= self.config.high_temp {
            self.max_speed
        } else {
            let t = (temp - self.config.low_temp) as u64;
            let span = (self.config.high_temp - self.config.low_temp) as u64;
            let range = (self.max_speed - self.min_speed) as u64;
            let offset: u64 = match self.config.speed_curve {
                SpeedCurve::Linear => {
                    assert(range * t <= 0xffff_ffff * 255) by (nonlinear_arith)
                        requires range <= 0xffff_ffff, t <= 255;
                    assert((range * t) / (span as int) <= range) by (nonlinear_arith)
                        requires t < span, 0 <= range;
                    range * t / span
                },
                SpeedCurve::Exponential => {
                    assert(t * t <= 255 * 255 && t * t * t <= 255 * 255 * 255) by (nonlinear_arith)
                        requires t <= 255;
                    assert(span * span <= 255 * 255 && span * span * span <= 255 * 255 * 255) by (nonlinear_arith)
                        requires span <= 255;
                    let t3 = t * t * t;
                    let span3 = span * span * span;
                    assert(t3 <= 255 * 255 * 255 && t3 < span3) by (nonlinear_arith)
                        requires t3 == t * t * t, span3 == span * span * span, t < span, span <= 255;
                    assert(range * t3 <= 0xffff_ffff * (255 * 255 * 255)) by (nonlinear_arith)
                        requires range <= 0xffff_ffff, t3 <= 255 * 255 * 255;
                    assert((range * t3) / (span3 as int) <= range) by (nonlinear_arith)
                        requires t3 < span3, 0 <= range;
                    range * t3 / span3
                },
                SpeedCurve::Logarithmic => {
                    if (log_offset as u64) < range { log_offset as u64 } else { range }
                },
            };
            self.min_speed + offset as u32
        };
        if speed <= cap { speed } else { cap }
    }

    /// The three values the logarithmic curve is computed from at `temp`:
    /// degrees above the low threshold, degrees between the thresholds, and
    /// the width of the hardware speed range; `None` where `calc_speed` does
    /// not read its `log_offset` at `temp`.
    pub fn log_curve_args(&self, temp: u8) -> (r: Option<(u32, u32, u32)>)
        requires
            self.min_speed <= self.max_speed,
        ensures
            r is Some <==> self.needs_log_offset(temp),
            r matches Some((t, span, range)) ==> {
                &&& t == temp - self.config.low_temp
                &&& span == self.config.high_temp - self.config.low_temp
                &&& range == self.max_speed - self.min_speed
            },
    {
        if !self.config.always_full_speed && self.config.speed_curve == SpeedCurve::Logarithmic
            && self.config.low_temp < temp && temp < self.config.high_temp {
            Some((
                (temp - self.config.low_temp) as u32,
                (self.config.high_temp - self.config.low_temp) as u32,
                self.max_speed - self.min_speed,
            ))
        } else {
            None
        }
    }

    pub fn clamp_speed(&self, speed: u32) -> (r: u32)
        ensures
            r == self.clamped(speed),
    {
        let mut v = speed;
        if v < self.min_speed {
            v = self.min_speed;
        } else if v > self.max_speed {
            v = self.max_speed;
        }
        if v > self.config.max_allowed_speed {
            v = self.config.max_allowed_speed;
        }
        v
    }
}

/// A written speed lies within the hardware bounds and under the ceiling.
pub proof fn written_speed_within_bounds(c: FanController, speed: u32)
    requires
        c.min_speed <= c.max_speed,
        c.min_speed <= c.config.max_allowed_speed,
    ensures
        c.min_speed <= c.clamped(speed) <= c.max_speed,
        c.clamped(speed) <= c.config.max_allowed_speed,
{
}

/// Clamping a speed that was already clamped leaves it unchanged, so a
/// repeated `set_speed` writes what the first one wrote.
pub proof fn clamp_idempotent(c: FanController, speed: u32)
    requires
        c.min_speed <= c.max_speed,
    ensures
        c.clamped(c.clamped(speed)) == c.clamped(speed),
{
}

/// At or below the low threshold, and without the full-speed override, the
/// fan idles at its minimum speed, provided the configured ceiling allows it.
pub proof fn idle_below_low_temp(c: FanController, temp: u8, log_offset: u32)
    requires
        !c.config.always_full_speed,
        temp <= c.config.low_temp,
        c.min_speed <= c.config.max_allowed_speed,
    ensures
        c.speed_at(temp, log_offset) == c.min_speed,
{
}

/// At or above the high threshold, and without the full-speed override, the
/// fan runs at its maximum speed, capped by the configured ceiling.
pub proof fn full_above_high_temp(c: FanController, temp: u8, log_offset: u32)
    requires
        !c.config.always_full_speed,
        c.config.low_temp < c.config.high_temp,
        temp >= c.config.high_temp,
    ensures
        c.speed_at(temp, log_offset) == min_of(c.max_speed as int, c.config.max_allowed_speed as int),
{
}

/// No computed speed exceeds the configured ceiling.
pub proof fn speed_within_ceiling(c: FanController, temp: u8, log_offset: u32)
    ensures
        c.speed_at(temp, log_offset) <= c.config.max_allowed_speed,
{
}

/// With the full-speed override, every temperature gives the smaller of the
/// ceiling and the hardware maximum.
pub proof fn full_speed_override(c: FanController, temp: u8, log_offset: u32)
    requires
        c.config.always_full_speed,
    ensures
        c.speed_at(temp, log_offset) == min_of(c.config.max_allowed_speed as int, c.max_speed as int),
{
}

/// With the linear or the exponential curve, the computed speed never falls
/// as the temperature rises.
pub proof fn speed_monotone(c: FanController, t1: u8, t2: u8, log_offset: u32)
    requires
        c.min_speed <= c.max_speed,
        c.config.speed_curve != SpeedCurve::Logarithmic,
        t1 <= t2,
    ensures
        c.speed_at(t1, log_offset) <= c.speed_at(t2, log_offset),
{
    if !c.config.always_full_speed {
        curve_speed_monotone(c, t1, t2, log_offset);
    }
}

proof fn curve_speed_monotone(c: FanController, t1: u8, t2: u8, log_offset: u32)
    requires
        c.min_speed <= c.max_speed,
        c.config.speed_curve != SpeedCurve::Logarithmic,
        t1 <= t2,
    ensures
        c.min_speed <= c.curve_speed(t1, log_offset) <= c.curve_speed(t2, log_offset) <= c.max_speed,
{
    let low = c.config.low_temp as int;
    let high = c.config.high_temp as int;
    let range = c.max_speed - c.min_speed;
    let span = high - low;
    if low < t1 < high {
        curve_offset_bounded(c.config.speed_curve, t1 - low, span, range);
    }
    if low < t2 < high {
        curve_offset_bounded(c.config.speed_curve, t2 - low, span, range);
    }
    if low < t1 && t2 < high {
        let a = t1 - low;
        let b = t2 - low;
        if c.config.speed_curve == SpeedCurve::Linear {
            assert(range * a <= range * b) by (nonlinear_arith)
                requires 0 <= range, 0 <= a <= b;
            vstd::arithmetic::div_mod::lemma_div_is_ordered(range * a, range * b, span);
        } else {
            assert(range * (a * a * a) <= range * (b * b * b)) by (nonlinear_arith)
                requires 0 <= range, 0 <= a <= b;
            assert(span * span * span > 0) by (nonlinear_arith)
                requires span > 0;
            vstd::arithmetic::div_mod::lemma_div_is_ordered(
                range * (a * a * a),
                range * (b * b * b),
                span * span * span,
            );
        }
    }
}

proof fn curve_offset_bounded(curve: SpeedCurve, t: int, span: int, range: int)
    requires
        curve != SpeedCurve::Logarithmic,
        0 < t < span,
        0 <= range,
    ensures
        0 <= curve_offset(curve, t, span, range, 0) <= range,
        forall|o: int| #[trigger] curve_offset(curve, t, span, range, o) == curve_offset(curve, t, span, range, 0),
{
    if curve == SpeedCurve::Linear {
        assert(0 <= (range * t) / span <= range) by (nonlinear_arith)
            requires 0 < t < span, 0 <= range;
    } else {
        assert(0 <= (range * (t * t * t)) / (span * span * span) <= range) by (nonlinear_arith)
            requires 0 < t < span, 0 <= range;
    }
}

} // verus!
