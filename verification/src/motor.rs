//! Integer arithmetic of the motor drives: encoder counts, the position error
//! of the control loop, and the duty cycles of the two H-bridge channels.

use vstd::prelude::*;

verus! {

/// The period between control loop iterations, in milliseconds.
pub const CONTROL_PERIOD_MS: u32 = 2;

/// Setpoint tolerance, in encoder counts.
pub const TOLERANCE: u16 = 5;

/// The largest duty cycle of a PWM channel; both channels at it brake the motor.
pub const MAX_DUTY: u16 = 4095;

/// `x` taken into the range of `i16` modulo 2^16.
pub open spec fn wrap_i16(x: int) -> int {
    if x > 0x7fff {
        x - 0x10000
    } else if x < -0x8000 {
        x + 0x10000
    } else {
        x
    }
}

/// An encoder count read as a two's complement `i16`: counts of 2^15 and above are negative.
pub open spec fn signed_count(count: u16) -> int {
    if count <= 0x7fff {
        count as int
    } else {
        count - 0x10000
    }
}

/// The absolute value of `x`.
pub open spec fn abs(x: int) -> int {
    if x < 0 {
        -x
    } else {
        x
    }
}

/// The encoder count as a position centred around zero.
pub fn position_from_count(count: u16) -> (p: i16)
    ensures
        p as int == signed_count(count),
{
    if count <= 0x7fff {
        count as i16
    } else {
        let low = (count - 0x8000) as i16;
        low - 0x4000 - 0x4000
    }
}

/// The position error of the control loop, `setpoint - position`, wrapping.
pub fn position_error(setpoint: i16, position: i16) -> (e: i16)
    ensures
        e as int == wrap_i16(setpoint - position),
{
    setpoint.wrapping_sub(position)
}

/// Whether the motor is within the tolerance of its setpoint, so the control loop
/// stops and brakes.
pub fn at_setpoint(setpoint: i16, position: i16) -> (b: bool)
    ensures
        b == (abs(wrap_i16(setpoint - position)) <= TOLERANCE),
{
    let error = position_error(setpoint, position);
    let magnitude: u16 = if error < 0 {
        (0i32 - error as i32) as u16
    } else {
        error as u16
    };
    magnitude <= TOLERANCE
}

/// The duty cycles of the two channels for a drive at `duty`: forward drives the
/// first channel, reverse the second.
pub fn channel_duties(duty: u16, forward: bool) -> (d: (u16, u16))
    ensures
        d == (if forward {
            (duty, 0u16)
        } else {
            (0u16, duty)
        }),
{
    if forward {
        (duty, 0)
    } else {
        (0, duty)
    }
}

/// The counts of the two wrist motors as wrist pitch (their sum) and roll (their
/// difference).
pub fn wrist_counts(w1: i16, w2: i16) -> (c: (i16, i16))
    requires
        i16::MIN <= w1 + w2 <= i16::MAX,
        i16::MIN <= w1 - w2 <= i16::MAX,
    ensures
        c.0 == w1 + w2,
        c.1 == w1 - w2,
{
    (w1 + w2, w1 - w2)
}

} // verus!
