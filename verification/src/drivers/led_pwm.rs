//! Duty handling of the LEDC PWM channel that drives the lamp LED.
//!
//! The channel runs at `PWM_FREQ_HZ` with `PWM_RESOLUTION_BITS` of
//! resolution, so a duty is at most `PWM_MAX_DUTY`; a larger request is cut
//! down to it, not refused.
use vstd::prelude::*;

use crate::config::PWM_MAX_DUTY;

verus! {

/// The duty that the channel is given for a request of `duty`.
pub open spec fn clamped_duty(duty: u16) -> u16 {
    if duty > PWM_MAX_DUTY {
        PWM_MAX_DUTY
    } else {
        duty
    }
}

/// Cuts a requested duty down to the channel's range `0..=PWM_MAX_DUTY`.
pub fn clamp_duty(duty: u16) -> (clamped: u16)
    ensures
        clamped == clamped_duty(duty),
        clamped <= PWM_MAX_DUTY,
        duty <= PWM_MAX_DUTY ==> clamped == duty,
{
    if duty > PWM_MAX_DUTY {
        PWM_MAX_DUTY
    } else {
        duty
    }
}

} // verus!
