//! The events that drive the lamp controller.
//!
//! Producers: the motion interrupt, the light sampling task and the fade
//! timer; the one consumer is the controller task. A light event carries the
//! raw BH1750 count of the sample that triggered it; the light it stands for
//! is `raw / 1.2` lux.
use vstd::prelude::*;

verus! {

/// A system event.
#[derive(Clone, Copy, Debug, PartialEq, Eq, Structural)]
pub enum Event {
    /// Rising edge of the AM312: someone walked by.
    MotionDetected,
    /// The room turned dark (after the confirmations); `raw` is the sample.
    EnvDarkEntered { raw: u16 },
    /// The room turned bright; `raw` is the sample.
    EnvBrightEntered { raw: u16 },
    /// Periodic tick of the fade timer.
    FadeTick,
}

} // verus!
