//! Controller state and its run-time context.
use vstd::prelude::*;

use crate::config::FADE_STEPS;

verus! {

/// The main state: only two.
#[derive(Clone, Copy, Debug, PartialEq, Eq, Structural)]
pub enum State {
    /// Lamp off, listening.
    Idle,
    /// Lamp on and fading.
    Lighting,
}

/// The controller's run-time context.
///
/// `env_dark` mirrors the light sampling task's light state (kept in step by
/// `EnvDarkEntered` / `EnvBrightEntered`). `auto_dark_trigger_armed` keeps a
/// room that stays dark from switching the lamp on again and again.
/// `fade_step` is the current fade step.
#[derive(Clone, Copy, Debug, PartialEq, Eq, Structural)]
pub struct ControllerCtx {
    pub state: State,
    pub env_dark: bool,
    pub auto_dark_trigger_armed: bool,
    pub fade_step: u16,
}

impl ControllerCtx {
    /// The shape that every context reached from `new` keeps: idle at fade
    /// step 0, or lighting at a step inside the fade.
    pub open spec fn wf(self) -> bool {
        &&& self.state == State::Idle ==> self.fade_step == 0
        &&& self.state == State::Lighting ==> self.fade_step < FADE_STEPS
    }

    /// The start-up context, built from the light measured at boot.
    pub fn new(initial_env_dark: bool, initial_armed: bool) -> (ctx: Self)
        ensures
            ctx.state == State::Idle,
            ctx.env_dark == initial_env_dark,
            ctx.auto_dark_trigger_armed == initial_armed,
            ctx.fade_step == 0,
            ctx.wf(),
    {
        ControllerCtx {
            state: State::Idle,
            env_dark: initial_env_dark,
            auto_dark_trigger_armed: initial_armed,
            fade_step: 0,
        }
    }
}

} // verus!
