//! The lamp's state machine.
//!
//! `handle_event` is the entry point: given the current context and one
//! event it decides the next context and the lamp actions to perform, in
//! order. The controller task performs them on the LED driver and the fade
//! timer; the timer only ever posts `FadeTick` events and never touches the
//! LED or the state itself.
use vstd::prelude::*;

use crate::config::{FADE_STEPS, FADE_TICK_PERIOD_MS, PWM_MAX_DUTY};
use crate::drivers::led_pwm::clamped_duty;
use crate::event::Event;
use crate::state::{ControllerCtx, State};
use crate::utils::fade_table::{
    at, fade_duty, lemma_fade_in_range, lemma_fade_monotone, lemma_fade_starts_full,
};

verus! {

/// One action on the lamp hardware.
#[derive(Clone, Copy, Debug, PartialEq, Eq, Structural)]
pub enum LampAction {
    /// Set the LED's PWM duty.
    LedDuty(u16),
    /// Switch the LED off (duty 0).
    LedOff,
    /// Stop the fade timer.
    TimerCancel,
    /// Start the fade timer, ticking every `period_ms`.
    TimerStart { period_ms: u64 },
}

/// The actions that switch the lamp on: stop a stale timer, full brightness
/// (fade step 0), start the periodic fade tick.
pub open spec fn start_lighting_actions() -> Seq<LampAction> {
    seq![
        LampAction::TimerCancel,
        LampAction::LedDuty(fade_duty(0)),
        LampAction::TimerStart { period_ms: FADE_TICK_PERIOD_MS },
    ]
}

/// The actions that switch the lamp off: LED dark, timer stopped.
pub open spec fn stop_lighting_actions() -> Seq<LampAction> {
    seq![LampAction::LedOff, LampAction::TimerCancel]
}

/// The controller's transition: the context after `evt`, and the lamp
/// actions taken on the way.
///
/// Idle:
/// - `EnvDarkEntered`: the mirror becomes dark; if armed, the lamp goes on
///   and the trigger is disarmed, else nothing more.
/// - `EnvBrightEntered`: the mirror becomes bright and the trigger is armed.
/// - `MotionDetected`: in the dark the lamp goes on, the trigger untouched;
///   in the bright nothing happens.
/// - `FadeTick`: a stale tick, ignored.
///
/// Lighting:
/// - `FadeTick`: the next fade step; past the last step the lamp goes off.
/// - `EnvBrightEntered`: the lamp goes off at once, the mirror becomes
///   bright and the trigger is armed.
/// - `MotionDetected`: ignored entirely.
/// - `EnvDarkEntered`: only the mirror becomes dark.
pub open spec fn controller_step(ctx: ControllerCtx, evt: Event) -> (ControllerCtx, Seq<LampAction>) {
    match ctx.state {
        State::Idle => match evt {
            Event::EnvDarkEntered { .. } => {
                if ctx.auto_dark_trigger_armed {
                    (
                        ControllerCtx {
                            state: State::Lighting,
                            env_dark: true,
                            auto_dark_trigger_armed: false,
                            fade_step: 0,
                        },
                        start_lighting_actions(),
                    )
                } else {
                    (ControllerCtx { env_dark: true, ..ctx }, seq![])
                }
            },
            Event::EnvBrightEntered { .. } => (
                ControllerCtx { env_dark: false, auto_dark_trigger_armed: true, ..ctx },
                seq![],
            ),
            Event::MotionDetected => {
                if ctx.env_dark {
                    (
                        ControllerCtx { state: State::Lighting, fade_step: 0, ..ctx },
                        start_lighting_actions(),
                    )
                } else {
                    (ctx, seq![])
                }
            },
            Event::FadeTick => (ctx, seq![]),
        },
        State::Lighting => match evt {
            Event::FadeTick => {
                let step = ctx.fade_step + 1;
                if step >= FADE_STEPS {
                    (
                        ControllerCtx { state: State::Idle, fade_step: 0, ..ctx },
                        stop_lighting_actions(),
                    )
                } else {
                    (
                        ControllerCtx { fade_step: step as u16, ..ctx },
                        seq![LampAction::LedDuty(fade_duty(step))],
                    )
                }
            },
            Event::EnvBrightEntered { .. } => (
                ControllerCtx {
                    state: State::Idle,
                    env_dark: false,
                    auto_dark_trigger_armed: true,
                    fade_step: 0,
                },
                stop_lighting_actions(),
            ),
            Event::MotionDetected => (ctx, seq![]),
            Event::EnvDarkEntered { .. } => (ControllerCtx { env_dark: true, ..ctx }, seq![]),
        },
    }
}

/// Handles one event: updates `ctx` and returns the lamp actions to perform,
/// in order.
pub fn handle_event(ctx: &mut ControllerCtx, evt: Event) -> (actions: Vec<LampAction>)
    ensures
        *final(ctx) == controller_step(*old(ctx), evt).0,
        actions@ == controller_step(*old(ctx), evt).1,
{
    match ctx.state {
        State::Idle => handle_idle(ctx, evt),
        State::Lighting => handle_lighting(ctx, evt),
    }
}

fn handle_idle(ctx: &mut ControllerCtx, evt: Event) -> (actions: Vec<LampAction>)
    requires
        old(ctx).state == State::Idle,
    ensures
        *final(ctx) == controller_step(*old(ctx), evt).0,
        actions@ == controller_step(*old(ctx), evt).1,
{
    match evt {
        Event::EnvDarkEntered { .. } => {
            // the mirror follows the sampling task whether or not the lamp goes on
            ctx.env_dark = true;
            if ctx.auto_dark_trigger_armed {
                // bright-to-dark edge: automatic switch-on, once
                let actions = start_lighting(ctx);
                ctx.auto_dark_trigger_armed = false;
                actions
            } else {
                Vec::new()
            }
        },
        Event::EnvBrightEntered { .. } => {
            ctx.env_dark = false;
            ctx.auto_dark_trigger_armed = true;
            Vec::new()
        },
        Event::MotionDetected => {
            if ctx.env_dark {
                // motion in the dark lights the lamp; the trigger is left alone
                start_lighting(ctx)
            } else {
                Vec::new()
            }
        },
        Event::FadeTick => Vec::new(),
    }
}

fn handle_lighting(ctx: &mut ControllerCtx, evt: Event) -> (actions: Vec<LampAction>)
    requires
        old(ctx).state == State::Lighting,
    ensures
        *final(ctx) == controller_step(*old(ctx), evt).0,
        actions@ == controller_step(*old(ctx), evt).1,
{
    match evt {
        Event::FadeTick => {
            let step: u32 = ctx.fade_step as u32 + 1;
            if step >= FADE_STEPS as u32 {
                // fade finished: lamp off
                ctx.fade_step = 0;
                ctx.state = State::Idle;
                stop_lighting()
            } else {
                ctx.fade_step = step as u16;
                let duty = at(step as usize);
                let mut actions = Vec::new();
                actions.push(LampAction::LedDuty(duty));
                proof {
                    assert(actions@ =~= seq![LampAction::LedDuty(fade_duty(step as int))]);
                }
                actions
            }
        },
        Event::EnvBrightEntered { .. } => {
            // the room turned bright: lamp off at once
            ctx.env_dark = false;
            ctx.auto_dark_trigger_armed = true;
            ctx.fade_step = 0;
            ctx.state = State::Idle;
            stop_lighting()
        },
        Event::MotionDetected => Vec::new(),
        Event::EnvDarkEntered { .. } => {
            ctx.env_dark = true;
            Vec::new()
        },
    }
}

/// Enters `Lighting` at full brightness with the fade timer running.
fn start_lighting(ctx: &mut ControllerCtx) -> (actions: Vec<LampAction>)
    ensures
        *final(ctx) == lighting_started(*old(ctx)),
        actions@ == start_lighting_actions(),
{
    let mut actions = Vec::new();
    actions.push(LampAction::TimerCancel);
    actions.push(LampAction::LedDuty(at(0)));
    actions.push(LampAction::TimerStart { period_ms: FADE_TICK_PERIOD_MS });
    ctx.fade_step = 0;
    ctx.state = State::Lighting;
    proof {
        assert(actions@ =~= start_lighting_actions());
    }
    actions
}

/// Leaves the lamp dark with the fade timer stopped.
fn stop_lighting() -> (actions: Vec<LampAction>)
    ensures
        actions@ == stop_lighting_actions(),
{
    let mut actions = Vec::new();
    actions.push(LampAction::LedOff);
    actions.push(LampAction::TimerCancel);
    proof {
        assert(actions@ =~= stop_lighting_actions());
    }
    actions
}

/// What the lamp hardware shows: the LED's duty and whether the fade timer
/// is running.
#[derive(Clone, Copy, Debug, PartialEq, Eq, Structural)]
pub struct LampOutput {
    pub duty: u16,
    pub timer_running: bool,
}

/// The hardware after one action (the LED driver cuts a duty to its range).
pub open spec fn apply_action(out: LampOutput, action: LampAction) -> LampOutput {
    match action {
        LampAction::LedDuty(duty) => LampOutput { duty: clamped_duty(duty), ..out },
        LampAction::LedOff => LampOutput { duty: 0, ..out },
        LampAction::TimerCancel => LampOutput { timer_running: false, ..out },
        LampAction::TimerStart { .. } => LampOutput { timer_running: true, ..out },
    }
}

/// The hardware after a sequence of actions, performed in order.
pub open spec fn apply_actions(out: LampOutput, actions: Seq<LampAction>) -> LampOutput
    decreases actions.len(),
{
    if actions.len() == 0 {
        out
    } else {
        apply_actions(apply_action(out, actions[0]), actions.subrange(1, actions.len() as int))
    }
}

/// The hardware agrees with the context: idle means dark with no timer;
/// lighting means the duty of the current fade step with the timer running.
pub open spec fn coherent(ctx: ControllerCtx, out: LampOutput) -> bool {
    &&& ctx.wf()
    &&& ctx.state == State::Idle ==> out.duty == 0 && !out.timer_running
    &&& ctx.state == State::Lighting ==> out.duty == fade_duty(ctx.fade_step as int)
        && out.timer_running
}

/// The hardware at start-up: LED off (the driver starts at duty 0), fade
/// timer created but not started.
pub open spec fn startup_output() -> LampOutput {
    LampOutput { duty: 0, timer_running: false }
}

/// The controller starts coherent with the hardware, whatever light it
/// measured at boot.
pub proof fn lemma_startup_coherent(initial_env_dark: bool, initial_armed: bool)
    ensures
        coherent(
            ControllerCtx {
                state: State::Idle,
                env_dark: initial_env_dark,
                auto_dark_trigger_armed: initial_armed,
                fade_step: 0,
            },
            startup_output(),
        ),
{
}

/// Every event keeps the hardware coherent with the context: the lamp is
/// dark with no timer exactly while idle, and shows the current fade step
/// with the timer running while lighting.
pub proof fn lemma_step_keeps_coherent(ctx: ControllerCtx, out: LampOutput, evt: Event)
    requires
        coherent(ctx, out),
    ensures
        coherent(
            controller_step(ctx, evt).0,
            apply_actions(out, controller_step(ctx, evt).1),
        ),
{
    let (next, actions) = controller_step(ctx, evt);
    reveal_with_fuel(apply_actions, 4);
    lemma_fade_in_range(0);
    lemma_fade_in_range(ctx.fade_step + 1);
    assert(seq![LampAction::LedDuty(fade_duty(ctx.fade_step + 1))].subrange(1, 1)
        =~= Seq::<LampAction>::empty());
    assert(start_lighting_actions().subrange(1, 3) =~= seq![
        LampAction::LedDuty(fade_duty(0)),
        LampAction::TimerStart { period_ms: FADE_TICK_PERIOD_MS },
    ]);
    assert(start_lighting_actions().subrange(1, 3).subrange(1, 2) =~= seq![
        LampAction::TimerStart { period_ms: FADE_TICK_PERIOD_MS },
    ]);
    assert(seq![LampAction::TimerStart { period_ms: FADE_TICK_PERIOD_MS }].subrange(1, 1)
        =~= Seq::<LampAction>::empty());
    assert(stop_lighting_actions().subrange(1, 2) =~= seq![LampAction::TimerCancel]);
    assert(seq![LampAction::TimerCancel].subrange(1, 1) =~= Seq::<LampAction>::empty());
}

/// The context as `start_lighting` leaves it: lighting from fade step 0.
pub open spec fn lighting_started(ctx: ControllerCtx) -> ControllerCtx {
    ControllerCtx { state: State::Lighting, fade_step: 0, ..ctx }
}

/// Switching the lamp on twice in a row is the same as once: the context is
/// the same, the LED is at full brightness and one periodic timer runs
/// (its actions stop any running timer before they start it, and start it
/// once).
pub proof fn lemma_start_lighting_idempotent(ctx: ControllerCtx, out: LampOutput)
    ensures
        lighting_started(lighting_started(ctx)) == lighting_started(ctx),
        apply_actions(out, start_lighting_actions()) == (LampOutput {
            duty: PWM_MAX_DUTY,
            timer_running: true,
        }),
        apply_actions(apply_actions(out, start_lighting_actions()), start_lighting_actions())
            == apply_actions(out, start_lighting_actions()),
        start_lighting_actions()[0] == LampAction::TimerCancel,
        start_lighting_actions().filter(|a: LampAction| a is TimerStart).len() == 1,
{
    lemma_fade_starts_full();
    lemma_start_actions_output(out);
    lemma_start_actions_output(apply_actions(out, start_lighting_actions()));
    reveal_with_fuel(Seq::filter, 4);
    let s = start_lighting_actions();
    assert(s.filter(|a: LampAction| a is TimerStart) =~= seq![
        LampAction::TimerStart { period_ms: FADE_TICK_PERIOD_MS },
    ]);
}

proof fn lemma_start_actions_output(out: LampOutput)
    ensures
        apply_actions(out, start_lighting_actions()) == (LampOutput {
            duty: clamped_duty(fade_duty(0)),
            timer_running: true,
        }),
{
    reveal_with_fuel(apply_actions, 4);
    assert(start_lighting_actions().subrange(1, 3) =~= seq![
        LampAction::LedDuty(fade_duty(0)),
        LampAction::TimerStart { period_ms: FADE_TICK_PERIOD_MS },
    ]);
    assert(start_lighting_actions().subrange(1, 3).subrange(1, 2) =~= seq![
        LampAction::TimerStart { period_ms: FADE_TICK_PERIOD_MS },
    ]);
    assert(seq![LampAction::TimerStart { period_ms: FADE_TICK_PERIOD_MS }].subrange(1, 1)
        =~= Seq::<LampAction>::empty());
}

/// A fade tick never brightens the lamp: while lighting, the duty a tick
/// sets is at most the duty of the current step, and within the PWM range.
pub proof fn lemma_tick_never_brightens(ctx: ControllerCtx)
    requires
        ctx.state == State::Lighting,
    ensures
        forall|i: int|
            0 <= i < controller_step(ctx, Event::FadeTick).1.len() ==> (
            #[trigger] controller_step(ctx, Event::FadeTick).1[i] matches LampAction::LedDuty(d)
                ==> d <= fade_duty(ctx.fade_step as int) && d <= PWM_MAX_DUTY),
{
    lemma_fade_monotone(ctx.fade_step as int, ctx.fade_step + 1);
    lemma_fade_in_range(ctx.fade_step + 1);
}

/// Two fade ticks inside the fade set the duties of the next two steps,
/// and the second is no brighter than the first.
pub proof fn lemma_two_ticks_step_down(ctx: ControllerCtx)
    requires
        ctx.state == State::Lighting,
        ctx.fade_step + 2 < FADE_STEPS,
    ensures
        controller_step(ctx, Event::FadeTick).1 == seq![
            LampAction::LedDuty(fade_duty(ctx.fade_step + 1)),
        ],
        controller_step(controller_step(ctx, Event::FadeTick).0, Event::FadeTick).1 == seq![
            LampAction::LedDuty(fade_duty(ctx.fade_step + 2)),
        ],
        fade_duty(ctx.fade_step + 2) <= fade_duty(ctx.fade_step + 1) <= PWM_MAX_DUTY,
{
    lemma_fade_monotone(ctx.fade_step + 1, ctx.fade_step + 2);
    lemma_fade_in_range(ctx.fade_step + 1);
}

/// The actions that switch the lamp on, spelled out: stop a stale timer,
/// LED at full duty, one periodic fade tick every `FADE_TICK_PERIOD_MS`.
pub open spec fn switch_on_actions() -> Seq<LampAction> {
    seq![
        LampAction::TimerCancel,
        LampAction::LedDuty(PWM_MAX_DUTY),
        LampAction::TimerStart { period_ms: FADE_TICK_PERIOD_MS },
    ]
}

/// The bright-to-dark edge: idle with the trigger armed, every
/// `EnvDarkEntered`, whatever its sample, switches the lamp on at full
/// duty, starts the fade at step 0, marks the room dark and disarms the
/// trigger.
pub proof fn lemma_dark_edge_switches_on(ctx: ControllerCtx, raw: u16)
    requires
        ctx.state == State::Idle,
        ctx.auto_dark_trigger_armed,
    ensures
        controller_step(ctx, Event::EnvDarkEntered { raw }) == (
            ControllerCtx {
                state: State::Lighting,
                env_dark: true,
                auto_dark_trigger_armed: false,
                fade_step: 0,
            },
            switch_on_actions(),
        ),
{
    lemma_fade_starts_full();
}

/// Idle with the trigger disarmed, `EnvDarkEntered` only marks the room
/// dark: no action, still idle, still disarmed.
pub proof fn lemma_dark_while_disarmed_only_mirrors(ctx: ControllerCtx, raw: u16)
    requires
        ctx.state == State::Idle,
        !ctx.auto_dark_trigger_armed,
    ensures
        controller_step(ctx, Event::EnvDarkEntered { raw }) == (
            ControllerCtx { env_dark: true, ..ctx },
            Seq::<LampAction>::empty(),
        ),
{
}

/// Motion while idle: in a dark room it switches the lamp on at full duty
/// from fade step 0 and leaves the trigger as it was; in a bright room it
/// changes nothing.
pub proof fn lemma_idle_motion(ctx: ControllerCtx)
    requires
        ctx.state == State::Idle,
    ensures
        ctx.env_dark ==> controller_step(ctx, Event::MotionDetected) == (
            ControllerCtx {
                state: State::Lighting,
                env_dark: true,
                auto_dark_trigger_armed: ctx.auto_dark_trigger_armed,
                fade_step: 0,
            },
            switch_on_actions(),
        ),
        !ctx.env_dark ==> controller_step(ctx, Event::MotionDetected) == (
            ctx,
            Seq::<LampAction>::empty(),
        ),
{
    lemma_fade_starts_full();
}

/// A fade tick while idle is a leftover of a stopped timer: it changes
/// nothing and takes no action, whatever the room and the trigger.
pub proof fn lemma_idle_tick_ignored(ctx: ControllerCtx)
    requires
        ctx.state == State::Idle,
    ensures
        controller_step(ctx, Event::FadeTick) == (ctx, Seq::<LampAction>::empty()),
{
}

/// A bright room while idle: the room is marked bright and the trigger
/// armed, nothing else changes, no action.
pub proof fn lemma_idle_bright_arms(ctx: ControllerCtx, raw: u16)
    requires
        ctx.state == State::Idle,
    ensures
        controller_step(ctx, Event::EnvBrightEntered { raw }) == (
            ControllerCtx { env_dark: false, auto_dark_trigger_armed: true, ..ctx },
            Seq::<LampAction>::empty(),
        ),
{
}

/// The lamp goes on only for a reason: leaving idle for lighting happens
/// only on `EnvDarkEntered` with the trigger armed or on motion in a dark
/// room; and going on always means full duty with the timer (re)started.
pub proof fn lemma_switch_on_only_for_a_reason(ctx: ControllerCtx, evt: Event)
    requires
        ctx.state == State::Idle,
        controller_step(ctx, evt).0.state == State::Lighting,
    ensures
        (evt is EnvDarkEntered && ctx.auto_dark_trigger_armed) || (evt is MotionDetected
            && ctx.env_dark),
        controller_step(ctx, evt).0.fade_step == 0,
        controller_step(ctx, evt).1 == switch_on_actions(),
{
    lemma_fade_starts_full();
}

/// A fade tick while lighting: inside the fade it moves one step on and
/// sets that step's duty from the table; after the last step it switches
/// the LED off, stops the timer and goes idle. The room and the trigger
/// stay as they were.
pub proof fn lemma_lighting_tick(ctx: ControllerCtx)
    requires
        ctx.state == State::Lighting,
    ensures
        ctx.fade_step + 1 < FADE_STEPS ==> controller_step(ctx, Event::FadeTick) == (
            ControllerCtx { fade_step: (ctx.fade_step + 1) as u16, ..ctx },
            seq![LampAction::LedDuty(fade_duty(ctx.fade_step + 1))],
        ),
        ctx.fade_step + 1 >= FADE_STEPS ==> controller_step(ctx, Event::FadeTick) == (
            ControllerCtx { state: State::Idle, fade_step: 0, ..ctx },
            seq![LampAction::LedOff, LampAction::TimerCancel],
        ),
{
}

/// A bright room while lighting switches the LED off and stops the timer at
/// once, and leaves the controller idle with the room bright and the
/// trigger armed.
pub proof fn lemma_lighting_bright_switches_off(ctx: ControllerCtx, raw: u16)
    requires
        ctx.state == State::Lighting,
    ensures
        controller_step(ctx, Event::EnvBrightEntered { raw }) == (
            ControllerCtx {
                state: State::Idle,
                env_dark: false,
                auto_dark_trigger_armed: true,
                fade_step: 0,
            },
            seq![LampAction::LedOff, LampAction::TimerCancel],
        ),
{
}

/// While lighting, `EnvDarkEntered` only marks the room dark, and motion
/// changes nothing; neither takes an action.
pub proof fn lemma_lighting_ignores_dark_and_motion(ctx: ControllerCtx, raw: u16)
    requires
        ctx.state == State::Lighting,
    ensures
        controller_step(ctx, Event::EnvDarkEntered { raw }) == (
            ControllerCtx { env_dark: true, ..ctx },
            Seq::<LampAction>::empty(),
        ),
        controller_step(ctx, Event::MotionDetected) == (ctx, Seq::<LampAction>::empty()),
{
}

/// Only a bright room arms the automatic trigger: no other event turns a
/// disarmed trigger armed.
pub proof fn lemma_only_bright_arms(ctx: ControllerCtx, evt: Event)
    requires
        !ctx.auto_dark_trigger_armed,
        !(evt is EnvBrightEntered),
    ensures
        !controller_step(ctx, evt).0.auto_dark_trigger_armed,
{
}

/// A room that stays dark does not switch the lamp on again: with the
/// trigger disarmed, `EnvDarkEntered` takes no action and leaves the state
/// as it was.
pub proof fn lemma_disarmed_dark_takes_no_action(ctx: ControllerCtx, raw: u16)
    requires
        !ctx.auto_dark_trigger_armed,
    ensures
        controller_step(ctx, Event::EnvDarkEntered { raw }).1 == Seq::<LampAction>::empty(),
        controller_step(ctx, Event::EnvDarkEntered { raw }).0.state == ctx.state,
{
}

/// A bright room always ends a lighting session and re-arms the trigger:
/// after `EnvBrightEntered` the controller is idle, the mirror bright and the
/// trigger armed, from any state.
pub proof fn lemma_bright_always_resets(ctx: ControllerCtx, raw: u16)
    ensures
        controller_step(ctx, Event::EnvBrightEntered { raw }).0.state == State::Idle,
        !controller_step(ctx, Event::EnvBrightEntered { raw }).0.env_dark,
        controller_step(ctx, Event::EnvBrightEntered { raw }).0.auto_dark_trigger_armed,
{
}

/// Motion never touches the trigger, and while lighting it changes nothing
/// at all: it does not extend the fade.
pub proof fn lemma_motion_keeps_trigger(ctx: ControllerCtx)
    ensures
        controller_step(ctx, Event::MotionDetected).0.auto_dark_trigger_armed
            == ctx.auto_dark_trigger_armed,
        ctx.state == State::Lighting ==> controller_step(ctx, Event::MotionDetected)
            == (ctx, Seq::<LampAction>::empty()),
{
}

/// The mirror follows the light events: dark after `EnvDarkEntered`, bright
/// after `EnvBrightEntered`, unchanged by the other events.
pub proof fn lemma_mirror_follows_light_events(ctx: ControllerCtx, evt: Event)
    ensures
        controller_step(ctx, evt).0.env_dark == match evt {
            Event::EnvDarkEntered { .. } => true,
            Event::EnvBrightEntered { .. } => false,
            _ => ctx.env_dark,
        },
{
}

/// The context after `n` fade ticks and no other event.
pub open spec fn after_ticks(ctx: ControllerCtx, n: nat) -> ControllerCtx
    decreases n,
{
    if n == 0 {
        ctx
    } else {
        after_ticks(controller_step(ctx, Event::FadeTick).0, (n - 1) as nat)
    }
}

/// Fade ticks walk the fade one step each: from step `s`, `n` ticks that stay
/// inside the fade lead to step `s + n`, still lighting.
pub proof fn lemma_ticks_advance(ctx: ControllerCtx, n: nat)
    requires
        ctx.state == State::Lighting,
        ctx.fade_step + n < FADE_STEPS,
    ensures
        after_ticks(ctx, n) == (ControllerCtx { fade_step: (ctx.fade_step + n) as u16, ..ctx }),
    decreases n,
{
    if n > 0 {
        let next = controller_step(ctx, Event::FadeTick).0;
        lemma_ticks_advance(next, (n - 1) as nat);
    }
}

/// A lighting session lasts exactly `FADE_STEPS` ticks: once switched on,
/// the lamp is still lighting (at the last, dark, step) after
/// `FADE_STEPS - 1` ticks and idle after `FADE_STEPS`, with the trigger and
/// the mirror as they were.
pub proof fn lemma_session_length(ctx: ControllerCtx)
    requires
        ctx.state == State::Lighting,
        ctx.fade_step == 0,
    ensures
        after_ticks(ctx, (FADE_STEPS - 1) as nat).state == State::Lighting,
        after_ticks(ctx, (FADE_STEPS - 1) as nat).fade_step == FADE_STEPS - 1,
        after_ticks(ctx, FADE_STEPS as nat) == (ControllerCtx { state: State::Idle, fade_step: 0, ..ctx }),
{
    lemma_ticks_advance(ctx, (FADE_STEPS - 1) as nat);
    lemma_after_ticks_split(ctx, (FADE_STEPS - 1) as nat);
}

proof fn lemma_after_ticks_split(ctx: ControllerCtx, n: nat)
    ensures
        after_ticks(ctx, n + 1) == controller_step(after_ticks(ctx, n), Event::FadeTick).0,
    decreases n,
{
    reveal_with_fuel(after_ticks, 2);
    if n > 0 {
        lemma_after_ticks_split(controller_step(ctx, Event::FadeTick).0, (n - 1) as nat);
    }
}

} // verus!
