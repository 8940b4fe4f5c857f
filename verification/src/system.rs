//! Properties of the parts working together: the controller's mirror of the
//! light state, and the hardware over a whole run of events.
use vstd::prelude::*;

use crate::controller::{
    apply_actions, coherent, controller_step, lemma_startup_coherent,
    lemma_step_keeps_coherent, startup_output, LampOutput,
};
use crate::event::Event;
use crate::state::{ControllerCtx, State};
use crate::tasks::light_sensor_task::{
    hysteresis, lemma_dropped_event_raised_again, sensor_delivered, sensor_reading, SensorView,
};

verus! {

/// One sampling period as the two tasks see it: the sampling task takes a
/// read attempt; if it raises an event and the queue takes it
/// (`delivered`), the controller handles it and the sampling task records
/// the delivery. Returns the controller's context and the sampling state.
pub open spec fn sampling_period(
    ctx: ControllerCtx,
    sensor: SensorView,
    reading: Option<u16>,
    delivered: bool,
) -> (ControllerCtx, SensorView) {
    let (next, event) = sensor_reading(sensor, reading);
    match event {
        Some(evt) => if delivered {
            (controller_step(ctx, evt).0, sensor_delivered(next, evt))
        } else {
            (ctx, next)
        },
        None => (ctx, next),
    }
}

/// The controller's `env_dark` always equals the light state the sampling
/// task last delivered, whether or not the queue takes each event; and after
/// a good sample whose event (if any) was delivered, it equals the sampling
/// task's current light state. So a dropped event leaves the mirror behind
/// only until the next delivered sample.
pub proof fn lemma_mirror_follows_deliveries(
    ctx: ControllerCtx,
    sensor: SensorView,
    reading: Option<u16>,
    delivered: bool,
)
    requires
        ctx.env_dark == sensor.reported_dark,
    ensures
        sampling_period(ctx, sensor, reading, delivered).0.env_dark
            == sampling_period(ctx, sensor, reading, delivered).1.reported_dark,
        reading is Some && (delivered || sensor_reading(sensor, reading).1 is None)
            ==> sampling_period(ctx, sensor, reading, delivered).0.env_dark
            == sampling_period(ctx, sensor, reading, delivered).1.env_dark,
{
}

/// After a dropped event, one good sample that leaves the light state as it
/// is and whose event is delivered brings the mirror back in step.
pub proof fn lemma_dropped_event_recovers(
    ctx: ControllerCtx,
    sensor: SensorView,
    raw1: u16,
    raw2: u16,
)
    requires
        ctx.env_dark == sensor.reported_dark,
        sensor.inv(),
        sensor_reading(sensor, Some(raw1)).1 is Some,
        hysteresis(sensor_reading(sensor, Some(raw1)).0, raw2).env_dark
            == sensor_reading(sensor, Some(raw1)).0.env_dark,
    ensures
        ({
            let (ctx1, s1) = sampling_period(ctx, sensor, Some(raw1), false);
            let (ctx2, s2) = sampling_period(ctx1, s1, Some(raw2), true);
            &&& ctx1.env_dark != s1.env_dark
            &&& ctx2.env_dark == s2.env_dark
            &&& ctx2.env_dark == s1.env_dark
        }),
{
    lemma_dropped_event_raised_again(sensor, raw1, raw2);
}

/// The controller and the lamp hardware after a sequence of events, each
/// handled and its actions performed in order.
pub open spec fn controller_run(ctx: ControllerCtx, out: LampOutput, events: Seq<Event>) -> (
    ControllerCtx,
    LampOutput,
)
    decreases events.len(),
{
    if events.len() == 0 {
        (ctx, out)
    } else {
        let (next, actions) = controller_step(ctx, events[0]);
        controller_run(next, apply_actions(out, actions), events.subrange(1, events.len() as int))
    }
}

/// Coherence holds along any run of events.
pub proof fn lemma_run_keeps_coherent(ctx: ControllerCtx, out: LampOutput, events: Seq<Event>)
    requires
        coherent(ctx, out),
    ensures
        coherent(controller_run(ctx, out, events).0, controller_run(ctx, out, events).1),
    decreases events.len(),
{
    if events.len() > 0 {
        lemma_step_keeps_coherent(ctx, out, events[0]);
        let (next, actions) = controller_step(ctx, events[0]);
        lemma_run_keeps_coherent(
            next,
            apply_actions(out, actions),
            events.subrange(1, events.len() as int),
        );
    }
}

/// Whatever events arrive after start-up, the lamp is dark with no fade
/// timer exactly while the controller is idle, and shows the current fade
/// step with the timer running while it is lighting.
pub proof fn lemma_lamp_always_matches_state(env_dark: bool, armed: bool, events: Seq<Event>)
    ensures
        coherent(
            controller_run(
                ControllerCtx {
                    state: State::Idle,
                    env_dark,
                    auto_dark_trigger_armed: armed,
                    fade_step: 0,
                },
                startup_output(),
                events,
            ).0,
            controller_run(
                ControllerCtx {
                    state: State::Idle,
                    env_dark,
                    auto_dark_trigger_armed: armed,
                    fade_step: 0,
                },
                startup_output(),
                events,
            ).1,
        ),
{
    lemma_startup_coherent(env_dark, armed);
    lemma_run_keeps_coherent(
        ControllerCtx { state: State::Idle, env_dark, auto_dark_trigger_armed: armed, fade_step: 0 },
        startup_output(),
        events,
    );
}

} // verus!
