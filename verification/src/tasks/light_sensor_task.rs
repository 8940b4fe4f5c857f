//! The light sampling task's decisions: two-threshold hysteresis with
//! confirmation counts.
//!
//! The task reads the BH1750 every `BH1750_SAMPLE_PERIOD_MS` and owns the
//! truth of `env_dark`. A bright room turns dark after
//! `DARK_CONFIRM_COUNT` consecutive samples of at most `LUX_DARK_THRESHOLD`
//! lux; a dark room turns bright after `BRIGHT_CONFIRM_COUNT` consecutive
//! samples of at least `LUX_BRIGHT_THRESHOLD` lux; a sample in between keeps
//! the state and resets the pending count. A failed read changes nothing,
//! not even the pending counts.
//!
//! A change is announced with a light event. The event queue may be full,
//! in which case the event is dropped; the task then tells the sensor
//! nothing, and the sensor keeps the light state that the controller was
//! last told (`reported_dark`). While the two differ, every good sample
//! raises the event for the current light state again, so a dropped event
//! is only delayed by one sampling period.
use vstd::prelude::*;

use crate::config::{
    bright_sample, dark_sample, is_bright_sample, is_dark_sample, BRIGHT_CONFIRM_COUNT,
    DARK_CONFIRM_COUNT,
};
use crate::event::Event;

verus! {

/// The hysteresis state of the light sampling task.
pub struct LightSensor {
    env_dark: bool,
    reported_dark: bool,
    dark_candidate: u32,
    bright_candidate: u32,
}

/// What the sampling task knows: the light state, the light state last
/// delivered to the controller, and the pending counts.
pub struct SensorView {
    pub env_dark: bool,
    pub reported_dark: bool,
    pub dark_candidate: nat,
    pub bright_candidate: nat,
}

impl SensorView {
    /// The pending counts never reach their confirmation counts: reaching one
    /// flips the light state and clears both.
    pub open spec fn inv(self) -> bool {
        &&& self.dark_candidate < DARK_CONFIRM_COUNT
        &&& self.bright_candidate < BRIGHT_CONFIRM_COUNT
    }
}

/// The hysteresis alone: the light state and pending counts after one
/// successful sample `raw` (what was delivered is left as it was).
pub open spec fn hysteresis(v: SensorView, raw: u16) -> SensorView {
    if !v.env_dark {
        if dark_sample(raw) {
            let count = v.dark_candidate + 1;
            if count >= DARK_CONFIRM_COUNT {
                SensorView { env_dark: true, dark_candidate: 0, bright_candidate: 0, ..v }
            } else {
                SensorView { dark_candidate: count, ..v }
            }
        } else {
            SensorView { dark_candidate: 0, ..v }
        }
    } else {
        if bright_sample(raw) {
            let count = v.bright_candidate + 1;
            if count >= BRIGHT_CONFIRM_COUNT {
                SensorView { env_dark: false, dark_candidate: 0, bright_candidate: 0, ..v }
            } else {
                SensorView { bright_candidate: count, ..v }
            }
        } else {
            SensorView { bright_candidate: 0, ..v }
        }
    }
}

/// The event that announces light state `dark`, carrying sample `raw`.
pub open spec fn light_event(dark: bool, raw: u16) -> Event {
    if dark {
        Event::EnvDarkEntered { raw }
    } else {
        Event::EnvBrightEntered { raw }
    }
}

/// One successful sample `raw`: the state after it, and the event it
/// raises: the one for the current light state, whenever the controller was
/// last told otherwise.
pub open spec fn sensor_step(v: SensorView, raw: u16) -> (SensorView, Option<Event>) {
    let next = hysteresis(v, raw);
    if next.env_dark != next.reported_dark {
        (next, Some(light_event(next.env_dark, raw)))
    } else {
        (next, None)
    }
}

/// One read attempt: a failed read (`None`) leaves the state as it was and
/// raises nothing.
pub open spec fn sensor_reading(v: SensorView, reading: Option<u16>) -> (SensorView, Option<Event>) {
    match reading {
        Some(raw) => sensor_step(v, raw),
        None => (v, None),
    }
}

/// The state after the controller received `event`: it now knows the light
/// state that a light event names.
pub open spec fn sensor_delivered(v: SensorView, event: Event) -> SensorView {
    match event {
        Event::EnvDarkEntered { .. } => SensorView { reported_dark: true, ..v },
        Event::EnvBrightEntered { .. } => SensorView { reported_dark: false, ..v },
        _ => v,
    }
}

impl View for LightSensor {
    type V = SensorView;

    closed spec fn view(&self) -> SensorView {
        SensorView {
            env_dark: self.env_dark,
            reported_dark: self.reported_dark,
            dark_candidate: self.dark_candidate as nat,
            bright_candidate: self.bright_candidate as nat,
        }
    }
}

impl LightSensor {
    #[verifier::type_invariant]
    spec fn counts_below_confirmation(self) -> bool {
        &&& self.dark_candidate < DARK_CONFIRM_COUNT
        &&& self.bright_candidate < BRIGHT_CONFIRM_COUNT
    }

    /// Starts from the light state measured at boot, which the controller
    /// starts from too, with no pending count.
    pub fn new(initial_env_dark: bool) -> (sensor: Self)
        ensures
            sensor@ == (SensorView {
                env_dark: initial_env_dark,
                reported_dark: initial_env_dark,
                dark_candidate: 0,
                bright_candidate: 0,
            }),
            sensor@.inv(),
    {
        LightSensor {
            env_dark: initial_env_dark,
            reported_dark: initial_env_dark,
            dark_candidate: 0,
            bright_candidate: 0,
        }
    }

    /// The current light state: is the room dark.
    pub fn env_dark(&self) -> (dark: bool)
        ensures
            dark == self@.env_dark,
    {
        self.env_dark
    }

    /// The light state last delivered to the controller.
    pub fn reported_dark(&self) -> (dark: bool)
        ensures
            dark == self@.reported_dark,
    {
        self.reported_dark
    }

    /// Consecutive dark samples seen so far while bright.
    pub fn dark_candidate(&self) -> (count: u32)
        ensures
            count == self@.dark_candidate,
    {
        self.dark_candidate
    }

    /// Consecutive bright samples seen so far while dark.
    pub fn bright_candidate(&self) -> (count: u32)
        ensures
            count == self@.bright_candidate,
    {
        self.bright_candidate
    }

    /// Takes one read attempt (`None` for a failed read) and returns the
    /// light event to post, if the controller was last told a light state
    /// other than the current one. An event that was raised but not
    /// delivered (no `mark_delivered`) is raised again on the next good
    /// sample, for as long as the light state stays as it is.
    pub fn on_reading(&mut self, reading: Option<u16>) -> (event: Option<Event>)
        ensures
            (final(self)@, event) == sensor_reading(old(self)@, reading),
            final(self)@.inv(),
    {
        proof {
            use_type_invariant(&*self);
        }
        match reading {
            None => None,
            Some(raw) => {
                let mut env_dark = self.env_dark;
                let mut dark_candidate = self.dark_candidate;
                let mut bright_candidate = self.bright_candidate;
                if !env_dark {
                    // bright now: does the room turn dark?
                    if is_dark_sample(raw) {
                        dark_candidate = dark_candidate + 1;
                        if dark_candidate >= DARK_CONFIRM_COUNT {
                            env_dark = true;
                            dark_candidate = 0;
                            bright_candidate = 0;
                        }
                    } else {
                        dark_candidate = 0;
                    }
                } else {
                    // dark now: does the room turn bright?
                    if is_bright_sample(raw) {
                        bright_candidate = bright_candidate + 1;
                        if bright_candidate >= BRIGHT_CONFIRM_COUNT {
                            env_dark = false;
                            bright_candidate = 0;
                            dark_candidate = 0;
                        }
                    } else {
                        bright_candidate = 0;
                    }
                }
                *self = LightSensor {
                    env_dark,
                    reported_dark: self.reported_dark,
                    dark_candidate,
                    bright_candidate,
                };
                if env_dark == self.reported_dark {
                    None
                } else if env_dark {
                    Some(Event::EnvDarkEntered { raw })
                } else {
                    Some(Event::EnvBrightEntered { raw })
                }
            },
        }
    }

    /// Records that `event` reached the controller.
    pub fn mark_delivered(&mut self, event: Event)
        ensures
            final(self)@ == sensor_delivered(old(self)@, event),
            final(self)@.inv(),
    {
        proof {
            use_type_invariant(&*self);
        }
        match event {
            Event::EnvDarkEntered { .. } => self.reported_dark = true,
            Event::EnvBrightEntered { .. } => self.reported_dark = false,
            _ => {},
        }
    }
}

/// Counting towards darkness in a bright room: a dark sample adds one to
/// the dark count and, on reaching `DARK_CONFIRM_COUNT`, turns the room dark
/// with both counts cleared; any other sample clears the dark count, whatever
/// it was, and keeps the room bright. The bright count and what was
/// delivered are untouched unless the room turns dark.
pub proof fn lemma_bright_room_counts_dark_samples(v: SensorView, raw: u16)
    requires
        !v.env_dark,
    ensures
        dark_sample(raw) && v.dark_candidate + 1 < DARK_CONFIRM_COUNT ==> hysteresis(v, raw) == (
        SensorView { dark_candidate: v.dark_candidate + 1, ..v }),
        dark_sample(raw) && v.dark_candidate + 1 >= DARK_CONFIRM_COUNT ==> hysteresis(v, raw) == (
        SensorView { env_dark: true, dark_candidate: 0, bright_candidate: 0, ..v }),
        !dark_sample(raw) ==> hysteresis(v, raw) == (SensorView { dark_candidate: 0, ..v }),
{
}

/// Counting towards brightness in a dark room: a bright sample adds one to
/// the bright count and, on reaching `BRIGHT_CONFIRM_COUNT`, turns the room
/// bright with both counts cleared; any other sample clears the bright count
/// and keeps the room dark.
pub proof fn lemma_dark_room_counts_bright_samples(v: SensorView, raw: u16)
    requires
        v.env_dark,
    ensures
        bright_sample(raw) && v.bright_candidate + 1 < BRIGHT_CONFIRM_COUNT ==> hysteresis(v, raw)
            == (SensorView { bright_candidate: v.bright_candidate + 1, ..v }),
        bright_sample(raw) && v.bright_candidate + 1 >= BRIGHT_CONFIRM_COUNT ==> hysteresis(v, raw)
            == (SensorView { env_dark: false, dark_candidate: 0, bright_candidate: 0, ..v }),
        !bright_sample(raw) ==> hysteresis(v, raw) == (SensorView { bright_candidate: 0, ..v }),
{
}

/// The room turns dark only on a dark sample that completes
/// `DARK_CONFIRM_COUNT` consecutive dark samples, and turns bright only on a
/// bright sample that completes `BRIGHT_CONFIRM_COUNT` consecutive bright
/// samples.
pub proof fn lemma_changes_need_confirmation(v: SensorView, raw: u16)
    ensures
        !v.env_dark && sensor_step(v, raw).0.env_dark ==> dark_sample(raw) && v.dark_candidate + 1
            >= DARK_CONFIRM_COUNT,
        v.env_dark && !sensor_step(v, raw).0.env_dark ==> bright_sample(raw) && v.bright_candidate
            + 1 >= BRIGHT_CONFIRM_COUNT,
        sensor_step(v, raw).0.reported_dark == v.reported_dark,
{
}

/// Starting bright with nothing pending, a room turns dark over two samples
/// only if both are dark samples: one lighter sample in between, or before,
/// keeps it bright.
pub proof fn lemma_dark_needs_two_consecutive(v: SensorView, raw1: u16, raw2: u16)
    requires
        !v.env_dark,
        v.dark_candidate == 0,
        sensor_step(sensor_step(v, raw1).0, raw2).0.env_dark,
    ensures
        dark_sample(raw1),
        dark_sample(raw2),
        !sensor_step(v, raw1).0.env_dark,
{
}

/// The event a good sample raises, spelled out: `EnvDarkEntered` with the
/// sample when the room is dark after it and the controller was last told
/// bright, `EnvBrightEntered` in the opposite case, nothing when they agree.
pub proof fn lemma_event_raised(v: SensorView, raw: u16)
    ensures
        sensor_step(v, raw).0 == hysteresis(v, raw),
        sensor_step(v, raw).1 == if hysteresis(v, raw).env_dark == v.reported_dark {
            Option::<Event>::None
        } else if hysteresis(v, raw).env_dark {
            Some(Event::EnvDarkEntered { raw })
        } else {
            Some(Event::EnvBrightEntered { raw })
        },
{
}

/// A failed read changes nothing and raises nothing; a delivery records the
/// light state its event names and nothing else.
pub proof fn lemma_failure_and_delivery(v: SensorView, raw: u16)
    ensures
        sensor_reading(v, None) == (v, Option::<Event>::None),
        sensor_reading(v, Some(raw)) == sensor_step(v, raw),
        sensor_delivered(v, Event::EnvDarkEntered { raw }) == (SensorView {
            reported_dark: true,
            ..v
        }),
        sensor_delivered(v, Event::EnvBrightEntered { raw }) == (SensorView {
            reported_dark: false,
            ..v
        }),
        sensor_delivered(v, Event::MotionDetected) == v,
        sensor_delivered(v, Event::FadeTick) == v,
{
}

/// Each successful sample keeps the pending counts below their
/// confirmation counts.
pub proof fn lemma_step_keeps_inv(v: SensorView, raw: u16)
    requires
        v.inv(),
    ensures
        sensor_step(v, raw).0.inv(),
{
}

/// The raised event always names the current light state, and is raised
/// exactly when the controller was last told the other one. With every
/// event delivered, the controller's knowledge equals the light state after
/// each sample.
pub proof fn lemma_events_track_light_state(v: SensorView, raw: u16)
    ensures
        match sensor_step(v, raw).1 {
            Some(Event::EnvDarkEntered { raw: r }) => r == raw && sensor_step(v, raw).0.env_dark
                && !sensor_step(v, raw).0.reported_dark,
            Some(Event::EnvBrightEntered { raw: r }) => r == raw && !sensor_step(v, raw).0.env_dark
                && sensor_step(v, raw).0.reported_dark,
            Some(_) => false,
            None => sensor_step(v, raw).0.env_dark == sensor_step(v, raw).0.reported_dark,
        },
        sensor_step(v, raw).1 matches Some(e) ==> sensor_delivered(sensor_step(v, raw).0, e).reported_dark
            == sensor_step(v, raw).0.env_dark,
{
}

/// In step with the controller, the sampling task announces exactly the
/// changes of the light state: `EnvDarkEntered` when a dark sample turns a
/// bright room dark, `EnvBrightEntered` when a bright sample turns a dark
/// room bright, nothing otherwise.
pub proof fn lemma_in_step_announces_changes(v: SensorView, raw: u16)
    requires
        v.env_dark == v.reported_dark,
    ensures
        sensor_step(v, raw).1 == if sensor_step(v, raw).0.env_dark == v.env_dark {
            None
        } else {
            Some(light_event(!v.env_dark, raw))
        },
        sensor_step(v, raw).1 matches Some(Event::EnvDarkEntered { .. }) ==> dark_sample(raw),
        sensor_step(v, raw).1 matches Some(Event::EnvBrightEntered { .. }) ==> bright_sample(raw),
{
}

/// A dropped event is only delayed: if the event raised by a sample was not
/// delivered, the next good sample that leaves the light state as it is
/// raises the same announcement again (with the new sample).
pub proof fn lemma_dropped_event_raised_again(v: SensorView, raw1: u16, raw2: u16)
    requires
        v.inv(),
        sensor_step(v, raw1).1 is Some,
        hysteresis(sensor_step(v, raw1).0, raw2).env_dark == sensor_step(v, raw1).0.env_dark,
    ensures
        sensor_step(sensor_step(v, raw1).0, raw2).1 == Some(
            light_event(sensor_step(v, raw1).0.env_dark, raw2),
        ),
{
}

/// A dropped event keeps being raised on every good sample until it is
/// delivered or the light state changes back, even across failed reads.
pub proof fn lemma_pending_event_not_forgotten(v: SensorView, reading: Option<u16>)
    requires
        v.env_dark != v.reported_dark,
    ensures
        sensor_reading(v, reading).0.reported_dark == v.reported_dark,
        reading is Some && sensor_reading(v, reading).0.env_dark == v.env_dark ==> sensor_reading(
            v,
            reading,
        ).1 == Some(light_event(v.env_dark, reading->0)),
        reading is None ==> sensor_reading(v, reading) == (v, Option::<Event>::None),
{
}

/// A bright room turns dark on the `DARK_CONFIRM_COUNT`-th consecutive dark
/// sample and not before: the first of two dark samples raises nothing, the
/// second raises `EnvDarkEntered`.
pub proof fn lemma_dark_needs_confirmation(v: SensorView, raw1: u16, raw2: u16)
    requires
        !v.env_dark,
        !v.reported_dark,
        v.dark_candidate == 0,
        dark_sample(raw1),
        dark_sample(raw2),
    ensures
        sensor_step(v, raw1).1 == Option::<Event>::None,
        !sensor_step(v, raw1).0.env_dark,
        sensor_step(sensor_step(v, raw1).0, raw2).1 == Some(Event::EnvDarkEntered { raw: raw2 }),
        sensor_step(sensor_step(v, raw1).0, raw2).0.env_dark,
{
}

/// A single dark sample followed by a lighter one raises nothing and
/// clears the pending count.
pub proof fn lemma_single_shadow_ignored(v: SensorView, raw1: u16, raw2: u16)
    requires
        v.inv(),
        !v.env_dark,
        !v.reported_dark,
        v.dark_candidate == 0,
        dark_sample(raw1),
        !dark_sample(raw2),
    ensures
        sensor_step(v, raw1).1 == Option::<Event>::None,
        sensor_step(sensor_step(v, raw1).0, raw2).1 == Option::<Event>::None,
        sensor_step(sensor_step(v, raw1).0, raw2).0.dark_candidate == 0,
        !sensor_step(sensor_step(v, raw1).0, raw2).0.env_dark,
{
}

/// A dark room turns bright on one bright sample.
pub proof fn lemma_bright_is_immediate(v: SensorView, raw: u16)
    requires
        v.inv(),
        v.env_dark,
        v.reported_dark,
        bright_sample(raw),
    ensures
        sensor_step(v, raw) == (
            SensorView { env_dark: false, dark_candidate: 0, bright_candidate: 0, ..v },
            Some(Event::EnvBrightEntered { raw }),
        ),
{
}

/// A sample between the thresholds never changes the light state; in step
/// with the controller it raises nothing.
pub proof fn lemma_band_keeps_light_state(v: SensorView, raw: u16)
    requires
        !dark_sample(raw),
        !bright_sample(raw),
    ensures
        sensor_step(v, raw).0.env_dark == v.env_dark,
        v.env_dark == v.reported_dark ==> sensor_step(v, raw).1 == Option::<Event>::None,
{
}

/// A room found dark at boot does not announce darkness again: from a dark
/// light state that the controller knows, no sample raises
/// `EnvDarkEntered`.
pub proof fn lemma_dark_at_boot_not_announced(v: SensorView, raw: u16)
    requires
        v.env_dark,
        v.reported_dark,
    ensures
        !(sensor_step(v, raw).1 matches Some(Event::EnvDarkEntered { .. })),
{
}

} // verus!
