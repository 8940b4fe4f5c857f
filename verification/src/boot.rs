//! The start-up light check.
//!
//! Before the tasks start, the firmware reads the BH1750 twice,
//! `BOOTSTRAP_SAMPLE_INTERVAL_MS` apart, to settle the initial `env_dark`:
//! the room is dark only if both samples are at most `LUX_DARK_THRESHOLD`
//! lux. A room found dark leaves the automatic trigger disarmed, a bright one
//! arms it. A failed read abandons the attempt; after
//! `BOOTSTRAP_READ_RETRY` failed attempts the room is taken as bright.
//!
//! `Bootstrap` decides; the caller reads the sensor and waits as told.
use vstd::prelude::*;

use crate::config::{dark_sample, is_dark_sample, BOOTSTRAP_READ_RETRY, BOOTSTRAP_SAMPLE_INTERVAL_MS};

verus! {

/// What the caller does next.
#[derive(Clone, Copy, Debug, PartialEq, Eq, Structural)]
pub enum BootAction {
    /// Read the sensor again at once (a new attempt).
    ReadNow,
    /// Wait `delay_ms`, then read the sensor (the second sample).
    WaitThenRead { delay_ms: u64 },
    /// Done: the initial light state and trigger.
    Finish { env_dark: bool, armed: bool },
}

/// The initial light state and trigger from the two samples of one attempt.
pub open spec fn initial_env_spec(first: u16, second: u16) -> (bool, bool) {
    let env_dark = dark_sample(first) && dark_sample(second);
    (env_dark, !env_dark)
}

/// The light state when every attempt failed: bright, trigger armed.
pub open spec fn fallback_env() -> (bool, bool) {
    (false, true)
}

/// The state of the start-up check.
pub struct Bootstrap {
    attempt: u32,
    first: Option<u16>,
    outcome: Option<(bool, bool)>,
}

/// The start-up check as values: the attempt under way, its first sample if
/// taken, and the outcome once decided.
pub struct BootView {
    pub attempt: nat,
    pub first: Option<u16>,
    pub outcome: Option<(bool, bool)>,
}

impl BootView {
    /// Undecided checks are within their attempts; a decided one arms the
    /// trigger exactly when the room is not dark.
    pub open spec fn inv(self) -> bool {
        &&& self.outcome is None ==> self.attempt < BOOTSTRAP_READ_RETRY
        &&& self.outcome matches Some(o) ==> o.1 == !o.0
    }

    /// Readings taken so far towards a decision: two per failed attempt, one
    /// for a pending first sample.
    pub open spec fn progress(self) -> nat {
        2 * self.attempt + if self.first is Some { 1nat } else { 0nat }
    }
}

/// The check at the start: first attempt, nothing read.
pub open spec fn boot_start() -> BootView {
    BootView { attempt: 0, first: None, outcome: None }
}

/// A failed read: the attempt is abandoned; the last one ends the check with
/// the fallback.
pub open spec fn boot_fail(v: BootView) -> (BootView, BootAction) {
    let attempt = v.attempt + 1;
    if attempt >= BOOTSTRAP_READ_RETRY {
        (
            BootView { attempt, first: None, outcome: Some(fallback_env()) },
            BootAction::Finish { env_dark: fallback_env().0, armed: fallback_env().1 },
        )
    } else {
        (BootView { attempt, first: None, outcome: None }, BootAction::ReadNow)
    }
}

/// One read result (`None` for a failed read): the check after it and what
/// to do next. A decided check stays decided.
pub open spec fn boot_step(v: BootView, reading: Option<u16>) -> (BootView, BootAction) {
    match v.outcome {
        Some(outcome) => (v, BootAction::Finish { env_dark: outcome.0, armed: outcome.1 }),
        None => match (v.first, reading) {
            (_, None) => boot_fail(v),
            (None, Some(raw)) => (
                BootView { first: Some(raw), ..v },
                BootAction::WaitThenRead { delay_ms: BOOTSTRAP_SAMPLE_INTERVAL_MS },
            ),
            (Some(first), Some(second)) => {
                let outcome = initial_env_spec(first, second);
                (
                    BootView { first: None, outcome: Some(outcome), ..v },
                    BootAction::Finish { env_dark: outcome.0, armed: outcome.1 },
                )
            },
        },
    }
}

/// The initial light state and trigger from two samples: dark only if both are
/// dark; the trigger is armed exactly when the room is not dark.
pub fn initial_env(first: u16, second: u16) -> (result: (bool, bool))
    ensures
        result == initial_env_spec(first, second),
        result.0 == (dark_sample(first) && dark_sample(second)),
        result.1 == !result.0,
{
    let env_dark = is_dark_sample(first) && is_dark_sample(second);
    (env_dark, !env_dark)
}

impl View for Bootstrap {
    type V = BootView;

    closed spec fn view(&self) -> BootView {
        BootView { attempt: self.attempt as nat, first: self.first, outcome: self.outcome }
    }
}

impl Bootstrap {
    #[verifier::type_invariant]
    spec fn within_attempts(self) -> bool {
        &&& self.outcome is None ==> self.attempt < BOOTSTRAP_READ_RETRY
        &&& self.outcome matches Some(o) ==> o.1 == !o.0
    }

    /// A fresh check; the caller's first step is to read the sensor.
    pub fn new() -> (boot: Self)
        ensures
            boot@ == boot_start(),
            boot@.attempt == 0 && boot@.first is None && boot@.outcome is None,
            boot@.inv(),
    {
        Bootstrap { attempt: 0, first: None, outcome: None }
    }

    /// Takes one read result and says what to do next.
    pub fn on_reading(&mut self, reading: Option<u16>) -> (action: BootAction)
        ensures
            (final(self)@, action) == boot_step(old(self)@, reading),
            final(self)@.inv(),
            action matches BootAction::Finish { env_dark, armed } ==> final(self)@.outcome
                == Some((env_dark, armed)) && armed == !env_dark,
    {
        proof {
            use_type_invariant(&*self);
        }
        match self.outcome {
            Some((env_dark, armed)) => BootAction::Finish { env_dark, armed },
            None => match (self.first, reading) {
                (_, None) => {
                    let attempt = self.attempt + 1;
                    if attempt >= BOOTSTRAP_READ_RETRY {
                        // every attempt failed: take the room as bright
                        *self = Bootstrap { attempt, first: None, outcome: Some((false, true)) };
                        BootAction::Finish { env_dark: false, armed: true }
                    } else {
                        *self = Bootstrap { attempt, first: None, outcome: None };
                        BootAction::ReadNow
                    }
                },
                (None, Some(raw)) => {
                    self.first = Some(raw);
                    BootAction::WaitThenRead { delay_ms: BOOTSTRAP_SAMPLE_INTERVAL_MS }
                },
                (Some(first), Some(second)) => {
                    let (env_dark, armed) = initial_env(first, second);
                    *self = Bootstrap {
                        attempt: self.attempt,
                        first: None,
                        outcome: Some((env_dark, armed)),
                    };
                    BootAction::Finish { env_dark, armed }
                },
            },
        }
    }
}

/// Every outcome of the check arms the trigger exactly when the room is
/// not dark.
pub proof fn lemma_finish_arms_iff_bright(v: BootView, reading: Option<u16>)
    requires
        v.inv(),
    ensures
        boot_step(v, reading).1 matches BootAction::Finish { env_dark, armed } ==> armed == !env_dark,
        boot_step(v, reading).0.inv(),
{
}

/// The start-up check, read result by read result, spelled out for an
/// undecided check:
/// - the first good read of an attempt is kept, and the caller waits
///   `BOOTSTRAP_SAMPLE_INTERVAL_MS` for the second;
/// - the second good read decides: dark exactly when both samples are dark
///   samples, trigger armed exactly when not dark; the action reports the
///   decision that is recorded;
/// - a failed read ends the attempt; after `BOOTSTRAP_READ_RETRY` attempts
///   the room is taken as bright with the trigger armed, before that the
///   caller reads again at once.
pub proof fn lemma_boot_reads(v: BootView, raw: u16)
    requires
        v.inv(),
        v.outcome is None,
    ensures
        v.first is None ==> boot_step(v, Some(raw)) == (
            BootView { attempt: v.attempt, first: Some(raw), outcome: None },
            BootAction::WaitThenRead { delay_ms: BOOTSTRAP_SAMPLE_INTERVAL_MS },
        ),
        v.first matches Some(first) ==> boot_step(v, Some(raw)) == (
            BootView {
                attempt: v.attempt,
                first: None,
                outcome: Some((
                    dark_sample(first) && dark_sample(raw),
                    !(dark_sample(first) && dark_sample(raw)),
                )),
            },
            BootAction::Finish {
                env_dark: dark_sample(first) && dark_sample(raw),
                armed: !(dark_sample(first) && dark_sample(raw)),
            },
        ),
        v.attempt + 1 >= BOOTSTRAP_READ_RETRY ==> boot_step(v, None) == (
            BootView { attempt: v.attempt + 1, first: None, outcome: Some((false, true)) },
            BootAction::Finish { env_dark: false, armed: true },
        ),
        v.attempt + 1 < BOOTSTRAP_READ_RETRY ==> boot_step(v, None) == (
            BootView { attempt: v.attempt + 1, first: None, outcome: None },
            BootAction::ReadNow,
        ),
{
}

/// A decided check stays decided and keeps reporting its decision; every
/// reported decision is the one recorded, and arms the trigger exactly when
/// the room is not dark.
pub proof fn lemma_boot_reports_its_decision(v: BootView, reading: Option<u16>)
    requires
        v.inv(),
    ensures
        v.outcome matches Some(o) ==> boot_step(v, reading) == (v, BootAction::Finish {
            env_dark: o.0,
            armed: o.1,
        }),
        boot_step(v, reading).1 matches BootAction::Finish { env_dark, armed } ==> boot_step(
            v,
            reading,
        ).0.outcome == Some((env_dark, armed)) && armed == !env_dark,
        boot_step(v, reading).0.outcome is None ==> !(boot_step(v, reading).1 is Finish),
{
}

/// The start-up verdict from two samples: dark exactly when both are dark
/// samples (at most `LUX_DARK_THRESHOLD` lux), and the trigger armed exactly
/// when the room is not dark.
pub proof fn lemma_initial_env_rule(first: u16, second: u16)
    ensures
        initial_env_spec(first, second).0 == (dark_sample(first) && dark_sample(second)),
        initial_env_spec(first, second).1 == !(dark_sample(first) && dark_sample(second)),
        dark_sample(first) && dark_sample(second) ==> initial_env_spec(first, second) == (true, false),
        !dark_sample(first) || !dark_sample(second) ==> initial_env_spec(first, second) == (
            false,
            true,
        ),
{
}

/// The check after a sequence of read results.
pub open spec fn boot_run(v: BootView, readings: Seq<Option<u16>>) -> BootView
    decreases readings.len(),
{
    if readings.len() == 0 {
        v
    } else {
        boot_run(boot_step(v, readings[0]).0, readings.subrange(1, readings.len() as int))
    }
}

/// Each read result moves an undecided check forward.
proof fn lemma_step_progresses(v: BootView, reading: Option<u16>)
    requires
        v.inv(),
        v.outcome is None,
    ensures
        boot_step(v, reading).0.inv(),
        boot_step(v, reading).0.outcome is None ==> boot_step(v, reading).0.progress()
            > v.progress(),
        boot_step(v, reading).0.progress() <= 2 * BOOTSTRAP_READ_RETRY,
{
}

proof fn lemma_run_decides(v: BootView, readings: Seq<Option<u16>>)
    requires
        v.inv(),
        v.progress() + readings.len() >= 2 * BOOTSTRAP_READ_RETRY,
    ensures
        boot_run(v, readings).outcome is Some,
    decreases readings.len(),
{
    if v.outcome is Some {
        lemma_decided_stays(v, readings);
    } else {
        if readings.len() == 0 {
            assert(v.progress() < 2 * BOOTSTRAP_READ_RETRY);
        } else {
            lemma_step_progresses(v, readings[0]);
            let next = boot_step(v, readings[0]).0;
            let rest = readings.subrange(1, readings.len() as int);
            if next.outcome is Some {
                lemma_decided_stays(next, rest);
            } else {
                lemma_run_decides(next, rest);
            }
        }
    }
}

proof fn lemma_decided_stays(v: BootView, readings: Seq<Option<u16>>)
    requires
        v.outcome is Some,
    ensures
        boot_run(v, readings) == v,
    decreases readings.len(),
{
    if readings.len() > 0 {
        lemma_decided_stays(v, readings.subrange(1, readings.len() as int));
    }
}

/// The check always ends: whatever the sensor does, at most
/// `2 * BOOTSTRAP_READ_RETRY` read results decide it.
pub proof fn lemma_boot_terminates(readings: Seq<Option<u16>>)
    requires
        readings.len() >= 2 * BOOTSTRAP_READ_RETRY,
    ensures
        boot_run(boot_start(), readings).outcome is Some,
{
    lemma_run_decides(boot_start(), readings);
}

/// When every read fails, the check ends with the room taken as bright and
/// the trigger armed.
pub proof fn lemma_all_failures_fall_back(readings: Seq<Option<u16>>)
    requires
        readings.len() >= 2 * BOOTSTRAP_READ_RETRY,
        forall|i: int| 0 <= i < readings.len() ==> readings[i] is None,
    ensures
        boot_run(boot_start(), readings).outcome == Some((false, true)),
{
    reveal_with_fuel(boot_run, 4);
    let s = readings;
    assert(s.subrange(1, s.len() as int).subrange(1, s.len() - 1)
        =~= s.subrange(2, s.len() as int));
    assert(s.subrange(2, s.len() as int).subrange(1, s.len() - 2)
        =~= s.subrange(3, s.len() as int));
    assert(s.subrange(1, s.len() as int)[0] == s[1]);
    assert(s.subrange(2, s.len() as int)[0] == s[2]);
    lemma_decided_stays(
        BootView { attempt: 3, first: None, outcome: Some(fallback_env()) },
        s.subrange(3, s.len() as int),
    );
}

/// Two successful reads in the first attempt decide the check on those two
/// samples.
pub proof fn lemma_two_reads_decide(first: u16, second: u16)
    ensures
        boot_run(boot_start(), seq![Some(first), Some(second)]).outcome == Some(
            (dark_sample(first) && dark_sample(second), !(dark_sample(first) && dark_sample(second))),
        ),
{
    reveal_with_fuel(boot_run, 3);
    let s = seq![Some(first), Some(second)];
    assert(s.subrange(1, 2) =~= seq![Some(second)]);
    assert(seq![Some(second)].subrange(1, 1) =~= Seq::<Option<u16>>::empty());
}

} // verus!
