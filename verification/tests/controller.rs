use night_lamp::config::FADE_TICK_PERIOD_MS;
use night_lamp::controller::{handle_event, LampAction};
use night_lamp::event::Event;
use night_lamp::state::{ControllerCtx, State};
use night_lamp::utils::fade_table::at;

fn lamp_on() -> Vec<LampAction> {
    vec![
        LampAction::TimerCancel,
        LampAction::LedDuty(1023),
        LampAction::TimerStart { period_ms: FADE_TICK_PERIOD_MS },
    ]
}

fn lamp_off() -> Vec<LampAction> {
    vec![LampAction::LedOff, LampAction::TimerCancel]
}

fn lighting(env_dark: bool, armed: bool, fade_step: u16) -> ControllerCtx {
    ControllerCtx { state: State::Lighting, env_dark, auto_dark_trigger_armed: armed, fade_step }
}

#[test]
fn new_context_is_idle() {
    let ctx = ControllerCtx::new(true, false);
    assert_eq!(ctx.state, State::Idle);
    assert!(ctx.env_dark);
    assert!(!ctx.auto_dark_trigger_armed);
    assert_eq!(ctx.fade_step, 0);
    let ctx = ControllerCtx::new(false, true);
    assert!(!ctx.env_dark);
    assert!(ctx.auto_dark_trigger_armed);
}

#[test]
fn dark_edge_switches_on_when_armed() {
    let mut ctx = ControllerCtx::new(false, true);
    let actions = handle_event(&mut ctx, Event::EnvDarkEntered { raw: 5 });
    assert_eq!(actions, lamp_on());
    assert_eq!(ctx, lighting(true, false, 0));
}

#[test]
fn staying_dark_does_not_switch_on_again() {
    let mut ctx = ControllerCtx::new(false, false);
    let actions = handle_event(&mut ctx, Event::EnvDarkEntered { raw: 5 });
    assert!(actions.is_empty());
    assert_eq!(ctx.state, State::Idle);
    assert!(ctx.env_dark);
    assert!(!ctx.auto_dark_trigger_armed);
}

#[test]
fn motion_in_dark_switches_on_and_keeps_trigger() {
    for armed in [false, true] {
        let mut ctx = ControllerCtx::new(true, armed);
        let actions = handle_event(&mut ctx, Event::MotionDetected);
        assert_eq!(actions, lamp_on());
        assert_eq!(ctx, lighting(true, armed, 0));
    }
}

#[test]
fn motion_in_bright_is_ignored() {
    let mut ctx = ControllerCtx::new(false, true);
    let actions = handle_event(&mut ctx, Event::MotionDetected);
    assert!(actions.is_empty());
    assert_eq!(ctx, ControllerCtx::new(false, true));
}

#[test]
fn bright_in_idle_arms_trigger() {
    let mut ctx = ControllerCtx::new(true, false);
    let actions = handle_event(&mut ctx, Event::EnvBrightEntered { raw: 40 });
    assert!(actions.is_empty());
    assert_eq!(ctx, ControllerCtx::new(false, true));
}

#[test]
fn stale_tick_in_idle_is_ignored() {
    let mut ctx = ControllerCtx::new(true, false);
    let actions = handle_event(&mut ctx, Event::FadeTick);
    assert!(actions.is_empty());
    assert_eq!(ctx, ControllerCtx::new(true, false));
}

#[test]
fn fade_advances_one_step() {
    let mut ctx = lighting(true, false, 10);
    let actions = handle_event(&mut ctx, Event::FadeTick);
    assert_eq!(actions, vec![LampAction::LedDuty(at(11))]);
    assert_eq!(actions, vec![LampAction::LedDuty(922)]);
    assert_eq!(ctx, lighting(true, false, 11));
}

#[test]
fn fade_reaches_last_step_then_switches_off() {
    let mut ctx = lighting(true, false, 238);
    let actions = handle_event(&mut ctx, Event::FadeTick);
    assert_eq!(actions, vec![LampAction::LedDuty(0)]);
    assert_eq!(ctx, lighting(true, false, 239));
    let actions = handle_event(&mut ctx, Event::FadeTick);
    assert_eq!(actions, lamp_off());
    assert_eq!(ctx.state, State::Idle);
    assert_eq!(ctx.fade_step, 0);
    assert!(!ctx.auto_dark_trigger_armed);
    assert!(ctx.env_dark);
}

#[test]
fn whole_fade_lasts_all_steps() {
    let mut ctx = ControllerCtx::new(false, true);
    let actions = handle_event(&mut ctx, Event::EnvDarkEntered { raw: 3 });
    assert_eq!(actions, lamp_on());
    let mut duties = vec![1023u16];
    let mut ticks = 0;
    while ctx.state == State::Lighting {
        let actions = handle_event(&mut ctx, Event::FadeTick);
        ticks += 1;
        for a in actions {
            if let LampAction::LedDuty(d) = a {
                duties.push(d);
            }
        }
    }
    assert_eq!(ticks, 240);
    assert_eq!(duties.len(), 240);
    for (i, d) in duties.iter().enumerate() {
        assert_eq!(*d, at(i));
    }
}

#[test]
fn bright_in_lighting_switches_off_at_once() {
    let mut ctx = lighting(true, false, 57);
    let actions = handle_event(&mut ctx, Event::EnvBrightEntered { raw: 100 });
    assert_eq!(actions, lamp_off());
    assert_eq!(ctx, ControllerCtx::new(false, true));
}

#[test]
fn motion_in_lighting_changes_nothing() {
    let before = lighting(true, true, 42);
    let mut ctx = before;
    let actions = handle_event(&mut ctx, Event::MotionDetected);
    assert!(actions.is_empty());
    assert_eq!(ctx, before);
}

#[test]
fn dark_in_lighting_only_updates_mirror() {
    let mut ctx = lighting(false, false, 3);
    let actions = handle_event(&mut ctx, Event::EnvDarkEntered { raw: 1 });
    assert!(actions.is_empty());
    assert_eq!(ctx, lighting(true, false, 3));
}

#[test]
fn out_of_shape_context_still_handled() {
    // a step beyond the fade ends it on the next tick
    let mut ctx = lighting(true, false, u16::MAX);
    let actions = handle_event(&mut ctx, Event::FadeTick);
    assert_eq!(actions, lamp_off());
    assert_eq!(ctx.state, State::Idle);
}
