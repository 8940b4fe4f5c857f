use night_lamp::boot::{initial_env, BootAction, Bootstrap};
use night_lamp::config::BOOTSTRAP_SAMPLE_INTERVAL_MS;
use night_lamp::event::Event;
use night_lamp::tasks::light_sensor_task::LightSensor;

// raw counts: lux = raw / 1.2
const DARK: u16 = 6; // 5 lux
const BAND: u16 = 18; // 15 lux
const BRIGHT: u16 = 36; // 30 lux

#[test]
fn dark_needs_two_confirmations() {
    let mut s = LightSensor::new(false);
    assert_eq!(s.on_reading(Some(DARK)), None);
    assert_eq!(s.dark_candidate(), 1);
    assert!(!s.env_dark());
    assert_eq!(s.on_reading(Some(DARK)), Some(Event::EnvDarkEntered { raw: DARK }));
    assert!(s.env_dark());
    assert_eq!(s.dark_candidate(), 0);
}

#[test]
fn single_shadow_does_not_trigger() {
    let mut s = LightSensor::new(false);
    assert_eq!(s.on_reading(Some(DARK)), None);
    assert_eq!(s.on_reading(Some(9)), None);
    assert_eq!(s.dark_candidate(), 0);
    assert!(!s.env_dark());
    assert_eq!(s.on_reading(Some(DARK)), None);
    assert!(!s.env_dark());
}

#[test]
fn bright_is_immediate() {
    let mut s = LightSensor::new(true);
    assert_eq!(s.on_reading(Some(BRIGHT)), Some(Event::EnvBrightEntered { raw: BRIGHT }));
    assert!(!s.env_dark());
    assert_eq!(s.bright_candidate(), 0);
}

#[test]
fn band_keeps_state() {
    let mut s = LightSensor::new(true);
    assert_eq!(s.on_reading(Some(BAND)), None);
    assert!(s.env_dark());
    let mut s = LightSensor::new(false);
    assert_eq!(s.on_reading(Some(BAND)), None);
    assert!(!s.env_dark());
}

#[test]
fn thresholds_are_inclusive() {
    // 7 -> 5.83 lux is dark, 30 -> exactly 25 lux is bright
    let mut s = LightSensor::new(false);
    assert_eq!(s.on_reading(Some(7)), None);
    assert_eq!(s.on_reading(Some(7)), Some(Event::EnvDarkEntered { raw: 7 }));
    s.mark_delivered(Event::EnvDarkEntered { raw: 7 });
    assert_eq!(s.on_reading(Some(29)), None);
    assert_eq!(s.on_reading(Some(30)), Some(Event::EnvBrightEntered { raw: 30 }));
}

#[test]
fn failed_read_changes_nothing() {
    let mut s = LightSensor::new(false);
    assert_eq!(s.on_reading(Some(DARK)), None);
    assert_eq!(s.on_reading(None), None);
    assert_eq!(s.dark_candidate(), 1);
    assert!(!s.env_dark());
    // the pending count survives the failure
    assert_eq!(s.on_reading(Some(DARK)), Some(Event::EnvDarkEntered { raw: DARK }));
}

#[test]
fn dark_at_boot_is_not_announced_again() {
    let mut s = LightSensor::new(true);
    for _ in 0..5 {
        assert_eq!(s.on_reading(Some(DARK)), None);
    }
    assert!(s.env_dark());
}

#[test]
fn delivered_event_is_not_raised_again() {
    let mut s = LightSensor::new(false);
    assert_eq!(s.on_reading(Some(DARK)), None);
    let evt = s.on_reading(Some(DARK)).unwrap();
    s.mark_delivered(evt);
    assert!(s.reported_dark());
    assert_eq!(s.on_reading(Some(DARK)), None);
    assert_eq!(s.on_reading(Some(BAND)), None);
}

#[test]
fn dropped_dark_event_is_raised_on_next_sample() {
    // three samples of 5 lux; the queue is full for the second one's event
    let mut s = LightSensor::new(false);
    assert_eq!(s.on_reading(Some(DARK)), None);
    assert_eq!(s.on_reading(Some(DARK)), Some(Event::EnvDarkEntered { raw: DARK }));
    // not delivered: no mark_delivered
    assert!(!s.reported_dark());
    let evt = s.on_reading(Some(DARK));
    assert_eq!(evt, Some(Event::EnvDarkEntered { raw: DARK }));
    s.mark_delivered(evt.unwrap());
    assert_eq!(s.on_reading(Some(DARK)), None);
}

#[test]
fn dropped_bright_event_is_raised_again_until_delivered() {
    let mut s = LightSensor::new(true);
    assert_eq!(s.on_reading(Some(BRIGHT)), Some(Event::EnvBrightEntered { raw: BRIGHT }));
    // dropped, then a failed read: nothing, but not forgotten
    assert_eq!(s.on_reading(None), None);
    assert_eq!(s.on_reading(Some(BAND)), Some(Event::EnvBrightEntered { raw: BAND }));
    s.mark_delivered(Event::EnvBrightEntered { raw: BAND });
    assert_eq!(s.on_reading(Some(BAND)), None);
    assert!(!s.env_dark());
    assert!(!s.reported_dark());
}

#[test]
fn dropped_event_overtaken_by_change_back() {
    // dark announced but dropped, then the room turns bright again: the
    // controller still believes bright, so nothing is raised
    let mut s = LightSensor::new(false);
    assert_eq!(s.on_reading(Some(DARK)), None);
    assert_eq!(s.on_reading(Some(DARK)), Some(Event::EnvDarkEntered { raw: DARK }));
    assert_eq!(s.on_reading(Some(BRIGHT)), None);
    assert!(!s.env_dark());
}

#[test]
fn initial_env_needs_both_dark() {
    assert_eq!(initial_env(DARK, DARK), (true, false));
    assert_eq!(initial_env(DARK, BAND), (false, true));
    assert_eq!(initial_env(BRIGHT, DARK), (false, true));
    assert_eq!(initial_env(BRIGHT, BRIGHT), (false, true));
}

#[test]
fn boot_two_reads_dark_room() {
    let mut b = Bootstrap::new();
    assert_eq!(b.on_reading(Some(DARK)), BootAction::WaitThenRead { delay_ms: BOOTSTRAP_SAMPLE_INTERVAL_MS });
    assert_eq!(b.on_reading(Some(DARK)), BootAction::Finish { env_dark: true, armed: false });
    // stays decided
    assert_eq!(b.on_reading(None), BootAction::Finish { env_dark: true, armed: false });
}

#[test]
fn boot_two_reads_bright_room() {
    let mut b = Bootstrap::new();
    assert_eq!(b.on_reading(Some(BRIGHT)), BootAction::WaitThenRead { delay_ms: 1000 });
    assert_eq!(b.on_reading(Some(DARK)), BootAction::Finish { env_dark: false, armed: true });
}

#[test]
fn boot_retries_after_failures() {
    let mut b = Bootstrap::new();
    assert_eq!(b.on_reading(None), BootAction::ReadNow);
    assert_eq!(b.on_reading(Some(DARK)), BootAction::WaitThenRead { delay_ms: 1000 });
    assert_eq!(b.on_reading(None), BootAction::ReadNow);
    assert_eq!(b.on_reading(Some(DARK)), BootAction::WaitThenRead { delay_ms: 1000 });
    assert_eq!(b.on_reading(Some(DARK)), BootAction::Finish { env_dark: true, armed: false });
}

#[test]
fn boot_falls_back_to_bright() {
    let mut b = Bootstrap::new();
    assert_eq!(b.on_reading(None), BootAction::ReadNow);
    assert_eq!(b.on_reading(Some(DARK)), BootAction::WaitThenRead { delay_ms: 1000 });
    assert_eq!(b.on_reading(None), BootAction::ReadNow);
    assert_eq!(b.on_reading(None), BootAction::Finish { env_dark: false, armed: true });
}
