use night_lamp::config::{is_bright_sample, is_dark_sample, FADE_STEPS, PWM_MAX_DUTY};
use night_lamp::drivers::bh1750_service::raw_from_bytes;
use night_lamp::drivers::led_pwm::clamp_duty;
use night_lamp::utils::fade_table::{at, FADE_TABLE};

#[test]
fn fade_table_boundaries() {
    assert_eq!(at(0), 1023);
    assert_eq!(at(239), 0);
}

#[test]
fn fade_table_out_of_range_is_dark() {
    assert_eq!(at(240), 0);
    assert_eq!(at(300), 0);
    assert_eq!(at(usize::MAX), 0);
}

#[test]
fn fade_table_never_rises() {
    for i in 0..FADE_STEPS - 1 {
        assert!(at(i) >= at(i + 1), "step {}", i);
    }
}

#[test]
fn fade_table_follows_gamma_curve() {
    // round(1023 * (1 - step / 239) ^ 2.2), computed here in floating point
    for step in 0..FADE_STEPS {
        let x = 1023.0_f64 * (1.0 - step as f64 / 239.0).powf(2.2);
        assert_eq!(at(step), x.round() as u16, "step {}", step);
        assert_eq!(FADE_TABLE[step], at(step));
    }
}

#[test]
fn fade_table_middle_values() {
    assert_eq!(at(1), 1014);
    assert_eq!(at(11), 922);
    assert_eq!(at(120), 221);
}

#[test]
fn led_duty_is_clamped() {
    assert_eq!(clamp_duty(2000), 1023);
    assert_eq!(clamp_duty(u16::MAX), PWM_MAX_DUTY);
    assert_eq!(clamp_duty(1024), 1023);
    assert_eq!(clamp_duty(1023), 1023);
    assert_eq!(clamp_duty(512), 512);
    assert_eq!(clamp_duty(0), 0);
}

#[test]
fn sample_bytes_form_raw_count() {
    assert_eq!(raw_from_bytes(0x01, 0x02), 0x0102);
    assert_eq!(raw_from_bytes(0, 7), 7);
    assert_eq!(raw_from_bytes(0xff, 0xff), u16::MAX);
    assert_eq!(raw_from_bytes(0x80, 0x00), 0x8000);
}

#[test]
fn light_thresholds_in_raw_counts() {
    // raw / 1.2 lux: 7 -> 5.83 lux (dark), 8 -> 6.67 lux (not dark)
    assert!(is_dark_sample(0));
    assert!(is_dark_sample(7));
    assert!(!is_dark_sample(8));
    // 30 -> 25 lux (bright), 29 -> 24.17 lux (not bright)
    assert!(is_bright_sample(30));
    assert!(!is_bright_sample(29));
    assert!(is_bright_sample(u16::MAX));
    // 15 lux is in the band: neither
    assert!(!is_dark_sample(18));
    assert!(!is_bright_sample(18));
}
