pub mod bh1750_service;
pub mod led_pwm;
