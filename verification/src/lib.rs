//! Verified decision logic of a motion- and light-driven night lamp.
//!
//! The lamp switches on when the room turns dark or when someone moves in
//! the dark, then fades out over a fixed gamma curve; it switches off at once
//! when the room turns bright. This crate holds the decisions: the controller
//! state machine, the light hysteresis, the start-up light check, the fade
//! curve and the sensor and PWM value handling. The firmware around it
//! performs the I/O.
pub mod boot;
pub mod config;
pub mod controller;
pub mod drivers;
pub mod event;
pub mod state;
pub mod system;
pub mod tasks;
pub mod utils;
