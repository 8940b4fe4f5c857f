//! Fixed parameters of the night lamp, gathered in one place.
//!
//! Every module reads its numbers from here; none of them repeats a literal.
//! The GPIO numbers document the wiring; the pin objects themselves come from
//! the board's peripherals.
//!
//! The light thresholds are whole lux values. A BH1750 reading is a raw count
//! `raw`, and the light it stands for is `raw / 1.2` lux; the predicates in
//! this module compare a raw count with a lux threshold exactly, without
//! rounding.
use vstd::prelude::*;

verus! {

// ---- GPIO assignment -------------------------------------------------------
/// BH1750 I2C data line.
pub const PIN_BH1750_SDA_NUM: u8 = 6;

/// BH1750 I2C clock line.
pub const PIN_BH1750_SCL_NUM: u8 = 7;

/// AM312 digital output, rising-edge interrupt.
pub const PIN_AM312_OUT_NUM: u8 = 4;

/// Night lamp LED PWM output.
pub const PIN_LED_PWM_NUM: u8 = 5;

// ---- BH1750 ----------------------------------------------------------------
/// BH1750 sampling period (ms).
pub const BH1750_SAMPLE_PERIOD_MS: u64 = 1000;

/// At or below this many lux the room counts as dark.
pub const LUX_DARK_THRESHOLD: u32 = 6;

/// At or above this many lux the room counts as bright.
pub const LUX_BRIGHT_THRESHOLD: u32 = 25;

/// Consecutive dark samples needed to enter the dark state.
pub const DARK_CONFIRM_COUNT: u32 = 2;

/// Consecutive bright samples needed to leave the dark state.
pub const BRIGHT_CONFIRM_COUNT: u32 = 1;

/// BH1750 I2C address (ADDR pin tied to GND).
pub const I2C_ADDR_BH1750: u8 = 0x23;

/// BH1750 command: continuous high-resolution mode.
pub const BH1750_CMD_CONT_H_RES: u8 = 0x10;

/// Wait after entering continuous mode before the first measurement (ms).
pub const BH1750_FIRST_MEASURE_DELAY_MS: u64 = 200;

// ---- LED PWM ---------------------------------------------------------------
/// PWM frequency (Hz).
pub const PWM_FREQ_HZ: u32 = 4000;

/// PWM resolution in bits.
pub const PWM_RESOLUTION_BITS: u32 = 10;

/// Largest PWM duty at 10-bit resolution.
pub const PWM_MAX_DUTY: u16 = 1023;

// ---- Fading ----------------------------------------------------------------
/// Whole fade duration (minutes).
pub const FADE_TOTAL_DURATION_MIN: u64 = 20;

/// Period of the fade tick (ms).
pub const FADE_TICK_PERIOD_MS: u64 = 5000;

/// Number of brightness steps of one fade.
pub const FADE_STEPS: usize = 240;

// ---- LED series resistor (documentation only) ------------------------------
/// Default LED series resistor: 220 ohm.
pub const LED_RESISTOR_OHM: u32 = 220;

/// Alternative LED series resistor: 150 ohm (when the LED is too dim).
pub const LED_RESISTOR_ALT_OHM: u32 = 150;

// ---- Event queue -----------------------------------------------------------
/// Capacity of the global event queue.
pub const EVENT_QUEUE_LEN: usize = 16;

// ---- Task stacks -----------------------------------------------------------
/// Stack size of each worker task (bytes).
pub const TASK_STACK_SIZE: usize = 4096;

// ---- Start-up ----------------------------------------------------------------
/// Interval between the two start-up light samples (ms).
pub const BOOTSTRAP_SAMPLE_INTERVAL_MS: u64 = 1000;

/// Attempts at the two start-up light samples before falling back to bright.
pub const BOOTSTRAP_READ_RETRY: u32 = 3;

/// The light that a raw BH1750 count `raw` stands for, `raw / 1.2` lux, is at
/// most `lux`.
pub open spec fn raw_at_most_lux(raw: u16, lux: u32) -> bool {
    10 * raw <= 12 * lux
}

/// The light that a raw BH1750 count `raw` stands for, `raw / 1.2` lux, is at
/// least `lux`.
pub open spec fn raw_at_least_lux(raw: u16, lux: u32) -> bool {
    10 * raw >= 12 * lux
}

/// A sample that counts towards the dark state: at most
/// `LUX_DARK_THRESHOLD` lux.
pub open spec fn dark_sample(raw: u16) -> bool {
    raw_at_most_lux(raw, LUX_DARK_THRESHOLD)
}

/// A sample that counts towards the bright state: at least
/// `LUX_BRIGHT_THRESHOLD` lux.
pub open spec fn bright_sample(raw: u16) -> bool {
    raw_at_least_lux(raw, LUX_BRIGHT_THRESHOLD)
}

/// Whether the raw reading stands for at most `LUX_DARK_THRESHOLD` lux.
pub fn is_dark_sample(raw: u16) -> (dark: bool)
    ensures
        dark == dark_sample(raw),
{
    (raw as u64) * 10 <= (LUX_DARK_THRESHOLD as u64) * 12
}

/// Whether the raw reading stands for at least `LUX_BRIGHT_THRESHOLD` lux.
pub fn is_bright_sample(raw: u16) -> (bright: bool)
    ensures
        bright == bright_sample(raw),
{
    (raw as u64) * 10 >= (LUX_BRIGHT_THRESHOLD as u64) * 12
}

/// The fade lasts the advertised time: `FADE_STEPS` ticks of
/// `FADE_TICK_PERIOD_MS` make `FADE_TOTAL_DURATION_MIN` minutes.
pub proof fn lemma_fade_duration()
    ensures
        FADE_STEPS * FADE_TICK_PERIOD_MS == FADE_TOTAL_DURATION_MIN * 60 * 1000,
{
}

/// No sample is both dark and bright: the two thresholds leave a band in
/// between in which the state holds.
pub proof fn lemma_thresholds_disjoint(raw: u16)
    ensures
        !(dark_sample(raw) && bright_sample(raw)),
        dark_sample(raw) <==> raw <= 7,
        bright_sample(raw) <==> raw >= 30,
{
}

} // verus!
