//! The BH1750 ambient light sensor: its bus protocol, as values.
//!
//! The sensor is put into continuous high-resolution mode by one command
//! byte, then each reading is two bytes, high byte first. The count they
//! form stands for `count / 1.2` lux.
use vstd::prelude::*;

verus! {

/// The raw count that two sample bytes, high byte first, form.
pub fn raw_from_bytes(high: u8, low: u8) -> (raw: u16)
    ensures
        raw == high * 256 + low,
{
    let raw = ((high as u16) << 8) | (low as u16);
    assert(((high as u16) << 8) | (low as u16) == high * 256 + low) by (bit_vector);
    raw
}

} // verus!
