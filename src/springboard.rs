//! Words sent to the actuator's converters.
//!
//! The trigger is driven by an MCP4922 12-bit DAC over SPI: each write is two
//! bytes, four configuration bits followed by the 12-bit value. Digital
//! potentiometers (DS3502, MCP4018) take a 7-bit wiper position.
use vstd::prelude::*;

verus! {

/// Largest wiper position of the 7-bit digital potentiometers.
pub const WIPER_MAX: u8 = 127;

/// Output channel of the DAC.
#[derive(Clone, Copy, Debug, PartialEq, Eq, Structural)]
pub enum Channel {
    CHA,
    CHB,
}

pub open spec fn channel_bit(channel: Channel) -> int {
    match channel {
        Channel::CHA => 0,
        Channel::CHB => 1,
    }
}

/// The two bytes that set `channel` to the low 12 bits of `value`: channel
/// select, unbuffered, gain 1x, active; then the value, high nibble first.
pub open spec fn dac_write_bytes(channel: Channel, value: u16) -> Seq<u8> {
    seq![
        (channel_bit(channel) * 128 + 32 + (value / 256) % 16) as u8,
        (value % 256) as u8,
    ]
}

/// The two bytes that power `channel` down.
pub open spec fn dac_shutdown_bytes(channel: Channel) -> Seq<u8> {
    seq![(channel_bit(channel) * 128 + 48) as u8, 0xFFu8]
}

/// The SPI frame that sets a DAC channel's output.
pub fn dac_write_frame(channel: Channel, value: u16) -> (r: [u8; 2])
    ensures
        r@ == dac_write_bytes(channel, value),
{
    let channel_bit: u16 = match channel {
        Channel::CHA => 0,
        Channel::CHB => 1,
    };
    let buffer_bit: u16 = 0;
    let output_gain_bit: u16 = 1;
    let power_down_bit: u16 = 0;
    let config_bits: u16 = (channel_bit << 3u16) | (buffer_bit << 2u16) | (output_gain_bit << 1u16)
        | power_down_bit;
    let first: u16 = (config_bits << 4u16) | ((value & 0xF00) >> 8u16);
    let second: u16 = value & 0xFF;
    assert(first == channel_bit * 128 + 32 + (value / 256) % 16 && second == value % 256)
        by (bit_vector)
        requires
            channel_bit <= 1,
            buffer_bit == 0,
            output_gain_bit == 1,
            power_down_bit == 0,
            config_bits == (channel_bit << 3u16) | (buffer_bit << 2u16) | (output_gain_bit << 1u16)
                | power_down_bit,
            first == (config_bits << 4u16) | ((value & 0xF00) >> 8u16),
            second == value & 0xFF,
    ;
    let r = [first as u8, second as u8];
    assert(r@ =~= dac_write_bytes(channel, value));
    r
}

/// The SPI frame that powers a DAC channel down.
pub fn dac_shutdown_frame(channel: Channel) -> (r: [u8; 2])
    ensures
        r@ == dac_shutdown_bytes(channel),
{
    let first: u8 = match channel {
        Channel::CHA => 0x30,
        Channel::CHB => 0xB0,
    };
    let r = [first, 0xFFu8];
    assert(r@ =~= dac_shutdown_bytes(channel));
    r
}

/// Whether a potentiometer accepts `value` as a wiper position; a larger one
/// is ignored and nothing is written.
pub fn wiper_accepts(value: u8) -> (r: bool)
    ensures
        r == (value <= WIPER_MAX),
{
    value <= WIPER_MAX
}

} // verus!
