//! Raw register record of the DS1307 real-time clock, decoded with explicit
//! byte-offset accessors and BCD formulas instead of reinterpreting memory.
//! Each clock field is binary-coded decimal: a tens digit in the masked high
//! nibble and a ones digit in the low nibble of its register.

use vstd::prelude::*;

verus! {

/// Bounds of the masked-nibble values the accessors compute with, so that
/// the BCD arithmetic stays inside a byte.
proof fn lemma_nibble_bounds()
    by (bit_vector)
    ensures
        forall|b: u8| #[trigger] ((b & 0x70) >> 4) <= 7,
        forall|b: u8| #[trigger] ((b & 0x30) >> 4) <= 3,
        forall|b: u8| #[trigger] ((b & 0x10) >> 4) <= 1,
        forall|b: u8| #[trigger] ((b & 0xf0) >> 4) <= 15,
        forall|b: u8| #[trigger] (b & 0x0f) <= 15,
{
}

/// The eight raw registers of the clock, one byte each, in register order.
#[derive(Debug, Clone, Copy)]
pub struct RawData {
    pub second: u8,
    pub minute: u8,
    pub hour: u8,
    pub day: u8,
    pub date: u8,
    pub month: u8,
    pub year: u8,
    pub control: u8,
}

impl RawData {
    /// Builds the record from the eight bytes read out of the clock,
    /// register 0 first.
    pub fn from_bytes(buffer: &[u8; 8]) -> (r: RawData)
        ensures
            r.second == buffer@[0],
            r.minute == buffer@[1],
            r.hour == buffer@[2],
            r.day == buffer@[3],
            r.date == buffer@[4],
            r.month == buffer@[5],
            r.year == buffer@[6],
            r.control == buffer@[7],
    {
        RawData {
            second: buffer[0],
            minute: buffer[1],
            hour: buffer[2],
            day: buffer[3],
            date: buffer[4],
            month: buffer[5],
            year: buffer[6],
            control: buffer[7],
        }
    }

    /// Seconds (0-59): BCD tens in bits 4-6 and ones in the low nibble of
    /// the seconds register.
    pub fn second(&self) -> (r: u8)
        ensures
            r == ((self.second & 0x70) >> 4) * 10 + (self.second & 0x0f),
    {
        proof {
            lemma_nibble_bounds();
        }
        ((self.second & 0x70) >> 4) * 10 + (self.second & 0x0f)
    }

    /// Minutes (0-59): BCD tens in bits 4-6 and ones in the low nibble of
    /// the minutes register.
    pub fn minute(&self) -> (r: u8)
        ensures
            r == ((self.minute & 0x70) >> 4) * 10 + (self.minute & 0x0f),
    {
        proof {
            lemma_nibble_bounds();
        }
        ((self.minute & 0x70) >> 4) * 10 + (self.minute & 0x0f)
    }

    /// Hour of day: a tens digit taken from bits 4-5 of the minutes
    /// register and the ones digit from the low nibble of the hours
    /// register.
    pub fn hour(&self) -> (r: u8)
        ensures
            r == ((self.minute & 0x30) >> 4) * 10 + (self.hour & 0x0f),
    {
        proof {
            lemma_nibble_bounds();
        }
        ((self.minute & 0x30) >> 4) * 10 + (self.hour & 0x0f)
    }

    /// Day of week (1-7): the low three bits of the date register.
    pub fn day(&self) -> (r: u8)
        ensures
            r == self.date & 0x07,
    {
        self.date & 0x07
    }

    /// Day of month (1-31): BCD tens in bits 4-5 and ones in the low nibble
    /// of the date register.
    pub fn date(&self) -> (r: u8)
        ensures
            r == ((self.date & 0x30) >> 4) * 10 + (self.date & 0x0f),
    {
        proof {
            lemma_nibble_bounds();
        }
        ((self.date & 0x30) >> 4) * 10 + (self.date & 0x0f)
    }

    /// Month (1-12): BCD tens in bit 4 and ones in the low nibble of the
    /// month register.
    pub fn month(&self) -> (r: u8)
        ensures
            r == ((self.month & 0x10) >> 4) * 10 + (self.month & 0x0f),
    {
        proof {
            lemma_nibble_bounds();
        }
        ((self.month & 0x10) >> 4) * 10 + (self.month & 0x0f)
    }

    /// Year within the century (0-99): BCD tens in the high nibble and ones
    /// in the low nibble of the year register.
    pub fn year(&self) -> (r: u8)
        ensures
            r == ((self.year & 0xf0) >> 4) * 10 + (self.year & 0x0f),
    {
        proof {
            lemma_nibble_bounds();
        }
        ((self.year & 0xf0) >> 4) * 10 + (self.year & 0x0f)
    }

    /// Bit 7: Output Control (OUT).
    /// This bit controls the output level of the SQW/OUT pin when the
    /// square-wave output is disabled: if SQWE = 0, the pin is 1 when
    /// OUT = 1 and 0 when OUT = 0.
    pub fn control_out(&self) -> (r: bool)
        ensures
            r == (((self.control & 0x80) >> 7) > 0),
    {
        ((self.control & 0x80) >> 7) > 0
    }

    /// Bit 4: Square-Wave Enable (SQWE).
    /// When set, the oscillator output is enabled; its frequency depends on
    /// the rate-select bits.
    pub fn control_sqwe(&self) -> (r: bool)
        ensures
            r == (((self.control & 0x10) >> 4) > 0),
    {
        ((self.control & 0x10) >> 4) > 0
    }

    /// Bits 1 and 0: Rate Select (RS[1:0]).
    /// These bits select the square-wave frequency when the square-wave
    /// output is enabled: 0 = 1Hz, 1 = 4.096kHz, 2 = 8.192kHz,
    /// 3 = 32.768kHz.
    pub fn control_rate_select(&self) -> (r: u8)
        ensures
            r == self.control & 0x03,
    {
        self.control & 0x03
    }
}

} // verus!
