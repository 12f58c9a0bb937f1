//! HTU21 sensor support: CRC-8 validation of raw sensor bytes, and decoding
//! of the two raw register bytes into a fixed-point physical measurement.

use vstd::prelude::*;

verus! {

/// One step of the bit-serial CRC-8 update with polynomial 0x31
/// (x^8 + x^5 + x^4 + 1): shift left, folding the dropped top bit back in
/// through the polynomial.
pub open spec fn crc8_step(crc: u8) -> u8 {
    if crc & 0x80 != 0 {
        (crc << 1) ^ 0x31
    } else {
        crc << 1
    }
}

/// `n` bit-serial steps applied to `crc`.
pub open spec fn crc8_steps(crc: u8, n: nat) -> u8
    decreases n,
{
    if n == 0 {
        crc
    } else {
        crc8_step(crc8_steps(crc, (n - 1) as nat))
    }
}

/// Folds one byte into the running CRC-8 remainder: xor the byte in, then
/// run the eight bit-serial steps.
pub open spec fn crc8_byte(crc: u8, byte: u8) -> u8 {
    crc8_steps(crc ^ byte, 8)
}

/// CRC-8 remainder of a byte sequence, starting from register value 0x00,
/// with no input or output reflection and no final xor. An empty sequence
/// yields the initial register value unchanged.
pub open spec fn crc8(data: Seq<u8>) -> u8
    decreases data.len(),
{
    if data.len() == 0 {
        0
    } else {
        crc8_byte(crc8(data.drop_last()), data.last())
    }
}

/// Computes the CRC-8 checksum of `data`.
pub fn checksum(data: &[u8]) -> (r: u8)
    ensures
        r == crc8(data@),
{
    let mut crc: u8 = 0;
    let mut i: usize = 0;
    while i < data.len()
        invariant
            i <= data@.len(),
            crc == crc8(data@.take(i as int)),
        decreases data@.len() - i,
    {
        crc = crc ^ data[i];
        let ghost entry = crc;
        let mut bit: usize = 0;
        while bit < 8
            invariant
                bit <= 8,
                crc == crc8_steps(entry, bit as nat),
            decreases 8 - bit,
        {
            if crc & 0x80 != 0 {
                crc = (crc << 1) ^ 0x31;
            } else {
                crc = crc << 1;
            }
            bit = bit + 1;
        }
        proof {
            assert(data@.take(i + 1).drop_last() =~= data@.take(i as int));
        }
        i = i + 1;
    }
    proof {
        assert(data@.take(data@.len() as int) =~= data@);
    }
    crc
}

/// Failures of the reading decoder: the status bit embedded in the second
/// raw byte does not match the measurement kind that was asked for.
#[derive(Debug, PartialEq, Eq, Structural, Clone, Copy)]
pub enum Error {
    NotTemperatureSensoreValue,
    NotHumiditySensorValue,
}

/// The measurement kinds the sensor reports. The kind determines the
/// expected status bit and the linear conversion constants.
#[derive(Debug, PartialEq, Eq, Structural, Clone, Copy)]
pub enum MeasurementKind {
    Temperature,
    Humidity,
}

impl MeasurementKind {
    /// The value of the status bit that marks a raw reading of this kind:
    /// 0 for temperature, 1 for humidity.
    pub open spec fn expected_status(self) -> u8 {
        match self {
            MeasurementKind::Temperature => 0,
            MeasurementKind::Humidity => 1,
        }
    }
}

/// The status bit of a raw reading: bit 1 of the second raw byte
/// (bit 0 is reserved).
pub open spec fn status_bit(lsb: u8) -> u8 {
    (lsb >> 1) & 1
}

/// The 16-bit register value carried by the two raw bytes: the 14
/// measurement bits occupy `msb` and the top 6 bits of `lsb`; the two
/// low status bits of `lsb` are masked off.
pub open spec fn raw_value(msb: u8, lsb: u8) -> int {
    msb * 256 + (lsb & 0xfc)
}

/// The temperature encoded by register value `raw`, in thousandths of a
/// degree Celsius: the datasheet transform -46.85 + 175.72 * (raw / 65536),
/// carried out exactly in milli-units and truncated toward negative infinity.
pub open spec fn temperature_millicelsius(raw: int) -> int {
    -46850 + (175720 * raw) / 65536
}

/// The relative humidity encoded by register value `raw`, in thousandths of
/// a percent: the datasheet transform -6.0 + 125.0 * (raw / 65536), carried
/// out exactly in milli-units and truncated toward negative infinity.
pub open spec fn humidity_millipercent(raw: int) -> int {
    -6000 + (125000 * raw) / 65536
}

/// Extracts the status bit from the second raw byte.
fn read_status(lsb: u8) -> (r: u8)
    ensures
        r == status_bit(lsb),
{
    (lsb >> 1) & 1
}

/// Assembles the masked 16-bit register value from the two raw bytes.
fn read_raw_value(msb: u8, lsb: u8) -> (r: u16)
    ensures
        r == raw_value(msb, lsb),
{
    (msb as u16) * 256 + ((lsb & 0xfc) as u16)
}

/// Decodes a raw temperature reading into thousandths of a degree Celsius.
/// Succeeds exactly when the status bit of `data[1]` is 0; any other raw
/// pair is rejected as not being a temperature value.
pub fn parse_temperature(data: &[u8]) -> (r: Result<i32, Error>)
    requires
        data@.len() >= 2,
    ensures
        match r {
            Ok(v) => status_bit(data@[1]) == 0 && v == temperature_millicelsius(
                raw_value(data@[0], data@[1]),
            ),
            Err(e) => status_bit(data@[1]) != 0 && e == Error::NotTemperatureSensoreValue,
        },
{
    let status = read_status(data[1]);
    if status != 0 {
        return Err(Error::NotTemperatureSensoreValue);
    }
    let raw = read_raw_value(data[0], data[1]);
    let scaled: u64 = (175720u64 * raw as u64) / 65536;
    Ok(-46850 + scaled as i32)
}

/// Decodes a raw humidity reading into thousandths of a percent relative
/// humidity. Succeeds exactly when the status bit of `data[1]` is 1; any
/// other raw pair is rejected as not being a humidity value.
pub fn parse_humidity(data: &[u8]) -> (r: Result<i32, Error>)
    requires
        data@.len() >= 2,
    ensures
        match r {
            Ok(v) => status_bit(data@[1]) == 1 && v == humidity_millipercent(
                raw_value(data@[0], data@[1]),
            ),
            Err(e) => status_bit(data@[1]) != 1 && e == Error::NotHumiditySensorValue,
        },
{
    let status = read_status(data[1]);
    if status != 1 {
        return Err(Error::NotHumiditySensorValue);
    }
    let raw = read_raw_value(data[0], data[1]);
    let scaled: u64 = (125000u64 * raw as u64) / 65536;
    Ok(-6000 + scaled as i32)
}

/// The first raw byte that encodes the 14-bit measurement `value`: its top
/// eight bits.
pub open spec fn encode_msb(value: u16) -> u8 {
    (value / 64) as u8
}

/// The second raw byte that encodes the 14-bit measurement `value`: its low
/// six bits in the top of the byte, the kind's status bit at bit 1, and the
/// reserved bit 0 clear.
pub open spec fn encode_lsb(value: u16, kind: MeasurementKind) -> u8 {
    ((value % 64) * 4 + kind.expected_status() * 2) as u8
}

/// Packs a 14-bit measurement value into the two-byte raw layout, with the
/// status bit that marks it as a reading of `kind`.
pub fn encode_reading(value: u16, kind: MeasurementKind) -> (r: (u8, u8))
    requires
        value < 16384,
    ensures
        r.0 == encode_msb(value),
        r.1 == encode_lsb(value, kind),
{
    let status: u8 = match kind {
        MeasurementKind::Temperature => 0,
        MeasurementKind::Humidity => 1,
    };
    let msb = (value / 64) as u8;
    let lsb = ((value % 64) * 4) as u8 + status * 2;
    (msb, lsb)
}

/// Round trip of the raw two-byte layout: a 14-bit value packed with the
/// status bit for `kind` carries that status bit, and unpacking it recovers
/// the register value exactly (the 14 bits shifted into the top of 16), so
/// decoding reproduces the forward conversion formula with no loss.
pub proof fn lemma_reading_round_trip(value: u16, kind: MeasurementKind)
    requires
        value < 16384,
    ensures
        status_bit(encode_lsb(value, kind)) == kind.expected_status(),
        raw_value(encode_msb(value), encode_lsb(value, kind)) == 4 * value,
{
    let s = kind.expected_status();
    let lsb = encode_lsb(value, kind);
    let low = (value % 64) as u8;
    assert(s == 0 || s == 1);
    assert(lsb == low * 4 + s * 2);
    assert(status_bit(lsb) == s && (lsb & 0xfc) == low * 4) by (bit_vector)
        requires
            lsb == low * 4 + s * 2,
            low < 64,
            s == 0 || s == 1,
    ;
    assert(raw_value(encode_msb(value), lsb) == (value / 64) * 256 + (value % 64) * 4);
    assert(value == 64 * (value / 64) + value % 64);
}

/// True exactly when the CRC-8 checksum of `data` equals `*expected`.
pub fn check(data: &[u8], expected: &u8) -> (r: bool)
    ensures
        r == (crc8(data@) == *expected),
{
    let computed = checksum(data);
    computed == *expected
}

} // verus!
