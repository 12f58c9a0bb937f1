//! The sampling-loop policy: validates and decodes one cycle's raw sensor
//! transactions, applies hysteresis and the forced-update rule to decide
//! whether the cycle is worth a transmission, and builds the frame when it
//! is. The surrounding program drives the sensor bus and the serial channel;
//! everything from raw response bytes to the transmit decision lives here.

use vstd::prelude::*;
use crate::htu21;
use crate::xbee;

verus! {

/// Sensor bus commands for starting a no-hold measurement: the device
/// releases the bus at once and is polled until the conversion completes.
#[derive(Debug, Clone, Copy)]
pub enum Command {
    NoHoldTemperature,
    NoHoldHumidity,
}

impl Command {
    /// The command byte written to the sensor.
    pub open spec fn spec_value(&self) -> u8 {
        match self {
            Command::NoHoldTemperature => 0xf3,
            Command::NoHoldHumidity => 0xf5,
        }
    }

    /// Returns the command byte written to the sensor.
    pub fn value(&self) -> (r: u8)
        ensures
            r == self.spec_value(),
    {
        match self {
            Command::NoHoldTemperature => 0xf3,
            Command::NoHoldHumidity => 0xf5,
        }
    }
}

/// Failures of one sampling cycle.
#[derive(Debug, PartialEq, Eq, Structural, Clone, Copy)]
pub enum Error {
    /// The raw response bytes do not match their trailing checksum.
    NotSensorValue,
    /// The status bit marks the response as the wrong measurement kind.
    Htu21Error(htu21::Error),
    /// The underlying bus transaction failed.
    BusError,
}

/// A raw 3-byte sensor response is valid when its first two bytes match the
/// trailing checksum byte.
pub open spec fn reading_valid(buffer: Seq<u8>) -> bool {
    htu21::crc8(buffer.take(2)) == buffer[2]
}

/// Checks a raw 3-byte sensor response against its trailing checksum and
/// hands back the two measurement bytes.
pub fn validate_reading(buffer: &[u8; 3]) -> (r: Result<[u8; 2], Error>)
    ensures
        match r {
            Ok(d) => reading_valid(buffer@) && d@ == buffer@.take(2),
            Err(e) => !reading_valid(buffer@) && e == Error::NotSensorValue,
        },
{
    let data: [u8; 2] = [buffer[0], buffer[1]];
    proof {
        assert(data@ =~= buffer@.take(2));
    }
    if !htu21::check(data.as_slice(), &buffer[2]) {
        return Err(Error::NotSensorValue);
    }
    Ok(data)
}

/// What one cycle's pair of raw responses amounts to: the four measurement
/// bytes to transmit and both decoded milli-unit values, or the first
/// failure in the order the readings are taken (temperature checksum,
/// temperature kind, humidity checksum, humidity kind).
pub open spec fn sensor_values(t: Seq<u8>, h: Seq<u8>) -> Result<(Seq<u8>, int, int), Error> {
    if !reading_valid(t) {
        Err(Error::NotSensorValue)
    } else if htu21::status_bit(t[1]) != 0 {
        Err(Error::Htu21Error(htu21::Error::NotTemperatureSensoreValue))
    } else if !reading_valid(h) {
        Err(Error::NotSensorValue)
    } else if htu21::status_bit(h[1]) != 1 {
        Err(Error::Htu21Error(htu21::Error::NotHumiditySensorValue))
    } else {
        Ok(
            (
                seq![t[0], t[1], h[0], h[1]],
                htu21::temperature_millicelsius(htu21::raw_value(t[0], t[1])),
                htu21::humidity_millipercent(htu21::raw_value(h[0], h[1])),
            ),
        )
    }
}

/// Validates and decodes one cycle's raw temperature and humidity responses:
/// the four raw measurement bytes (for transmission) and the two decoded
/// milli-unit values, or the first failure.
pub fn read_sensor_values(temperature_buffer: &[u8; 3], humidity_buffer: &[u8; 3]) -> (r: Result<
    ([u8; 4], i32, i32),
    Error,
>)
    ensures
        match (r, sensor_values(temperature_buffer@, humidity_buffer@)) {
            (Ok((data, t, h)), Ok((sdata, st, sh))) => data@ == sdata && t == st && h == sh,
            (Err(e), Err(se)) => e == se,
            _ => false,
        },
{
    let temperature_data = match validate_reading(temperature_buffer) {
        Ok(d) => d,
        Err(e) => {
            return Err(e);
        },
    };
    let temperature = match htu21::parse_temperature(temperature_data.as_slice()) {
        Ok(v) => v,
        Err(e) => {
            return Err(Error::Htu21Error(e));
        },
    };
    let humidity_data = match validate_reading(humidity_buffer) {
        Ok(d) => d,
        Err(e) => {
            return Err(e);
        },
    };
    let humidity = match htu21::parse_humidity(humidity_data.as_slice()) {
        Ok(v) => v,
        Err(e) => {
            return Err(Error::Htu21Error(e));
        },
    };
    let data: [u8; 4] = [
        temperature_data[0],
        temperature_data[1],
        humidity_data[0],
        humidity_data[1],
    ];
    proof {
        assert(data@ =~= seq![
            temperature_buffer@[0],
            temperature_buffer@[1],
            humidity_buffer@[0],
            humidity_buffer@[1],
        ]);
    }
    Ok((data, temperature, humidity))
}

/// A reported temperature must move by more than a tenth of a degree before
/// it is reported again.
pub const TEMPERATURE_DELTA_MILLI: i32 = 100;

/// A reported humidity must move by more than half a percent before it is
/// reported again.
pub const HUMIDITY_DELTA_MILLI: i32 = 500;

/// After this many consecutive unreported cycles, the next successful cycle
/// reports unconditionally.
pub const FORCED_REPORT_CYCLES: u8 = 9;

/// The process-wide state of the sampling loop: the last values reported
/// over the radio (in milli-units) and how many successful cycles have gone
/// unreported since.
#[derive(Debug, PartialEq, Eq, Clone, Copy)]
pub struct SamplingState {
    pub last_reported_temperature: Option<i32>,
    pub last_reported_humidity: Option<i32>,
    pub cycles_since_report: u8,
}

impl SamplingState {
    /// The cycle counter resets on every report and only grows while it is
    /// at most the forced-report bound, so it never passes that bound by
    /// more than one.
    pub open spec fn wf(self) -> bool {
        self.cycles_since_report <= FORCED_REPORT_CYCLES + 1
    }

    /// The state before any cycle has run: no value was ever reported.
    pub fn new() -> (s: SamplingState)
        ensures
            s == (SamplingState {
                last_reported_temperature: None,
                last_reported_humidity: None,
                cycles_since_report: 0,
            }),
            s.wf(),
    {
        SamplingState { last_reported_temperature: None, last_reported_humidity: None, cycles_since_report: 0 }
    }
}

/// Whether `a` and `b` lie strictly more than `delta` apart.
pub open spec fn exceeds(a: int, b: int, delta: int) -> bool {
    a - b > delta || a - b < -delta
}

/// Returns whether `a` and `b` lie strictly more than `delta` apart.
pub fn exceeds_delta(a: i32, b: i32, delta: i32) -> (r: bool)
    ensures
        r == exceeds(a as int, b as int, delta as int),
{
    let x: i64 = a as i64 - b as i64;
    x > delta as i64 || x < -(delta as i64)
}

/// Whether a fresh value differs from the last reported one by more than
/// `delta`; an absent previous value always counts as changed.
pub open spec fn changed(prev: Option<i32>, current: int, delta: int) -> bool {
    match prev {
        None => true,
        Some(p) => exceeds(p as int, current, delta),
    }
}

/// The transmit decision of one successful cycle: report when either value
/// moved past its hysteresis threshold, or when more than
/// `FORCED_REPORT_CYCLES` cycles have gone unreported.
pub open spec fn should_report(state: SamplingState, temperature: int, humidity: int) -> bool {
    ||| state.cycles_since_report > FORCED_REPORT_CYCLES
    ||| changed(state.last_reported_temperature, temperature, TEMPERATURE_DELTA_MILLI as int)
    ||| changed(state.last_reported_humidity, humidity, HUMIDITY_DELTA_MILLI as int)
}

/// Runs the policy of one sampling cycle over the raw responses of the two
/// sensor transactions. On any validation failure the cycle is abandoned
/// and the state is left exactly as it was. On a successful cycle that is
/// worth reporting, the frame to transmit is handed back and the state
/// records the reported values; otherwise the unreported-cycle counter
/// grows by one.
pub fn process_cycle(
    state: &mut SamplingState,
    destination: [u8; 8],
    temperature_buffer: &[u8; 3],
    humidity_buffer: &[u8; 3],
) -> (r: Result<Option<xbee::Packet>, Error>)
    requires
        old(state).wf(),
    ensures
        final(state).wf(),
        match sensor_values(temperature_buffer@, humidity_buffer@) {
            Err(e) => *final(state) == *old(state) && (r matches Err(a) && a == e),
            Ok((data, t, h)) => {
                if should_report(*old(state), t, h) {
                    &&& r matches Ok(Some(packet)) && packet@ == xbee::frame_bytes(
                        0x00,
                        destination@,
                        data,
                    )
                    &&& final(state).last_reported_temperature matches Some(nt) && nt == t
                    &&& final(state).last_reported_humidity matches Some(nh) && nh == h
                    &&& final(state).cycles_since_report == 0
                } else {
                    &&& r matches Ok(None)
                    &&& final(state).last_reported_temperature == old(
                        state,
                    ).last_reported_temperature
                    &&& final(state).last_reported_humidity == old(state).last_reported_humidity
                    &&& final(state).cycles_since_report == old(state).cycles_since_report + 1
                }
            },
        },
{
    let values = match read_sensor_values(temperature_buffer, humidity_buffer) {
        Ok(v) => v,
        Err(e) => {
            return Err(e);
        },
    };
    let (data, temperature, humidity) = values;
    let update_temperature = match state.last_reported_temperature {
        Some(prev) => exceeds_delta(prev, temperature, TEMPERATURE_DELTA_MILLI),
        None => true,
    };
    let update_humidity = match state.last_reported_humidity {
        Some(prev) => exceeds_delta(prev, humidity, HUMIDITY_DELTA_MILLI),
        None => true,
    };
    if state.cycles_since_report > FORCED_REPORT_CYCLES || update_temperature || update_humidity {
        state.cycles_since_report = 0;
        state.last_reported_temperature = Some(temperature);
        state.last_reported_humidity = Some(humidity);
        let packet = xbee::Packet::new(xbee::ApiIdentifier::TxReq, destination, data.as_slice());
        Ok(Some(packet))
    } else {
        state.cycles_since_report = state.cycles_since_report + 1;
        Ok(None)
    }
}

/// Extracts the two decoded measurements from a received 64-bit-address
/// frame as laid out by the transmitting node: the four measurement bytes
/// stand at offsets 8 through 11 of the received bytes, temperature first.
pub fn parse_sensor_values(buffer: &[u8]) -> (r: Result<(i32, i32), htu21::Error>)
    requires
        buffer@.len() >= 12,
    ensures
        match r {
            Ok((t, h)) => htu21::status_bit(buffer@[9]) == 0 && htu21::status_bit(buffer@[11])
                == 1 && t == htu21::temperature_millicelsius(
                htu21::raw_value(buffer@[8], buffer@[9]),
            ) && h == htu21::humidity_millipercent(htu21::raw_value(buffer@[10], buffer@[11])),
            Err(e) => if htu21::status_bit(buffer@[9]) != 0 {
                e == htu21::Error::NotTemperatureSensoreValue
            } else {
                htu21::status_bit(buffer@[11]) != 1 && e == htu21::Error::NotHumiditySensorValue
            },
        },
{
    let temperature_part = vstd::slice::slice_subrange(buffer, 8, 10);
    let humidity_part = vstd::slice::slice_subrange(buffer, 10, 12);
    let temperature = match htu21::parse_temperature(temperature_part) {
        Ok(v) => v,
        Err(e) => {
            return Err(e);
        },
    };
    let humidity = match htu21::parse_humidity(humidity_part) {
        Ok(v) => v,
        Err(e) => {
            return Err(e);
        },
    };
    Ok((temperature, humidity))
}

/// Forced update: once more than `FORCED_REPORT_CYCLES` successful cycles
/// have gone unreported, the next successful cycle reports, whatever the
/// fresh values are.
pub proof fn lemma_forced_report(state: SamplingState, temperature: int, humidity: int)
    requires
        state.cycles_since_report > FORCED_REPORT_CYCLES,
    ensures
        should_report(state, temperature, humidity),
{
}

/// Change trigger: a temperature that moved more than its threshold away
/// from the last reported one forces a report, regardless of how recently
/// the last report happened.
pub proof fn lemma_temperature_change_triggers_report(
    state: SamplingState,
    temperature: int,
    humidity: int,
)
    requires
        state.last_reported_temperature matches Some(prev) && exceeds(
            prev as int,
            temperature,
            TEMPERATURE_DELTA_MILLI as int,
        ),
    ensures
        should_report(state, temperature, humidity),
{
}

/// Hysteresis: while both values stay within their thresholds of the last
/// reported ones and the forced-report bound has not passed, the cycle is
/// not reported.
pub proof fn lemma_hysteresis_suppresses_report(
    state: SamplingState,
    temperature: int,
    humidity: int,
)
    requires
        state.cycles_since_report <= FORCED_REPORT_CYCLES,
        !changed(state.last_reported_temperature, temperature, TEMPERATURE_DELTA_MILLI as int),
        !changed(state.last_reported_humidity, humidity, HUMIDITY_DELTA_MILLI as int),
    ensures
        !should_report(state, temperature, humidity),
{
}

} // verus!
