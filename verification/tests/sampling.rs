use sensorlink::htu21::{self, MeasurementKind};
use sensorlink::sampling::{
    exceeds_delta, parse_sensor_values, process_cycle, read_sensor_values, validate_reading,
    Command, Error, SamplingState,
};

/// A raw 3-byte sensor response carrying the 14-bit measurement `value`
/// marked as a reading of `kind`, with a valid trailing checksum.
fn response(value: u16, kind: MeasurementKind) -> [u8; 3] {
    let (msb, lsb) = htu21::encode_reading(value, kind);
    [msb, lsb, htu21::checksum(&[msb, lsb])]
}

const DST: [u8; 8] = [0x00, 0x13, 0xA2, 0x00, 0x40, 0x64, 0x03, 0x75];

#[test]
fn command_values() {
    assert_eq!(Command::NoHoldTemperature.value(), 0xf3);
    assert_eq!(Command::NoHoldHumidity.value(), 0xf5);
}

#[test]
fn fresh_state_has_no_reported_values() {
    let state = SamplingState::new();
    assert_eq!(state.last_reported_temperature, None);
    assert_eq!(state.last_reported_humidity, None);
    assert_eq!(state.cycles_since_report, 0);
}

#[test]
fn exceeds_delta_is_strict_and_symmetric() {
    assert!(exceeds_delta(1000, 1101, 100));
    assert!(exceeds_delta(1101, 1000, 100));
    assert!(!exceeds_delta(1000, 1100, 100));
    assert!(!exceeds_delta(1100, 1000, 100));
    assert!(!exceeds_delta(-50, -50, 0));
    assert!(exceeds_delta(i32::MIN, i32::MAX, 100));
}

#[test]
fn validate_reading_accepts_matching_checksum() {
    let buffer = response(5000, MeasurementKind::Temperature);
    assert_eq!(validate_reading(&buffer), Ok([buffer[0], buffer[1]]));
}

#[test]
fn validate_reading_rejects_corrupt_checksum() {
    let mut buffer = response(5000, MeasurementKind::Temperature);
    buffer[2] ^= 0xff;
    assert_eq!(validate_reading(&buffer), Err(Error::NotSensorValue));
}

#[test]
fn read_sensor_values_decodes_both_measurements() {
    let t = response(5025, MeasurementKind::Temperature);
    let h = response(6670, MeasurementKind::Humidity);
    let result = read_sensor_values(&t, &h);
    assert_eq!(result, Ok(([t[0], t[1], h[0], h[1]], 7043, 44888)));
}

#[test]
fn read_sensor_values_reports_wrong_kind() {
    // both responses are humidity readings: the temperature slot is rejected
    let t = response(5025, MeasurementKind::Humidity);
    let h = response(6670, MeasurementKind::Humidity);
    assert_eq!(
        read_sensor_values(&t, &h),
        Err(Error::Htu21Error(htu21::Error::NotTemperatureSensoreValue))
    );
}

#[test]
fn read_sensor_values_reports_bad_humidity_checksum() {
    let t = response(5025, MeasurementKind::Temperature);
    let mut h = response(6670, MeasurementKind::Humidity);
    h[2] = h[2].wrapping_add(1);
    assert_eq!(read_sensor_values(&t, &h), Err(Error::NotSensorValue));
}

#[test]
fn first_cycle_always_reports() {
    let mut state = SamplingState::new();
    let t = response(5000, MeasurementKind::Temperature);
    let h = response(6000, MeasurementKind::Humidity);
    let result = process_cycle(&mut state, DST, &t, &h);
    let packet = result.expect("cycle should succeed").expect("fresh state should report");
    assert_eq!(state.cycles_since_report, 0);
    assert!(state.last_reported_temperature.is_some());
    assert!(state.last_reported_humidity.is_some());
    // the frame carries the four raw measurement bytes
    assert_eq!(packet.data(), &[t[0], t[1], h[0], h[1]]);
    assert_eq!(packet.destination_address(), &DST);
}

#[test]
fn hysteresis_reports_once_in_eleven_cycles() {
    let mut state = SamplingState::new();
    let t = response(5000, MeasurementKind::Temperature);
    let h = response(6000, MeasurementKind::Humidity);
    // establish a reported baseline, then run eleven unchanged cycles
    process_cycle(&mut state, DST, &t, &h)
        .expect("cycle should succeed")
        .expect("fresh state should report");
    let mut reports = 0;
    let mut reported_on = 0;
    for cycle in 1..=11 {
        let result = process_cycle(&mut state, DST, &t, &h).expect("cycle should succeed");
        if result.is_some() {
            reports += 1;
            reported_on = cycle;
        }
    }
    assert_eq!(reports, 1);
    assert_eq!(reported_on, 11);
}

#[test]
fn temperature_change_triggers_immediate_report() {
    let mut state = SamplingState::new();
    let t = response(5000, MeasurementKind::Temperature);
    let h = response(6000, MeasurementKind::Humidity);
    process_cycle(&mut state, DST, &t, &h)
        .expect("cycle should succeed")
        .expect("fresh state should report");
    // the very next cycle moves the temperature well past 0.1 degrees
    let warmer = response(5100, MeasurementKind::Temperature);
    let result = process_cycle(&mut state, DST, &warmer, &h).expect("cycle should succeed");
    assert!(result.is_some());
    assert_eq!(state.cycles_since_report, 0);
    assert_eq!(state.last_reported_temperature, Some(7847));
}

#[test]
fn humidity_change_triggers_immediate_report() {
    let mut state = SamplingState::new();
    let t = response(5000, MeasurementKind::Temperature);
    let h = response(6000, MeasurementKind::Humidity);
    process_cycle(&mut state, DST, &t, &h)
        .expect("cycle should succeed")
        .expect("fresh state should report");
    // humidity moves by far more than half a percent
    let wetter = response(6700, MeasurementKind::Humidity);
    let result = process_cycle(&mut state, DST, &t, &wetter).expect("cycle should succeed");
    assert!(result.is_some());
    assert_eq!(state.cycles_since_report, 0);
}

#[test]
fn small_drift_does_not_report() {
    let mut state = SamplingState::new();
    let t = response(5000, MeasurementKind::Temperature);
    let h = response(6000, MeasurementKind::Humidity);
    process_cycle(&mut state, DST, &t, &h)
        .expect("cycle should succeed")
        .expect("fresh state should report");
    // one 14-bit step moves the value by roughly a hundredth of a unit
    let t_drift = response(5001, MeasurementKind::Temperature);
    let h_drift = response(6001, MeasurementKind::Humidity);
    let result = process_cycle(&mut state, DST, &t_drift, &h_drift).expect("cycle should succeed");
    assert!(result.is_none());
    assert_eq!(state.cycles_since_report, 1);
}

#[test]
fn checksum_failure_leaves_state_unchanged() {
    let mut state = SamplingState::new();
    let t = response(5000, MeasurementKind::Temperature);
    let h = response(6000, MeasurementKind::Humidity);
    process_cycle(&mut state, DST, &t, &h)
        .expect("cycle should succeed")
        .expect("fresh state should report");
    let snapshot = state;
    let mut h_bad = h;
    h_bad[2] ^= 0xff;
    let result = process_cycle(&mut state, DST, &t, &h_bad);
    assert!(matches!(result, Err(Error::NotSensorValue)));
    assert_eq!(state, snapshot);
    // the next cycle proceeds as if the failed one never happened
    let result = process_cycle(&mut state, DST, &t, &h).expect("cycle should succeed");
    assert!(result.is_none());
    assert_eq!(state.cycles_since_report, 1);
}

#[test]
fn parse_sensor_values_reads_received_frame() {
    let t = response(5025, MeasurementKind::Temperature);
    let h = response(6670, MeasurementKind::Humidity);
    let frame: [u8; 13] = [
        0x7e, 0x00, 0x09, 0x81, 0x00, 0x01, 0x28, 0x00, t[0], t[1], h[0], h[1], 0x00,
    ];
    assert_eq!(parse_sensor_values(&frame), Ok((7043, 44888)));
}

#[test]
fn parse_sensor_values_rejects_swapped_payload() {
    let t = response(5025, MeasurementKind::Temperature);
    let h = response(6670, MeasurementKind::Humidity);
    let frame: [u8; 13] = [
        0x7e, 0x00, 0x09, 0x81, 0x00, 0x01, 0x28, 0x00, h[0], h[1], t[0], t[1], 0x00,
    ];
    assert_eq!(
        parse_sensor_values(&frame),
        Err(htu21::Error::NotTemperatureSensoreValue)
    );
}
