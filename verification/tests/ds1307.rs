use sensorlink::ds1307::RawData;

#[test]
fn clock_fields_decode_from_bcd() {
    // 13:59:35 on weekday 1, date 31-12-99, control 0x93
    let raw = RawData::from_bytes(&[0x35, 0x59, 0x23, 0x02, 0x31, 0x12, 0x99, 0x93]);
    assert_eq!(raw.second(), 35);
    assert_eq!(raw.minute(), 59);
    assert_eq!(raw.hour(), 13);
    assert_eq!(raw.day(), 1);
    assert_eq!(raw.date(), 31);
    assert_eq!(raw.month(), 12);
    assert_eq!(raw.year(), 99);
    assert_eq!(raw.control_out(), true);
    assert_eq!(raw.control_sqwe(), true);
    assert_eq!(raw.control_rate_select(), 3);
}

#[test]
fn clock_fields_decode_zero() {
    let raw = RawData::from_bytes(&[0x00; 8]);
    assert_eq!(raw.second(), 0);
    assert_eq!(raw.minute(), 0);
    assert_eq!(raw.hour(), 0);
    assert_eq!(raw.day(), 0);
    assert_eq!(raw.date(), 0);
    assert_eq!(raw.month(), 0);
    assert_eq!(raw.year(), 0);
    assert_eq!(raw.control_out(), false);
    assert_eq!(raw.control_sqwe(), false);
    assert_eq!(raw.control_rate_select(), 0);
}

#[test]
fn masked_control_bits_are_ignored() {
    // bits outside the documented control positions do not leak through
    let raw = RawData::from_bytes(&[0, 0, 0, 0, 0, 0, 0, 0x6c]);
    assert_eq!(raw.control_out(), false);
    assert_eq!(raw.control_sqwe(), false);
    assert_eq!(raw.control_rate_select(), 0);
}
