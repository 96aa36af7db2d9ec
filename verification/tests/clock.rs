use kernel_core::rtc::{bdc_to_binary, RawCmosTime, RTCDateTime};

#[test]
fn bcd_decoding() {
    assert_eq!(bdc_to_binary(0x00), 0);
    assert_eq!(bdc_to_binary(0x09), 9);
    assert_eq!(bdc_to_binary(0x10), 10);
    assert_eq!(bdc_to_binary(0x59), 59);
    // The top bit (the 12-hour clock's PM flag) rides along.
    assert_eq!(bdc_to_binary(0x83), 0x80 + 3);
}

#[test]
fn from_cmos_bcd_12_hour() {
    // Status register B all clear: BCD registers, 12-hour clock.
    let raw = RawCmosTime {
        seconds: 0x30,
        minuts: 0x45,
        hours: 0x83, // 3 o'clock, PM flag set
        day_of_month: 0x05,
        month: 0x01,
        year: 0x24,
        status_b: 0x00,
    };
    let t = RTCDateTime::from_cmos(raw);
    assert_eq!(t.seconds, 30);
    assert_eq!(t.minuts, 45);
    assert_eq!(t.hours, 15);
    assert_eq!(t.day_of_month, 5);
    assert_eq!(t.month, 1);
    assert_eq!(t.year, 2024);
}

#[test]
fn from_cmos_binary_24_hour() {
    let raw = RawCmosTime {
        seconds: 7,
        minuts: 8,
        hours: 23,
        day_of_month: 31,
        month: 12,
        year: 99,
        status_b: 0x06, // binary registers, 24-hour clock
    };
    let t = RTCDateTime::from_cmos(raw);
    assert_eq!(t.seconds, 7);
    assert_eq!(t.minuts, 8);
    assert_eq!(t.hours, 23);
    assert_eq!(t.day_of_month, 31);
    assert_eq!(t.month, 12);
    assert_eq!(t.year, 2099);
}

#[test]
fn midnight_in_12_hour_mode() {
    // 12 AM reads as 12 with the PM flag clear; folded onto 24 hours it is 0.
    let raw = RawCmosTime {
        seconds: 0,
        minuts: 0,
        hours: 0x12,
        day_of_month: 1,
        month: 1,
        year: 0,
        status_b: 0x00,
    };
    let t = RTCDateTime::from_cmos(raw);
    assert_eq!(t.hours, 0);
}

#[test]
fn datetime_written_out() {
    let t = RTCDateTime {
        seconds: 9,
        minuts: 8,
        hours: 7,
        day_of_month: 5,
        month: 11,
        year: 2024,
    };
    assert_eq!(t.text(), "2024-11-05 07:08:09");
}
