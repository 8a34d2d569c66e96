use carlogger::decode::{get_number, parse_frame, ParsedFrame};
use carlogger::frame::{FrameKind, RawFrame};
use carlogger::measure::CompassDirection;

fn data_frame(id: u32, word: u64) -> RawFrame {
    RawFrame::new(id, false, FrameKind::Data, word.to_be_bytes().to_vec()).unwrap()
}

#[test]
fn get_number_reads_fields_from_the_msb() {
    let w: u64 = 0xDEADBEEF00112233;
    assert_eq!(get_number(w, 0, 8), 0xDE);
    assert_eq!(get_number(w, 8, 8), 0xAD);
    assert_eq!(get_number(w, 56, 8), 0x33);
    assert_eq!(get_number(w, 4, 12), 0xEAD);
    assert_eq!(get_number(w, 0, 1), 1);
}

#[test]
fn unrecognized_identifier_decodes_to_none() {
    let f = data_frame(0x100, 0xFFFF_FFFF_FFFF_FFFF);
    assert_eq!(parse_frame(&f), None);
    let f = data_frame(0x7FF, 0);
    assert_eq!(parse_frame(&f), None);
}

#[test]
fn short_payload_is_zero_padded() {
    // 0x43D reads the byte at offset 48; a seven-byte payload still carries it.
    let payload = vec![0u8, 0, 0, 0, 0, 0, 128];
    let f = RawFrame::new(0x43D, false, FrameKind::Data, payload).unwrap();
    match parse_frame(&f) {
        Some(ParsedFrame::_43D { accessory_battery_v }) => {
            assert_eq!(accessory_battery_v.hectovolts, 128);
        }
        other => panic!("unexpected decode: {:?}", other),
    }
}

#[test]
fn empty_payload_decodes_as_zero_word() {
    let f = RawFrame::new(0x430, false, FrameKind::Data, Vec::new()).unwrap();
    match parse_frame(&f) {
        Some(ParsedFrame::_430 { odometer }) => assert_eq!(odometer.kilometers, 0),
        other => panic!("unexpected decode: {:?}", other),
    }
}

#[test]
fn local_clock_uses_year_2000_bias() {
    // year 24, ordinal 100, minute 34, second 56, hour 12
    let payload = vec![24u8, 0, 0, 100, 34, 56, 12, 0];
    let f = RawFrame::new(0x084, false, FrameKind::Data, payload).unwrap();
    match parse_frame(&f) {
        Some(ParsedFrame::_084(clock)) => {
            assert_eq!(clock.year, 2024);
            assert_eq!(clock.ordinal, 100);
            assert_eq!(clock.hour, 12);
            assert_eq!(clock.minute, 34);
            assert_eq!(clock.second, 56);
        }
        other => panic!("unexpected decode: {:?}", other),
    }
}

#[test]
fn gyro_rates_are_bias_adjusted_exactly() {
    // pitch raw 7 -> (7 - 6.5)/10000 rad/s = 1 unit of 1/20000 rad/s;
    // roll raw 0 -> -13 units; yaw raw 40000 reads as -25536 -> -51085 units.
    let w: u64 = (7u64 << 41) | (40000u64 << 9);
    let f = data_frame(0x091, w);
    match parse_frame(&f) {
        Some(ParsedFrame::_091 { pitch, roll, yaw }) => {
            assert_eq!(pitch.twentieth_millirad_per_sec, 1);
            assert_eq!(roll.twentieth_millirad_per_sec, -13);
            assert_eq!(yaw.twentieth_millirad_per_sec, -51085);
        }
        other => panic!("unexpected decode: {:?}", other),
    }
}

#[test]
fn accelerometer_axes_are_bias_40() {
    // lateral raw 40 -> 0; longitudinal raw 0 -> -40; vertical raw 8191 -> 8151.
    let w: u64 = (40u64 << 47) | (8191u64 << 15);
    let f = data_frame(0x092, w);
    match parse_frame(&f) {
        Some(ParsedFrame::_092 { lateral, longitudinal, vertical }) => {
            assert_eq!(lateral.centi_m_per_s2, 0);
            assert_eq!(longitudinal.centi_m_per_s2, -40);
            assert_eq!(vertical.centi_m_per_s2, 8151);
        }
        other => panic!("unexpected decode: {:?}", other),
    }
}

#[test]
fn wheel_speeds_decode_in_deci_rpm() {
    let payload = vec![0u8, 10, 0, 20, 0, 30, 0, 40];
    let f = RawFrame::new(0x217, false, FrameKind::Data, payload).unwrap();
    match parse_frame(&f) {
        Some(ParsedFrame::_217 { fl, fr, rl, rr }) => {
            assert_eq!(fl.deci_rpm, 10);
            assert_eq!(fr.deci_rpm, 20);
            assert_eq!(rl.deci_rpm, 30);
            assert_eq!(rr.deci_rpm, 40);
        }
        other => panic!("unexpected decode: {:?}", other),
    }
}

#[test]
fn electric_range_is_a_12_bit_hectometer_count() {
    let f = data_frame(0x352, 1234u64 << 40);
    match parse_frame(&f) {
        Some(ParsedFrame::_352 { electric_range }) => {
            assert_eq!(electric_range.hectometers, 1234);
        }
        other => panic!("unexpected decode: {:?}", other),
    }
}

#[test]
fn power_draw_scales_by_five_watts() {
    let w: u64 = (100u64 << 48) | (200u64 << 16);
    let f = data_frame(0x368, w);
    match parse_frame(&f) {
        Some(ParsedFrame::_368 { ac_power_w, other_power_w }) => {
            assert_eq!(ac_power_w.watts, 500);
            assert_eq!(other_power_w.watts, 1000);
        }
        other => panic!("unexpected decode: {:?}", other),
    }
}

#[test]
fn gas_range_is_a_14_bit_hectometer_count() {
    let f = data_frame(0x37B, 3000u64 << 2);
    match parse_frame(&f) {
        Some(ParsedFrame::_37B { gas_range }) => assert_eq!(gas_range.hectometers, 3000),
        other => panic!("unexpected decode: {:?}", other),
    }
}

#[test]
fn odometer_is_a_24_bit_kilometer_count() {
    let f = data_frame(0x430, 123456u64 << 32);
    match parse_frame(&f) {
        Some(ParsedFrame::_430 { odometer }) => assert_eq!(odometer.kilometers, 123456),
        other => panic!("unexpected decode: {:?}", other),
    }
}

#[test]
fn gps_latitude_byte_89_with_zero_minutes_is_zero_degrees() {
    // latitude byte 89 -> integer degrees 0; longitude field 179 -> 0 too.
    let w: u64 = (89u64 << 56) | (179u64 << 23);
    let f = data_frame(0x465, w);
    match parse_frame(&f) {
        Some(ParsedFrame::_465(pos)) => {
            assert_eq!(pos.latitude.tenth_milliminutes, 0);
            assert_eq!(pos.longitude.tenth_milliminutes, 0);
        }
        other => panic!("unexpected decode: {:?}", other),
    }
}

#[test]
fn gps_minutes_subtract_south_and_add_east() {
    // latitude: integer degrees 0 - 89 = -89 (south), minutes 30, fraction
    // 1234 -> -89 deg widened by the minutes term: -53_701_234 units.
    // longitude: 200 - 179 = 21 (east), minutes 10, fraction 5000 ->
    // 21 deg plus the minutes term: 12_705_000 units.
    let w: u64 = (30u64 << 50) | (1234u64 << 34) | (200u64 << 23) | (10u64 << 17) | (5000u64 << 2);
    let f = data_frame(0x465, w);
    match parse_frame(&f) {
        Some(ParsedFrame::_465(pos)) => {
            assert_eq!(pos.latitude.tenth_milliminutes, -89 * 600000 - (30 * 10000 + 1234));
            assert_eq!(pos.longitude.tenth_milliminutes, 21 * 600000 + (10 * 10000 + 5000));
        }
        other => panic!("unexpected decode: {:?}", other),
    }
}

#[test]
fn gps_time_uses_year_2010_bias_and_one_based_day_month() {
    let w: u64 =
        (13u64 << 59) | (45u64 << 50) | (30u64 << 42) | (14u64 << 25) | (5u64 << 20) | (14u64 << 11);
    let f = data_frame(0x466, w);
    match parse_frame(&f) {
        Some(ParsedFrame::_466(t)) => {
            assert_eq!(t.hour, 13);
            assert_eq!(t.minute, 45);
            assert_eq!(t.second, 30);
            assert_eq!(t.day, 15);
            assert_eq!(t.month, 6);
            assert_eq!(t.year, 2024);
        }
        other => panic!("unexpected decode: {:?}", other),
    }
}

#[test]
fn gps_heading_decodes_octant_and_scales() {
    let w: u64 = (3u64 << 44) | (18050u64 << 24) | (65u64 << 16);
    let f = data_frame(0x467, w);
    match parse_frame(&f) {
        Some(ParsedFrame::_467 { direction, compass_heading, gps_vehicle_speed }) => {
            assert_eq!(direction, CompassDirection::SouthEast);
            assert_eq!(compass_heading.centidegrees, 18050);
            assert_eq!(gps_vehicle_speed.miles_per_hour, 65);
        }
        other => panic!("unexpected decode: {:?}", other),
    }
}

#[test]
fn gps_octant_zero_is_north() {
    let f = data_frame(0x467, 0);
    match parse_frame(&f) {
        Some(ParsedFrame::_467 { direction, .. }) => {
            assert_eq!(direction, CompassDirection::North);
        }
        other => panic!("unexpected decode: {:?}", other),
    }
}

#[test]
fn charge_schedule_times_use_year_2010_bias() {
    let payload = vec![0u8, 0, 0, 30, 7, 15, 6, 14];
    let start = RawFrame::new(0x473, false, FrameKind::Data, payload.clone()).unwrap();
    match parse_frame(&start) {
        Some(ParsedFrame::_473(t)) => {
            assert_eq!(t.minute, 30);
            assert_eq!(t.hour, 7);
            assert_eq!(t.day, 15);
            assert_eq!(t.month, 6);
            assert_eq!(t.year, 2024);
        }
        other => panic!("unexpected decode: {:?}", other),
    }
    let finish = RawFrame::new(0x472, false, FrameKind::Data, payload).unwrap();
    assert!(matches!(parse_frame(&finish), Some(ParsedFrame::_472(_))));
}

#[test]
fn decode_ignores_the_frame_kind() {
    let payload = vec![0u8, 0, 0, 0, 0, 0, 128, 0];
    let f = RawFrame::new(0x43D, false, FrameKind::Error, payload).unwrap();
    assert!(matches!(parse_frame(&f), Some(ParsedFrame::_43D { .. })));
}

#[test]
fn frame_builder_rejects_wide_ids_and_long_payloads() {
    assert!(RawFrame::new(0x800, false, FrameKind::Data, Vec::new()).is_none());
    assert!(RawFrame::new(0x2000_0000, true, FrameKind::Data, Vec::new()).is_none());
    assert!(RawFrame::new(0x123, false, FrameKind::Data, vec![0u8; 9]).is_none());
    assert!(RawFrame::new(0x7FF, false, FrameKind::Data, vec![0u8; 8]).is_some());
    assert!(RawFrame::new(0x1FFF_FFFF, true, FrameKind::Data, Vec::new()).is_some());
}
