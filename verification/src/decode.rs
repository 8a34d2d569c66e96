//! Table-driven frame decoder: a pure, total mapping from an arbitration
//! identifier and an eight-byte payload to a typed measurement.
//!
//! Every recognized identifier extracts fixed bit fields from the payload
//! viewed as one 64-bit big-endian word: a field of width `w` at bit offset
//! `o` from the most significant bit is `(word >> (64 - o - w)) & ((1 << w) - 1)`.
//! Fields are then sign-adjusted and scaled exactly (the units in
//! [`crate::measure`] are chosen so no precision is lost). Unrecognized
//! identifiers decode to no measurement, never to an error.
//!
//! Two calendar epoch biases coexist in the protocol: the local clock adds
//! 2000 to its year field, while GPS time and the charge schedule add 2010.
//! That quirk is deliberate and preserved exactly.

use vstd::prelude::*;
use vstd::arithmetic::power2::{pow2, lemma2_to64, lemma2_to64_rest, lemma_pow2_adds, lemma_pow2_pos};
use vstd::bits::{lemma_u64_shl_is_mul, lemma_u64_pow2_no_overflow};

use crate::frame::RawFrame;
use crate::measure::{
    Acceleration, Angle, AngularVelocity, ChargeTime, CompassDirection, ElectricPotential,
    GeoAngle, GeoPosition, GpsDateTime, LocalClock, OdometerLength, Power, RangeLength, Velocity,
    WheelSpeed,
};

verus! {

/// A bit field of width `size` at offset `offset` from the most significant
/// bit of the 64-bit big-endian payload word.
pub open spec fn spec_get_number(data: u64, offset: u64, size: u64) -> u64
    recommends
        offset + size <= 64,
        0 < size < 64,
{
    (data >> ((64 - offset - size) as u64)) & (((1u64 << size) - 1) as u64)
}

/// Extracts a bit field from the payload word. `offset` counts from the most
/// significant bit; the result is the `size`-bit unsigned value of the field.
pub fn get_number(data: u64, offset: u64, size: u64) -> (r: u64)
    requires
        offset + size <= 64,
        0 < size < 64,
    ensures
        r == spec_get_number(data, offset, size),
        r < pow2(size as nat),
{
    let shift: u64 = 64 - offset - size;
    proof {
        assert(1u64 << size >= 1) by (bit_vector)
            requires
                size < 64,
        ;
    }
    let mask: u64 = (1u64 << size) - 1;
    let r = (data >> shift) & mask;
    proof {
        assert((data >> shift) & mask <= mask) by (bit_vector);
        lemma_u64_pow2_no_overflow(size as nat);
        lemma_u64_shl_is_mul(1u64, size);
    }
    r
}

/// The integer a byte sequence denotes when read big-endian.
pub open spec fn be_word(s: Seq<u8>) -> int
    decreases s.len(),
{
    if s.len() == 0 {
        0
    } else {
        be_word(s.drop_last()) * 256 + s.last()
    }
}

/// A payload padded with trailing zero bytes to the full eight.
pub open spec fn pad8(s: Seq<u8>) -> Seq<u8> {
    Seq::new(8, |i: int| if i < s.len() { s[i] } else { 0u8 })
}

/// The 64-bit big-endian word over which fields are extracted. A payload
/// shorter than eight bytes is zero-padded at its end, keeping the decoder
/// total.
pub open spec fn frame_word(s: Seq<u8>) -> u64 {
    be_word(pad8(s)) as u64
}

/// A big-endian reading of `n` bytes is below `2^(8n)`.
proof fn lemma_be_word_bound(s: Seq<u8>)
    ensures
        0 <= be_word(s) < pow2(8 * s.len()),
    decreases s.len(),
{
    if s.len() == 0 {
        lemma_pow2_pos(0);
        lemma2_to64();
    } else {
        lemma_be_word_bound(s.drop_last());
        lemma_pow2_adds(8 * (s.len() - 1) as nat, 8);
        lemma2_to64();
    }
}

/// Packs a payload of at most eight bytes into the big-endian word the
/// field table reads, zero-padding a short payload at its end.
pub fn payload_word(payload: &Vec<u8>) -> (r: u64)
    requires
        payload@.len() <= 8,
    ensures
        r == frame_word(payload@),
{
    let ghost padded = pad8(payload@);
    let mut acc: u64 = 0;
    let mut i: usize = 0;
    proof {
        assert(padded.take(0) =~= Seq::<u8>::empty());
        lemma_pow2_pos(0);
        lemma2_to64();
    }
    while i < 8
        invariant
            i <= 8,
            payload@.len() <= 8,
            padded == pad8(payload@),
            acc == be_word(padded.take(i as int)),
            acc < pow2((8 * i) as nat),
        decreases 8 - i,
    {
        let b: u8 = if i < payload.len() {
            payload[i]
        } else {
            0
        };
        proof {
            lemma_pow2_adds((8 * i) as nat, 8);
            lemma2_to64();
            lemma2_to64_rest();
            assert(padded.take(i as int + 1).drop_last() =~= padded.take(i as int));
            assert(padded.take(i as int + 1).last() == b);
        }
        acc = acc * 256 + b as u64;
        i = i + 1;
    }
    proof {
        assert(padded.take(8) =~= padded);
        lemma_be_word_bound(padded);
    }
    acc
}

/// Whether the decoder knows this arbitration identifier.
pub open spec fn recognized(id: u32) -> bool {
    ||| id == 0x084
    ||| id == 0x091
    ||| id == 0x092
    ||| id == 0x217
    ||| id == 0x352
    ||| id == 0x368
    ||| id == 0x37B
    ||| id == 0x430
    ||| id == 0x43D
    ||| id == 0x465
    ||| id == 0x466
    ||| id == 0x467
    ||| id == 0x472
    ||| id == 0x473
}

/// The decoded local wall clock (year bias +2000).
pub open spec fn spec_local_clock(w: u64) -> LocalClock {
    LocalClock {
        year: (spec_get_number(w, 0, 8) + 2000) as u16,
        ordinal: spec_get_number(w, 16, 16) as u16,
        hour: spec_get_number(w, 48, 8) as u8,
        minute: spec_get_number(w, 32, 8) as u8,
        second: spec_get_number(w, 40, 8) as u8,
    }
}

/// One gyroscope axis: the 16-bit reading `r` means `(r - 6.5) / 10000`
/// rad/s, held exactly as `2r - 13` in 1/20000 rad/s.
pub open spec fn spec_gyro_rate(raw: u64) -> AngularVelocity {
    AngularVelocity { twentieth_millirad_per_sec: (2 * ((raw as i16) as int) - 13) as i32 }
}

/// One accelerometer axis: a 13-bit reading biased by 40, in 0.01 m/s².
pub open spec fn spec_accel(raw: u64) -> Acceleration {
    Acceleration { centi_m_per_s2: (((raw as i16) as int) - 40) as i16 }
}

/// The signed integer-degree part of the latitude (bias 89).
pub open spec fn spec_lat_degrees(w: u64) -> int {
    spec_get_number(w, 0, 8) - 89
}

/// The latitude minutes term in ten-thousandths of an arcminute: whole
/// minutes plus a fractional-minute count worth 0.0001 arcminute each.
pub open spec fn spec_lat_minutes(w: u64) -> int {
    spec_get_number(w, 8, 6) * 10000 + spec_get_number(w, 16, 14)
}

/// The signed integer-degree part of the longitude (bias 179).
pub open spec fn spec_lon_degrees(w: u64) -> int {
    spec_get_number(w, 32, 9) - 179
}

/// The longitude minutes term in ten-thousandths of an arcminute.
pub open spec fn spec_lon_minutes(w: u64) -> int {
    spec_get_number(w, 41, 6) * 10000 + spec_get_number(w, 48, 14)
}

/// Latitude in 1/600000 of a degree. The sign of the integer-degree part
/// decides whether the minutes term is added (north) or subtracted (south):
/// the combination widens the magnitude away from zero, not a plain sum.
pub open spec fn spec_lat(w: u64) -> int {
    if spec_lat_degrees(w) < 0 {
        spec_lat_degrees(w) * 600000 - spec_lat_minutes(w)
    } else {
        spec_lat_degrees(w) * 600000 + spec_lat_minutes(w)
    }
}

/// Longitude in 1/600000 of a degree; minutes widen west, add east.
pub open spec fn spec_lon(w: u64) -> int {
    if spec_lon_degrees(w) < 0 {
        spec_lon_degrees(w) * 600000 - spec_lon_minutes(w)
    } else {
        spec_lon_degrees(w) * 600000 + spec_lon_minutes(w)
    }
}

/// The decoded GPS fix.
pub open spec fn spec_gps_position(w: u64) -> GeoPosition {
    GeoPosition {
        latitude: GeoAngle { tenth_milliminutes: spec_lat(w) as i32 },
        longitude: GeoAngle { tenth_milliminutes: spec_lon(w) as i32 },
    }
}

/// The decoded GPS date and time (year bias +2010, day and month one-based).
pub open spec fn spec_gps_time(w: u64) -> GpsDateTime {
    GpsDateTime {
        year: (spec_get_number(w, 45, 8) + 2010) as u16,
        month: (spec_get_number(w, 39, 5) + 1) as u8,
        day: (spec_get_number(w, 34, 5) + 1) as u8,
        hour: spec_get_number(w, 0, 5) as u8,
        minute: spec_get_number(w, 8, 6) as u8,
        second: spec_get_number(w, 16, 6) as u8,
    }
}

/// The eight-way octant for a 3-bit heading field; any value outside the
/// table falls back to north.
pub open spec fn spec_compass(v: u64) -> CompassDirection {
    if v == 1 {
        CompassDirection::NorthEast
    } else if v == 2 {
        CompassDirection::East
    } else if v == 3 {
        CompassDirection::SouthEast
    } else if v == 4 {
        CompassDirection::South
    } else if v == 5 {
        CompassDirection::SouthWest
    } else if v == 6 {
        CompassDirection::West
    } else if v == 7 {
        CompassDirection::NorthWest
    } else {
        CompassDirection::North
    }
}

/// A decoded charge-schedule time (year bias +2010, minute precision).
pub open spec fn spec_charge_time(w: u64) -> ChargeTime {
    ChargeTime {
        year: (spec_get_number(w, 56, 8) + 2010) as u16,
        month: spec_get_number(w, 48, 8) as u8,
        day: spec_get_number(w, 40, 8) as u8,
        hour: spec_get_number(w, 32, 8) as u8,
        minute: spec_get_number(w, 24, 8) as u8,
    }
}

/// A measurement decoded from one recognized frame, one variant per
/// arbitration identifier.
#[derive(Clone, Copy, Debug, PartialEq, Eq, Structural)]
pub enum ParsedFrame {
    _084(LocalClock),
    _091 { pitch: AngularVelocity, roll: AngularVelocity, yaw: AngularVelocity },
    _092 { lateral: Acceleration, longitudinal: Acceleration, vertical: Acceleration },
    _217 { fl: WheelSpeed, fr: WheelSpeed, rl: WheelSpeed, rr: WheelSpeed },
    _352 { electric_range: RangeLength },
    _368 { ac_power_w: Power, other_power_w: Power },
    _37B { gas_range: RangeLength },
    _430 { odometer: OdometerLength },
    _43D { accessory_battery_v: ElectricPotential },
    _465(GeoPosition),
    _466(GpsDateTime),
    _467 { direction: CompassDirection, compass_heading: Angle, gps_vehicle_speed: Velocity },
    _472(ChargeTime),
    _473(ChargeTime),
}

/// What the decoder yields for a given identifier and payload word: a
/// measurement for every recognized identifier, nothing otherwise.
pub open spec fn spec_parse_frame(id: u32, w: u64) -> Option<ParsedFrame> {
    if id == 0x084 {
        Some(ParsedFrame::_084(spec_local_clock(w)))
    } else if id == 0x091 {
        Some(
            ParsedFrame::_091 {
                pitch: spec_gyro_rate(spec_get_number(w, 7, 16)),
                roll: spec_gyro_rate(spec_get_number(w, 23, 16)),
                yaw: spec_gyro_rate(spec_get_number(w, 39, 16)),
            },
        )
    } else if id == 0x092 {
        Some(
            ParsedFrame::_092 {
                lateral: spec_accel(spec_get_number(w, 4, 13)),
                longitudinal: spec_accel(spec_get_number(w, 20, 13)),
                vertical: spec_accel(spec_get_number(w, 36, 13)),
            },
        )
    } else if id == 0x217 {
        Some(
            ParsedFrame::_217 {
                fl: WheelSpeed { deci_rpm: spec_get_number(w, 0, 16) as u16 },
                fr: WheelSpeed { deci_rpm: spec_get_number(w, 16, 16) as u16 },
                rl: WheelSpeed { deci_rpm: spec_get_number(w, 32, 16) as u16 },
                rr: WheelSpeed { deci_rpm: spec_get_number(w, 48, 16) as u16 },
            },
        )
    } else if id == 0x352 {
        Some(
            ParsedFrame::_352 {
                electric_range: RangeLength { hectometers: spec_get_number(w, 12, 12) as u16 },
            },
        )
    } else if id == 0x368 {
        Some(
            ParsedFrame::_368 {
                ac_power_w: Power { watts: (spec_get_number(w, 6, 10) * 5) as u16 },
                other_power_w: Power { watts: (spec_get_number(w, 38, 10) * 5) as u16 },
            },
        )
    } else if id == 0x37B {
        Some(
            ParsedFrame::_37B {
                gas_range: RangeLength { hectometers: spec_get_number(w, 48, 14) as u16 },
            },
        )
    } else if id == 0x430 {
        Some(
            ParsedFrame::_430 {
                odometer: OdometerLength { kilometers: spec_get_number(w, 8, 24) as u32 },
            },
        )
    } else if id == 0x43D {
        Some(
            ParsedFrame::_43D {
                accessory_battery_v: ElectricPotential {
                    hectovolts: spec_get_number(w, 48, 8) as u8,
                },
            },
        )
    } else if id == 0x465 {
        Some(ParsedFrame::_465(spec_gps_position(w)))
    } else if id == 0x466 {
        Some(ParsedFrame::_466(spec_gps_time(w)))
    } else if id == 0x467 {
        Some(
            ParsedFrame::_467 {
                direction: spec_compass(spec_get_number(w, 17, 3)),
                compass_heading: Angle { centidegrees: spec_get_number(w, 24, 16) as u16 },
                gps_vehicle_speed: Velocity { miles_per_hour: spec_get_number(w, 40, 8) as u8 },
            },
        )
    } else if id == 0x472 {
        Some(ParsedFrame::_472(spec_charge_time(w)))
    } else if id == 0x473 {
        Some(ParsedFrame::_473(spec_charge_time(w)))
    } else {
        None
    }
}

/// Decoding is deterministic and total: every identifier and payload word
/// decode to exactly one outcome, and the outcome is a measurement exactly
/// when the identifier is recognized — an unknown identifier yields no
/// measurement, never a failure.
pub proof fn lemma_decode_total(id: u32, w: u64)
    ensures
        spec_parse_frame(id, w) is Some <==> recognized(id),
{
}

/// The GPS minutes term never moves the coordinate toward zero: for a
/// southern or western integer-degree part it is subtracted, for a northern
/// or eastern one it is added.
pub proof fn lemma_gps_minutes_sign(w: u64)
    ensures
        spec_lat_degrees(w) < 0 ==> spec_lat(w) == spec_lat_degrees(w) * 600000 - spec_lat_minutes(w),
        spec_lat_degrees(w) >= 0 ==> spec_lat(w) == spec_lat_degrees(w) * 600000 + spec_lat_minutes(w),
        spec_lon_degrees(w) < 0 ==> spec_lon(w) == spec_lon_degrees(w) * 600000 - spec_lon_minutes(w),
        spec_lon_degrees(w) >= 0 ==> spec_lon(w) == spec_lon_degrees(w) * 600000 + spec_lon_minutes(w),
        spec_lat_minutes(w) >= 0,
        spec_lon_minutes(w) >= 0,
{
}

/// Parses a frame by its arbitration identifier. Returns the decoded
/// measurement for a recognized identifier, `None` for any other. Total:
/// no payload is rejected; a payload shorter than eight bytes is read as
/// if padded with trailing zero bytes.
pub fn parse_frame(frame: &RawFrame) -> (r: Option<ParsedFrame>)
    requires
        frame.wf(),
    ensures
        r == spec_parse_frame(frame.id, frame_word(frame.payload@)),
        r is Some <==> recognized(frame.id),
{
    let w = payload_word(&frame.payload);
    proof {
        lemma2_to64();
    }
    match frame.id {
        0x084 => {
            let year: u16 = get_number(w, 0, 8) as u16 + 2000;
            let ordinal: u16 = get_number(w, 16, 16) as u16;
            let hour: u8 = get_number(w, 48, 8) as u8;
            let minute: u8 = get_number(w, 32, 8) as u8;
            let second: u8 = get_number(w, 40, 8) as u8;
            Some(ParsedFrame::_084(LocalClock { year, ordinal, hour, minute, second }))
        },
        0x091 => {
            let pitch: i16 = get_number(w, 7, 16) as i16;
            let roll: i16 = get_number(w, 23, 16) as i16;
            let yaw: i16 = get_number(w, 39, 16) as i16;
            Some(
                ParsedFrame::_091 {
                    pitch: AngularVelocity { twentieth_millirad_per_sec: 2 * pitch as i32 - 13 },
                    roll: AngularVelocity { twentieth_millirad_per_sec: 2 * roll as i32 - 13 },
                    yaw: AngularVelocity { twentieth_millirad_per_sec: 2 * yaw as i32 - 13 },
                },
            )
        },
        0x092 => {
            let lateral: i16 = get_number(w, 4, 13) as i16 - 40;
            let longitudinal: i16 = get_number(w, 20, 13) as i16 - 40;
            let vertical: i16 = get_number(w, 36, 13) as i16 - 40;
            Some(
                ParsedFrame::_092 {
                    lateral: Acceleration { centi_m_per_s2: lateral },
                    longitudinal: Acceleration { centi_m_per_s2: longitudinal },
                    vertical: Acceleration { centi_m_per_s2: vertical },
                },
            )
        },
        0x217 => {
            Some(
                ParsedFrame::_217 {
                    fl: WheelSpeed { deci_rpm: get_number(w, 0, 16) as u16 },
                    fr: WheelSpeed { deci_rpm: get_number(w, 16, 16) as u16 },
                    rl: WheelSpeed { deci_rpm: get_number(w, 32, 16) as u16 },
                    rr: WheelSpeed { deci_rpm: get_number(w, 48, 16) as u16 },
                },
            )
        },
        0x352 => {
            Some(
                ParsedFrame::_352 {
                    electric_range: RangeLength { hectometers: get_number(w, 12, 12) as u16 },
                },
            )
        },
        0x368 => {
            let ac: u16 = (get_number(w, 6, 10) * 5) as u16;
            let other: u16 = (get_number(w, 38, 10) * 5) as u16;
            Some(
                ParsedFrame::_368 {
                    ac_power_w: Power { watts: ac },
                    other_power_w: Power { watts: other },
                },
            )
        },
        0x37B => {
            Some(
                ParsedFrame::_37B {
                    gas_range: RangeLength { hectometers: get_number(w, 48, 14) as u16 },
                },
            )
        },
        0x430 => {
            Some(
                ParsedFrame::_430 {
                    odometer: OdometerLength { kilometers: get_number(w, 8, 24) as u32 },
                },
            )
        },
        0x43D => {
            Some(
                ParsedFrame::_43D {
                    accessory_battery_v: ElectricPotential {
                        hectovolts: get_number(w, 48, 8) as u8,
                    },
                },
            )
        },
        0x465 => {
            let lat_deg: i32 = get_number(w, 0, 8) as i32 - 89;
            let lat_min: i32 = get_number(w, 8, 6) as i32 * 10000 + get_number(w, 16, 14) as i32;
            let latitude: i32 = if lat_deg < 0 {
                lat_deg * 600000 - lat_min
            } else {
                lat_deg * 600000 + lat_min
            };
            let lon_deg: i32 = get_number(w, 32, 9) as i32 - 179;
            let lon_min: i32 = get_number(w, 41, 6) as i32 * 10000 + get_number(w, 48, 14) as i32;
            let longitude: i32 = if lon_deg < 0 {
                lon_deg * 600000 - lon_min
            } else {
                lon_deg * 600000 + lon_min
            };
            Some(
                ParsedFrame::_465(
                    GeoPosition {
                        latitude: GeoAngle { tenth_milliminutes: latitude },
                        longitude: GeoAngle { tenth_milliminutes: longitude },
                    },
                ),
            )
        },
        0x466 => {
            let year: u16 = get_number(w, 45, 8) as u16 + 2010;
            let month: u8 = get_number(w, 39, 5) as u8 + 1;
            let day: u8 = get_number(w, 34, 5) as u8 + 1;
            let hour: u8 = get_number(w, 0, 5) as u8;
            let minute: u8 = get_number(w, 8, 6) as u8;
            let second: u8 = get_number(w, 16, 6) as u8;
            Some(ParsedFrame::_466(GpsDateTime { year, month, day, hour, minute, second }))
        },
        0x467 => {
            let direction: CompassDirection = match get_number(w, 17, 3) {
                0 => CompassDirection::North,
                1 => CompassDirection::NorthEast,
                2 => CompassDirection::East,
                3 => CompassDirection::SouthEast,
                4 => CompassDirection::South,
                5 => CompassDirection::SouthWest,
                6 => CompassDirection::West,
                7 => CompassDirection::NorthWest,
                _ => CompassDirection::North,
            };
            Some(
                ParsedFrame::_467 {
                    direction,
                    compass_heading: Angle { centidegrees: get_number(w, 24, 16) as u16 },
                    gps_vehicle_speed: Velocity { miles_per_hour: get_number(w, 40, 8) as u8 },
                },
            )
        },
        0x472 => {
            Some(ParsedFrame::_472(charge_time(w)))
        },
        0x473 => {
            Some(ParsedFrame::_473(charge_time(w)))
        },
        _ => None,
    }
}

/// Reads the charge-schedule fields shared by the start and finish messages.
fn charge_time(w: u64) -> (r: ChargeTime)
    ensures
        r == spec_charge_time(w),
{
    proof {
        lemma2_to64();
    }
    let minute: u8 = get_number(w, 24, 8) as u8;
    let hour: u8 = get_number(w, 32, 8) as u8;
    let day: u8 = get_number(w, 40, 8) as u8;
    let month: u8 = get_number(w, 48, 8) as u8;
    let year: u16 = get_number(w, 56, 8) as u16 + 2010;
    ChargeTime { year, month, day, hour, minute }
}

} // verus!
