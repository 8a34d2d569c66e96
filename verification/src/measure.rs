//! Typed physical measurements produced by the frame decoder.
//!
//! Every quantity is a plain integer under a fixed unit chosen so that the
//! protocol's scaling is exact: no value here has lost precision to the
//! decode step. Downstream consumers that want floating-point engineering
//! units divide by the documented denominator.

use vstd::prelude::*;

verus! {

/// Angular rate from the gyroscope, in units of 1/20000 radian per second.
/// The protocol encodes a 16-bit reading `r` whose physical value is
/// `(r - 6.5) / 10000` rad/s; this wrapper stores the exact `2*r - 13`.
#[derive(Clone, Copy, Debug, PartialEq, Eq, Structural)]
pub struct AngularVelocity {
    pub twentieth_millirad_per_sec: i32,
}

/// Acceleration along one axis, in hundredths of a metre per second squared.
#[derive(Clone, Copy, Debug, PartialEq, Eq, Structural)]
pub struct Acceleration {
    pub centi_m_per_s2: i16,
}

/// Wheel rotation speed, in tenths of a revolution per minute.
#[derive(Clone, Copy, Debug, PartialEq, Eq, Structural)]
pub struct WheelSpeed {
    pub deci_rpm: u16,
}

/// A remaining-range distance, in hectometres (tenths of a kilometre).
#[derive(Clone, Copy, Debug, PartialEq, Eq, Structural)]
pub struct RangeLength {
    pub hectometers: u16,
}

/// Power draw, in watts.
#[derive(Clone, Copy, Debug, PartialEq, Eq, Structural)]
pub struct Power {
    pub watts: u16,
}

/// Total distance driven, in kilometres.
#[derive(Clone, Copy, Debug, PartialEq, Eq, Structural)]
pub struct OdometerLength {
    pub kilometers: u32,
}

/// Accessory battery voltage. The protocol table tags this reading in
/// hectovolts; that quirk is preserved rather than silently rescaled.
#[derive(Clone, Copy, Debug, PartialEq, Eq, Structural)]
pub struct ElectricPotential {
    pub hectovolts: u8,
}

/// A latitude or longitude, in ten-thousandths of an arcminute
/// (1/600000 of a degree), signed. South and west are negative.
#[derive(Clone, Copy, Debug, PartialEq, Eq, Structural)]
pub struct GeoAngle {
    pub tenth_milliminutes: i32,
}

/// A GPS fix: latitude and longitude.
#[derive(Clone, Copy, Debug, PartialEq, Eq, Structural)]
pub struct GeoPosition {
    pub latitude: GeoAngle,
    pub longitude: GeoAngle,
}

/// Compass heading, in hundredths of a degree clockwise from north.
#[derive(Clone, Copy, Debug, PartialEq, Eq, Structural)]
pub struct Angle {
    pub centidegrees: u16,
}

/// Ground speed as reported by the GPS receiver, in miles per hour.
#[derive(Clone, Copy, Debug, PartialEq, Eq, Structural)]
pub struct Velocity {
    pub miles_per_hour: u8,
}

/// The eight-way compass octant reported alongside the GPS heading.
#[derive(Clone, Copy, Debug, PartialEq, Eq, Structural)]
pub enum CompassDirection {
    North,
    NorthEast,
    East,
    SouthEast,
    South,
    SouthWest,
    West,
    NorthWest,
}

/// The car's local wall clock: a year (epoch bias +2000), a day-of-year
/// ordinal and a time of day, exactly as the payload carries them. The
/// fields are not validated as a calendar date; the decoder is total.
#[derive(Clone, Copy, Debug, PartialEq, Eq, Structural)]
pub struct LocalClock {
    pub year: u16,
    pub ordinal: u16,
    pub hour: u8,
    pub minute: u8,
    pub second: u8,
}

/// A GPS date and time (epoch bias +2010; day and month carried
/// zero-based and stored one-based here). Not validated as a calendar
/// date; the decoder is total.
#[derive(Clone, Copy, Debug, PartialEq, Eq, Structural)]
pub struct GpsDateTime {
    pub year: u16,
    pub month: u8,
    pub day: u8,
    pub hour: u8,
    pub minute: u8,
    pub second: u8,
}

/// A charge-schedule date and time (epoch bias +2010, minute precision).
/// Not validated as a calendar date; the decoder is total.
#[derive(Clone, Copy, Debug, PartialEq, Eq, Structural)]
pub struct ChargeTime {
    pub year: u16,
    pub month: u8,
    pub day: u8,
    pub hour: u8,
    pub minute: u8,
}

} // verus!
