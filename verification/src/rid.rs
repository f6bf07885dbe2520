//! The remote identification (RID) response schema.
//!
//! These are the records the service answers with. Coordinates and
//! kinematics relayed from the backend travel as raw IEEE-754 bit patterns
//! that the library never interprets; the serialization layer decodes them.

use vstd::prelude::*;
use crate::clock::{
    format_rfc3339_millis, is_rfc3339_stamp, rfc3339_millis_of, utc_now_us, RFC3339_SECS_MAX,
    RFC3339_US_MAX,
};

verus! {

/// A time in RFC 3339 format, with the format named beside the value.
#[derive(Debug, Clone, PartialEq)]
pub struct Time {
    /// RFC 3339 date-time text with a `Z` suffix.
    pub value: String,
    /// The name of the format of `value`.
    pub format: String,
}

impl Time {
    /// The current instant, rendered in RFC 3339 form with millisecond
    /// precision. A clock reading before 1970 or after the year 9999 is
    /// clamped onto the formattable range; the text always renders an
    /// instant of that range.
    pub fn now() -> (t: Time)
        ensures
            t.format@ == "RFC3339"@,
            is_rfc3339_stamp(t.value@),
    {
        let now_us = utc_now_us();
        let us = if now_us < 0 {
            0
        } else if now_us > RFC3339_US_MAX {
            RFC3339_US_MAX
        } else {
            now_us
        };
        let secs = us / 1_000_000;
        let micros = us % 1_000_000;
        proof {
            assert(0 <= secs <= RFC3339_SECS_MAX);
            assert(0 <= micros < 1_000_000);
        }
        let nanos = (micros as u32) * 1000;
        let value = format_rfc3339_millis(secs, nanos);
        proof {
            assert(is_rfc3339_stamp(value@)) by {
                assert(value@ == rfc3339_millis_of(secs as int, nanos as int));
            }
        }
        Time { value, format: "RFC3339".to_owned() }
    }
}

impl Default for Time {
    /// The current instant.
    fn default() -> (t: Time)
        ensures
            t.format@ == "RFC3339"@,
            is_rfc3339_stamp(t.value@),
    {
        Time::now()
    }
}

/// An altitude with reference and units; only WGS-84 metres are used.
#[derive(Debug, Clone, PartialEq)]
pub struct Altitude {
    /// The altitude in whole metres; `-1000` stands for unknown or invalid.
    pub value: i64,
    /// Code of the vertical reference; always WGS-84.
    pub reference: String,
    /// The units of the altitude; always metres.
    pub units: String,
}

impl Default for Altitude {
    /// The "unknown or invalid" altitude.
    fn default() -> (a: Altitude)
        ensures
            a.value == -1000,
            a.reference@ == "W84"@,
            a.units@ == "M"@,
    {
        Altitude { value: -1000, reference: "W84".to_owned(), units: "M".to_owned() }
    }
}

/// A point given by latitude and longitude, in nanodegrees.
#[derive(Debug, Clone, Copy, PartialEq, Eq, Structural)]
pub struct LatLngPoint {
    pub lng: i64,
    pub lat: i64,
}

/// A 2D area around a point.
#[derive(Debug, Clone, PartialEq)]
pub struct Radius {
    /// The magnitude of the radius, in millimetres.
    pub value: u32,
    /// The units the schema reports; always metres.
    pub units: String,
}

impl Default for Radius {
    /// The smallest reported radius, one millimetre.
    fn default() -> (r: Radius)
        ensures
            r.value == 1,
            r.units@ == "M"@,
    {
        Radius { value: 1, units: "M".to_owned() }
    }
}

/// A circle given by its centre and radius.
#[derive(Debug, Clone, PartialEq)]
pub struct Circle {
    pub center: LatLngPoint,
    pub radius: Radius,
}

/// A polygon given by its vertices.
#[derive(Debug, Clone, PartialEq)]
pub struct Polygon {
    pub vertices: Vec<LatLngPoint>,
}

/// A volume bounded by an outline and two altitudes.
#[derive(Debug, Clone, PartialEq)]
pub struct Volume3D {
    pub outline_circle: Circle,
    pub outline_polygon: Polygon,
    pub altitude_lower: Altitude,
    pub altitude_upper: Altitude,
}

/// A 3D volume together with a start and an end time.
#[derive(Debug, Clone, PartialEq)]
pub struct Volume4D {
    pub volume: Volume3D,
    pub time_start: Time,
    pub time_end: Time,
}

/// The type of an aircraft, as the RID schema names them.
#[derive(Debug, Clone, Copy, PartialEq, Eq, Structural)]
pub enum UAType {
    NotDeclared,
    Aeroplane,
    Helicopter,
    Gyroplane,
    HybridLift,
    Ornithopter,
    Glider,
    Kite,
    FreeBalloon,
    CaptiveBalloon,
    Airship,
    FreeFallOrParachute,
    Rocket,
    TetheredPoweredAircraft,
    GroundObstacle,
    Other,
}

/// Vertical accuracy of a position.
#[derive(Debug, Clone, Copy, PartialEq, Eq, Structural)]
pub enum VerticalAccuracy {
    VAUnknown,
    VA150mPlus,
    VA150m,
    VA45m,
    VA25m,
    VA10m,
    VA3m,
    VA1m,
}

/// Horizontal accuracy of a position.
#[derive(Debug, Clone, Copy, PartialEq, Eq, Structural)]
pub enum HorizontalAccuracy {
    HAUnknown,
    HA10NMPlus,
    HA10NM,
    HA4NM,
    HA2NM,
    HA1NM,
    HA05NM,
    HA03NM,
    HA01NM,
    HA005NM,
    HA30m,
    HA10m,
    HA3m,
    HA1m,
}

/// The reference a height is measured against.
#[derive(Debug, Clone, Copy, PartialEq, Eq, Structural)]
pub enum RIDHeightReference {
    TakeoffLocation,
    GroundLevel,
}

/// Accuracy of a speed reading.
#[derive(Debug, Clone, Copy, PartialEq, Eq, Structural)]
pub enum SpeedAccuracy {
    SAUnknown,
    SA10mpsPlus,
    SA10mps,
    SA3mps,
    SA1mps,
    SA03mps,
}

/// The operational status of an aircraft.
#[derive(Debug, Clone, Copy, PartialEq, Eq, Structural)]
pub enum RIDOperationalStatus {
    Undeclared,
    Ground,
    Airborne,
    Emergency,
    RemoteIDSystemFailure,
}

/// The height of an asset.
#[derive(Debug, Clone, Copy, PartialEq, Eq, Structural)]
pub struct RIDHeight {
    /// The height in metres, as IEEE-754 single bits.
    pub distance: u32,
    pub reference: RIDHeightReference,
}

/// The position of an aircraft. The backend does not yet report accuracy or
/// pressure altitude, so the accuracy classes are always unknown and the
/// pressure altitude repeats the geodetic one: a documented placeholder,
/// not data.
#[derive(Debug, Clone, Copy, PartialEq, Eq, Structural)]
pub struct RIDAircraftPosition {
    /// Degrees of latitude, as IEEE-754 double bits, relayed unchanged.
    pub lat: u64,
    /// Degrees of longitude, as IEEE-754 double bits, relayed unchanged.
    pub lng: u64,
    /// Geodetic altitude in metres, as IEEE-754 single bits.
    pub alt: u32,
    pub accuracy_h: HorizontalAccuracy,
    pub accuracy_v: VerticalAccuracy,
    pub extrapolated: bool,
    /// Pressure altitude in metres, as IEEE-754 single bits.
    pub pressure_alt: u32,
    pub height: RIDHeight,
}

/// The state of a flight: a timestamped position with kinematics.
#[derive(Debug, Clone, PartialEq)]
pub struct RIDAircraftState {
    pub timestamp: Time,
    /// Accuracy of the timestamp in seconds, as IEEE-754 single bits.
    pub timestamp_accuracy: u32,
    pub operational_status: RIDOperationalStatus,
    pub position: RIDAircraftPosition,
    /// Track angle against true north in degrees, as IEEE-754 single bits.
    pub track: u32,
    /// Ground speed in metres per second, as IEEE-754 single bits.
    pub speed: u32,
    pub speed_accuracy: SpeedAccuracy,
    /// Vertical speed in metres per second, as IEEE-754 single bits.
    pub vertical_speed: u32,
}

/// The operating area of a flight; not yet reported, so always empty.
#[derive(Debug, Clone, PartialEq)]
pub struct OperatingArea {
    pub aircraft_count: i32,
    pub volumes: Vec<Volume4D>,
}

/// A historical position of an aircraft at a reported time.
#[derive(Debug, Clone, PartialEq)]
pub struct RIDRecentAircraftPosition {
    pub time: Time,
    pub position: RIDAircraftPosition,
}

/// A flight in the queried area.
#[derive(Debug, Clone, PartialEq)]
pub struct RIDFlight {
    /// Identifier of the flight: the session identifier, else the aircraft
    /// identifier, else the literal `UNK`.
    pub id: String,
    pub aircraft_type: UAType,
    pub current_state: RIDAircraftState,
    pub operating_area: OperatingArea,
    /// Whether this is a simulated flight, relayed unchanged.
    pub simulated: bool,
    pub recent_positions: Vec<RIDRecentAircraftPosition>,
}

/// The answer to a flight query.
#[derive(Debug, Clone, PartialEq)]
pub struct GetFlightsResponse {
    /// Stamped when the response is assembled, not when the query was made.
    pub timestamp: Time,
    pub flights: Vec<RIDFlight>,
    pub no_isas_present: bool,
}

impl Default for GetFlightsResponse {
    /// An empty response stamped with the current instant.
    fn default() -> (r: GetFlightsResponse)
        ensures
            r.timestamp.format@ == "RFC3339"@,
            is_rfc3339_stamp(r.timestamp.value@),
            r.flights@.len() == 0,
            !r.no_isas_present,
    {
        GetFlightsResponse {
            timestamp: Time::default(),
            flights: Vec::new(),
            no_isas_present: false,
        }
    }
}

} // verus!
