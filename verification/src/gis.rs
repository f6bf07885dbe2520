//! Model of the geospatial backend's wire records.
//!
//! The backend speaks protobuf over gRPC; these types carry, as plain
//! values, exactly the fields of its messages that this service reads or
//! writes. Kinematic readings travel as raw IEEE-754 bit patterns that the
//! library never interprets; the transport layer encodes and decodes them.

use vstd::prelude::*;

verus! {

/// An instant as the wire protocol carries it: seconds and nanoseconds
/// after the Unix epoch.
#[derive(Debug, Clone, Copy, PartialEq, Eq, Structural)]
pub struct GisTimestamp {
    pub seconds: i64,
    pub nanos: i32,
}

/// A reported location: latitude and longitude as the bits of IEEE-754
/// doubles, altitude in metres as the bits of an IEEE-754 single.
#[derive(Debug, Clone, Copy, PartialEq, Eq, Structural)]
pub struct GisPointZ {
    pub latitude: u64,
    pub longitude: u64,
    pub altitude_meters: u32,
}

/// A flight's latest reported state.
#[derive(Debug, Clone, Copy)]
pub struct GisAircraftState {
    pub timestamp: Option<GisTimestamp>,
    /// Wire code of an operational status; out-of-range codes are a backend
    /// defect.
    pub status: i32,
    pub position: Option<GisPointZ>,
    /// Track angle in degrees, as IEEE-754 single bits.
    pub track_angle_degrees: u32,
    /// Ground speed in metres per second, as IEEE-754 single bits.
    pub ground_speed_mps: u32,
    /// Vertical speed in metres per second, as IEEE-754 single bits.
    pub vertical_speed_mps: u32,
}

/// A historical position report.
#[derive(Debug, Clone, Copy)]
pub struct GisTimePosition {
    pub timestamp: Option<GisTimestamp>,
    pub position: Option<GisPointZ>,
}

/// One flight as the backend reports it.
#[derive(Debug, Clone)]
pub struct GisFlight {
    pub session_id: Option<String>,
    pub aircraft_id: Option<String>,
    /// Wire code of an aircraft type; out-of-range codes fall back to
    /// `Undeclared`.
    pub aircraft_type: i32,
    pub simulated: bool,
    pub state: Option<GisAircraftState>,
    pub positions: Vec<GisTimePosition>,
}

/// The flight query this service issues: the window's corners in
/// nanodegrees and the time range in epoch microseconds. The transport
/// layer turns the corners into the degrees the wire carries.
#[derive(Debug, Clone, Copy, PartialEq, Eq, Structural)]
pub struct GisFlightsRequest {
    pub window_min_x: i64,
    pub window_min_y: i64,
    pub window_max_x: i64,
    pub window_max_y: i64,
    pub time_start_us: i64,
    pub time_end_us: i64,
}

/// A liveness probe.
#[derive(Debug, Clone, Copy)]
pub struct ReadyRequest {}

/// Answer to a liveness probe.
#[derive(Debug, Clone, Copy, PartialEq, Eq, Structural)]
pub struct ReadyResponse {
    pub ready: bool,
}

/// Aircraft types as the backend declares them. The wire numbers them as
/// the remote identification standard does, `Undeclared` first.
#[derive(Debug, Clone, Copy, PartialEq, Eq, Structural)]
pub enum AircraftType {
    Undeclared,
    Aeroplane,
    Rotorcraft,
    Gyroplane,
    Hybridlift,
    Ornithopter,
    Glider,
    Kite,
    Freeballoon,
    Captiveballoon,
    Airship,
    Unpowered,
    Rocket,
    Tethered,
    Groundobstacle,
    Other,
}

/// Operational statuses as the backend declares them, numbered from
/// `Undeclared`.
#[derive(Debug, Clone, Copy, PartialEq, Eq, Structural)]
pub enum OperationalStatus {
    Undeclared,
    Ground,
    Airborne,
    Emergency,
    RemoteIdSystemFailure,
}

/// The aircraft type a wire code denotes, if any.
pub open spec fn spec_aircraft_type_from_i32(i: int) -> Option<AircraftType> {
    if i == 0 {
        Some(AircraftType::Undeclared)
    } else if i == 1 {
        Some(AircraftType::Aeroplane)
    } else if i == 2 {
        Some(AircraftType::Rotorcraft)
    } else if i == 3 {
        Some(AircraftType::Gyroplane)
    } else if i == 4 {
        Some(AircraftType::Hybridlift)
    } else if i == 5 {
        Some(AircraftType::Ornithopter)
    } else if i == 6 {
        Some(AircraftType::Glider)
    } else if i == 7 {
        Some(AircraftType::Kite)
    } else if i == 8 {
        Some(AircraftType::Freeballoon)
    } else if i == 9 {
        Some(AircraftType::Captiveballoon)
    } else if i == 10 {
        Some(AircraftType::Airship)
    } else if i == 11 {
        Some(AircraftType::Unpowered)
    } else if i == 12 {
        Some(AircraftType::Rocket)
    } else if i == 13 {
        Some(AircraftType::Tethered)
    } else if i == 14 {
        Some(AircraftType::Groundobstacle)
    } else if i == 15 {
        Some(AircraftType::Other)
    } else {
        None
    }
}

/// The operational status a wire code denotes, if any.
pub open spec fn spec_op_status_from_i32(i: int) -> Option<OperationalStatus> {
    if i == 0 {
        Some(OperationalStatus::Undeclared)
    } else if i == 1 {
        Some(OperationalStatus::Ground)
    } else if i == 2 {
        Some(OperationalStatus::Airborne)
    } else if i == 3 {
        Some(OperationalStatus::Emergency)
    } else if i == 4 {
        Some(OperationalStatus::RemoteIdSystemFailure)
    } else {
        None
    }
}

impl AircraftType {
    /// Total decoding of a wire code; every code outside the declared range
    /// is `None`.
    pub fn from_i32(i: i32) -> (r: Option<AircraftType>)
        ensures
            r == spec_aircraft_type_from_i32(i as int),
    {
        match i {
            0 => Some(AircraftType::Undeclared),
            1 => Some(AircraftType::Aeroplane),
            2 => Some(AircraftType::Rotorcraft),
            3 => Some(AircraftType::Gyroplane),
            4 => Some(AircraftType::Hybridlift),
            5 => Some(AircraftType::Ornithopter),
            6 => Some(AircraftType::Glider),
            7 => Some(AircraftType::Kite),
            8 => Some(AircraftType::Freeballoon),
            9 => Some(AircraftType::Captiveballoon),
            10 => Some(AircraftType::Airship),
            11 => Some(AircraftType::Unpowered),
            12 => Some(AircraftType::Rocket),
            13 => Some(AircraftType::Tethered),
            14 => Some(AircraftType::Groundobstacle),
            15 => Some(AircraftType::Other),
            _ => None,
        }
    }
}

impl OperationalStatus {
    /// Total decoding of a wire code; every code outside the declared range
    /// is `None`.
    pub fn from_i32(i: i32) -> (r: Option<OperationalStatus>)
        ensures
            r == spec_op_status_from_i32(i as int),
    {
        match i {
            0 => Some(OperationalStatus::Undeclared),
            1 => Some(OperationalStatus::Ground),
            2 => Some(OperationalStatus::Airborne),
            3 => Some(OperationalStatus::Emergency),
            4 => Some(OperationalStatus::RemoteIdSystemFailure),
            _ => None,
        }
    }
}

} // verus!
