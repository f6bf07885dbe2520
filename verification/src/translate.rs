//! Translation of backend flight records into the RID response schema.
//!
//! Every conversion is fallible: a missing timestamp, a missing position or
//! an out-of-range status code is a hard [`DiscoveryError::InternalTranslation`],
//! because the backend contract guarantees those fields. An out-of-range
//! aircraft-type code, by contrast, falls back to `NotDeclared` and the
//! record proceeds: the asymmetry is deliberate and kept as given.

use vstd::prelude::*;
use crate::clock::{format_rfc3339_millis, rfc3339_millis_of, RFC3339_SECS_MAX, RFC3339_SECS_MIN};
use crate::error::DiscoveryError;
use crate::gis::{
    spec_aircraft_type_from_i32, spec_op_status_from_i32, AircraftType, GisAircraftState,
    GisFlight, GisPointZ, GisTimePosition, GisTimestamp, OperationalStatus,
};
use crate::rid::{
    HorizontalAccuracy, OperatingArea, RIDAircraftPosition, RIDAircraftState, RIDFlight,
    RIDHeight, RIDHeightReference, RIDOperationalStatus, RIDRecentAircraftPosition, SpeedAccuracy,
    Time, UAType, VerticalAccuracy,
};

verus! {

/// The RID aircraft type each backend type maps to.
pub open spec fn spec_ua_type(t: AircraftType) -> UAType {
    match t {
        AircraftType::Undeclared => UAType::NotDeclared,
        AircraftType::Aeroplane => UAType::Aeroplane,
        AircraftType::Glider => UAType::Glider,
        AircraftType::Gyroplane => UAType::Gyroplane,
        AircraftType::Ornithopter => UAType::Ornithopter,
        AircraftType::Hybridlift => UAType::HybridLift,
        AircraftType::Kite => UAType::Kite,
        AircraftType::Freeballoon => UAType::FreeBalloon,
        AircraftType::Captiveballoon => UAType::CaptiveBalloon,
        AircraftType::Airship => UAType::Airship,
        AircraftType::Rocket => UAType::Rocket,
        AircraftType::Tethered => UAType::TetheredPoweredAircraft,
        AircraftType::Groundobstacle => UAType::GroundObstacle,
        AircraftType::Other => UAType::Other,
        AircraftType::Unpowered => UAType::FreeFallOrParachute,
        // Includes multirotor aircraft.
        AircraftType::Rotorcraft => UAType::Helicopter,
    }
}

impl From<AircraftType> for UAType {
    /// Exhaustive translation of the backend's aircraft types.
    fn from(t: AircraftType) -> (r: UAType) {
        match t {
            AircraftType::Undeclared => UAType::NotDeclared,
            AircraftType::Aeroplane => UAType::Aeroplane,
            AircraftType::Glider => UAType::Glider,
            AircraftType::Gyroplane => UAType::Gyroplane,
            AircraftType::Ornithopter => UAType::Ornithopter,
            AircraftType::Hybridlift => UAType::HybridLift,
            AircraftType::Kite => UAType::Kite,
            AircraftType::Freeballoon => UAType::FreeBalloon,
            AircraftType::Captiveballoon => UAType::CaptiveBalloon,
            AircraftType::Airship => UAType::Airship,
            AircraftType::Rocket => UAType::Rocket,
            AircraftType::Tethered => UAType::TetheredPoweredAircraft,
            AircraftType::Groundobstacle => UAType::GroundObstacle,
            AircraftType::Other => UAType::Other,
            AircraftType::Unpowered => UAType::FreeFallOrParachute,
            AircraftType::Rotorcraft => UAType::Helicopter,
        }
    }
}

impl vstd::std_specs::convert::FromSpecImpl<AircraftType> for UAType {
    open spec fn obeys_from_spec() -> bool {
        true
    }

    open spec fn from_spec(t: AircraftType) -> UAType {
        spec_ua_type(t)
    }
}

/// The RID status each backend status maps to.
pub open spec fn spec_rid_status(s: OperationalStatus) -> RIDOperationalStatus {
    match s {
        OperationalStatus::Undeclared => RIDOperationalStatus::Undeclared,
        OperationalStatus::Ground => RIDOperationalStatus::Ground,
        OperationalStatus::Airborne => RIDOperationalStatus::Airborne,
        OperationalStatus::Emergency => RIDOperationalStatus::Emergency,
        OperationalStatus::RemoteIdSystemFailure => RIDOperationalStatus::RemoteIDSystemFailure,
    }
}

impl From<OperationalStatus> for RIDOperationalStatus {
    /// Exhaustive translation of the backend's operational statuses.
    fn from(s: OperationalStatus) -> (r: RIDOperationalStatus) {
        match s {
            OperationalStatus::Undeclared => RIDOperationalStatus::Undeclared,
            OperationalStatus::Ground => RIDOperationalStatus::Ground,
            OperationalStatus::Airborne => RIDOperationalStatus::Airborne,
            OperationalStatus::Emergency => RIDOperationalStatus::Emergency,
            OperationalStatus::RemoteIdSystemFailure => RIDOperationalStatus::RemoteIDSystemFailure,
        }
    }
}

impl vstd::std_specs::convert::FromSpecImpl<OperationalStatus> for RIDOperationalStatus {
    open spec fn obeys_from_spec() -> bool {
        true
    }

    open spec fn from_spec(s: OperationalStatus) -> RIDOperationalStatus {
        spec_rid_status(s)
    }
}

/// Whether a wire timestamp is normalized and within the formattable years.
pub open spec fn ts_formattable(t: GisTimestamp) -> bool {
    &&& (RFC3339_SECS_MIN as int) <= (t.seconds as int)
    &&& (t.seconds as int) <= (RFC3339_SECS_MAX as int)
    &&& 0 <= (t.nanos as int)
    &&& (t.nanos as int) < 1_000_000_000
}

/// A wire timestamp translated into RFC 3339 text.
pub open spec fn translates_time(t: GisTimestamp, out: Time) -> bool {
    &&& out.value@ == rfc3339_millis_of(t.seconds as int, t.nanos as int)
    &&& out.format@ == "RFC3339"@
}

/// A wire position translated into a RID position: coordinates and altitude
/// relayed unchanged, accuracy classes unknown, pressure altitude repeating
/// the geodetic one, height above ground level.
pub open spec fn translates_point(p: GisPointZ, out: RIDAircraftPosition) -> bool {
    &&& out.lat == p.latitude
    &&& out.lng == p.longitude
    &&& out.alt == p.altitude_meters
    &&& out.accuracy_h == HorizontalAccuracy::HAUnknown
    &&& out.accuracy_v == VerticalAccuracy::VAUnknown
    &&& out.extrapolated == false
    &&& out.pressure_alt == p.altitude_meters
    &&& out.height == (RIDHeight {
        distance: p.altitude_meters,
        reference: RIDHeightReference::GroundLevel,
    })
}

/// Whether a state record carries everything its translation requires.
pub open spec fn state_convertible(s: GisAircraftState) -> bool {
    &&& s.timestamp matches Some(t) && ts_formattable(t)
    &&& s.position is Some
    &&& spec_op_status_from_i32(s.status as int) is Some
}

/// A state record translated into a RID state.
pub open spec fn translates_state(s: GisAircraftState, out: RIDAircraftState) -> bool {
    &&& s.timestamp matches Some(t) && translates_time(t, out.timestamp)
    &&& out.timestamp_accuracy == 0
    &&& spec_op_status_from_i32(s.status as int) matches Some(os)
        && out.operational_status == spec_rid_status(os)
    &&& s.position matches Some(p) && translates_point(p, out.position)
    &&& out.track == s.track_angle_degrees
    &&& out.speed == s.ground_speed_mps
    &&& out.speed_accuracy == SpeedAccuracy::SAUnknown
    &&& out.vertical_speed == s.vertical_speed_mps
}

/// Whether a historical position carries everything its translation requires.
pub open spec fn recent_convertible(p: GisTimePosition) -> bool {
    &&& p.timestamp matches Some(t) && ts_formattable(t)
    &&& p.position is Some
}

/// A historical position translated into a RID recent position.
pub open spec fn translates_recent(p: GisTimePosition, out: RIDRecentAircraftPosition) -> bool {
    &&& p.timestamp matches Some(t) && translates_time(t, out.time)
    &&& p.position matches Some(pt) && translates_point(pt, out.position)
}

/// The identifier a flight record is reported under: the session
/// identifier, else the aircraft identifier, else the literal `UNK`.
pub open spec fn spec_flight_id(f: GisFlight) -> Seq<char> {
    match f.session_id {
        Some(s) => s@,
        None => match f.aircraft_id {
            Some(a) => a@,
            None => "UNK"@,
        },
    }
}

/// The RID aircraft type of a flight record: an out-of-range wire code is
/// not an error, it falls back to the undeclared type.
pub open spec fn spec_flight_type(f: GisFlight) -> UAType {
    match spec_aircraft_type_from_i32(f.aircraft_type as int) {
        Some(t) => spec_ua_type(t),
        None => UAType::NotDeclared,
    }
}

/// Whether a flight record carries everything its translation requires.
pub open spec fn flight_convertible(f: GisFlight) -> bool {
    &&& f.state matches Some(s) && state_convertible(s)
    &&& forall|i: int|
        0 <= i < f.positions@.len() ==> recent_convertible(#[trigger] f.positions@[i])
}

/// A flight record translated into a RID flight. The operating area is not
/// yet reported upstream and stays empty.
pub open spec fn translates_flight(f: GisFlight, out: RIDFlight) -> bool {
    &&& out.id@ == spec_flight_id(f)
    &&& out.aircraft_type == spec_flight_type(f)
    &&& f.state matches Some(s) && translates_state(s, out.current_state)
    &&& out.operating_area.aircraft_count == 0
    &&& out.operating_area.volumes@.len() == 0
    &&& out.simulated == f.simulated
    &&& out.recent_positions@.len() == f.positions@.len()
    &&& forall|i: int|
        0 <= i < f.positions@.len() ==> translates_recent(
            f.positions@[i],
            #[trigger] out.recent_positions@[i],
        )
}

fn translate_time(t: GisTimestamp) -> (r: Result<Time, DiscoveryError>)
    ensures
        r matches Ok(out) ==> ts_formattable(t) && translates_time(t, out),
        r matches Err(e) ==> e == DiscoveryError::InternalTranslation && !ts_formattable(t),
{
    if t.nanos < 0 || t.nanos >= 1_000_000_000 || t.seconds < RFC3339_SECS_MIN || t.seconds
        > RFC3339_SECS_MAX {
        return Err(DiscoveryError::InternalTranslation);
    }
    let value = format_rfc3339_millis(t.seconds, t.nanos as u32);
    Ok(Time { value, format: "RFC3339".to_owned() })
}

fn translate_point(p: GisPointZ) -> (out: RIDAircraftPosition)
    ensures
        translates_point(p, out),
{
    RIDAircraftPosition {
        lat: p.latitude,
        lng: p.longitude,
        alt: p.altitude_meters,
        accuracy_h: HorizontalAccuracy::HAUnknown,
        accuracy_v: VerticalAccuracy::VAUnknown,
        extrapolated: false,
        pressure_alt: p.altitude_meters,
        height: RIDHeight {
            distance: p.altitude_meters,
            reference: RIDHeightReference::GroundLevel,
        },
    }
}

impl RIDAircraftState {
    /// Converts a backend state record. A missing or unnormalized
    /// timestamp, a missing position or an out-of-range status code is a
    /// hard internal error: the backend contract guarantees those fields.
    pub fn try_from(state: GisAircraftState) -> (r: Result<RIDAircraftState, DiscoveryError>)
        ensures
            r matches Ok(out) ==> state_convertible(state) && translates_state(state, out),
            r matches Err(e) ==> e == DiscoveryError::InternalTranslation && !state_convertible(
                state,
            ),
    {
        let ts = match state.timestamp {
            Some(t) => t,
            None => {
                return Err(DiscoveryError::InternalTranslation);
            },
        };
        let timestamp = match translate_time(ts) {
            Ok(t) => t,
            Err(e) => {
                return Err(e);
            },
        };
        let position = match state.position {
            Some(p) => p,
            None => {
                return Err(DiscoveryError::InternalTranslation);
            },
        };
        let status = match OperationalStatus::from_i32(state.status) {
            Some(s) => s,
            None => {
                return Err(DiscoveryError::InternalTranslation);
            },
        };
        Ok(
            RIDAircraftState {
                timestamp,
                timestamp_accuracy: 0,
                operational_status: RIDOperationalStatus::from(status),
                position: translate_point(position),
                track: state.track_angle_degrees,
                speed: state.ground_speed_mps,
                speed_accuracy: SpeedAccuracy::SAUnknown,
                vertical_speed: state.vertical_speed_mps,
            },
        )
    }
}

impl RIDRecentAircraftPosition {
    /// Converts a historical position report; a missing or unnormalized
    /// timestamp or a missing position is a hard internal error.
    pub fn try_from(position: GisTimePosition) -> (r: Result<
        RIDRecentAircraftPosition,
        DiscoveryError,
    >)
        ensures
            r matches Ok(out) ==> recent_convertible(position) && translates_recent(
                position,
                out,
            ),
            r matches Err(e) ==> e == DiscoveryError::InternalTranslation && !recent_convertible(
                position,
            ),
    {
        let ts = match position.timestamp {
            Some(t) => t,
            None => {
                return Err(DiscoveryError::InternalTranslation);
            },
        };
        let time = match translate_time(ts) {
            Ok(t) => t,
            Err(e) => {
                return Err(e);
            },
        };
        let point = match position.position {
            Some(p) => p,
            None => {
                return Err(DiscoveryError::InternalTranslation);
            },
        };
        Ok(RIDRecentAircraftPosition { time, position: translate_point(point) })
    }
}

/// Converts a whole flight record. The identifier falls back from session
/// to aircraft to `UNK`; an unrecognized aircraft-type code is tolerated,
/// while a defective state or position report fails the record.
pub fn translate_flight(f: &GisFlight) -> (r: Result<RIDFlight, DiscoveryError>)
    ensures
        r matches Ok(out) ==> flight_convertible(*f) && translates_flight(*f, out),
        r matches Err(e) ==> e == DiscoveryError::InternalTranslation && !flight_convertible(*f),
{
    let state = match f.state {
        Some(s) => s,
        None => {
            return Err(DiscoveryError::InternalTranslation);
        },
    };
    let current_state = match RIDAircraftState::try_from(state) {
        Ok(s) => s,
        Err(e) => {
            return Err(e);
        },
    };

    let aircraft_type = match AircraftType::from_i32(f.aircraft_type) {
        Some(t) => t,
        None => AircraftType::Undeclared,
    };

    let n = f.positions.len();
    let mut recent_positions: Vec<RIDRecentAircraftPosition> = Vec::new();
    let mut i: usize = 0;
    while i < n
        invariant
            i <= n == f.positions@.len(),
            recent_positions@.len() == i,
            forall|j: int|
                0 <= j < i ==> recent_convertible(#[trigger] f.positions@[j])
                    && translates_recent(f.positions@[j], recent_positions@[j]),
        decreases n - i,
    {
        let p = f.positions[i];
        match RIDRecentAircraftPosition::try_from(p) {
            Ok(rp) => recent_positions.push(rp),
            Err(e) => {
                return Err(e);
            },
        }
        i = i + 1;
    }

    let id = match &f.session_id {
        Some(s) => s.clone(),
        None => match &f.aircraft_id {
            Some(a) => a.clone(),
            None => "UNK".to_owned(),
        },
    };

    Ok(
        RIDFlight {
            id,
            aircraft_type: UAType::from(aircraft_type),
            current_state,
            operating_area: OperatingArea { aircraft_count: 0, volumes: Vec::new() },
            simulated: f.simulated,
            recent_positions,
        },
    )
}

impl RIDFlight {
    /// Converts a whole flight record; see [`translate_flight`].
    pub fn try_from(f: GisFlight) -> (r: Result<RIDFlight, DiscoveryError>)
        ensures
            r matches Ok(out) ==> flight_convertible(f) && translates_flight(f, out),
            r matches Err(e) ==> e == DiscoveryError::InternalTranslation && !flight_convertible(
                f,
            ),
    {
        translate_flight(&f)
    }
}

/// Whether some record of the batch lacks a field its translation requires.
pub open spec fn any_unconvertible(s: Seq<GisFlight>) -> bool {
    exists|i: int| 0 <= i < s.len() && !flight_convertible(#[trigger] s[i])
}

/// Translates every backend record, or fails on the first defective one:
/// a response is either translated whole or not at all.
pub fn translate_flights(flights: Vec<GisFlight>) -> (r: Result<Vec<RIDFlight>, DiscoveryError>)
    ensures
        r matches Ok(out) ==> {
            &&& out@.len() == flights@.len()
            &&& forall|i: int|
                0 <= i < flights@.len() ==> flight_convertible(#[trigger] flights@[i])
                    && translates_flight(flights@[i], out@[i])
        },
        r matches Err(e) ==> e == DiscoveryError::InternalTranslation && any_unconvertible(
            flights@,
        ),
{
    let n = flights.len();
    let mut out: Vec<RIDFlight> = Vec::new();
    let mut i: usize = 0;
    while i < n
        invariant
            i <= n == flights@.len(),
            out@.len() == i,
            forall|j: int|
                0 <= j < i ==> flight_convertible(#[trigger] flights@[j]) && translates_flight(
                    flights@[j],
                    out@[j],
                ),
        decreases n - i,
    {
        match translate_flight(&flights[i]) {
            Ok(rf) => out.push(rf),
            Err(e) => {
                proof {
                    assert(any_unconvertible(flights@)) by {
                        assert(!flight_convertible(flights@[i as int]));
                    }
                }
                return Err(e);
            },
        }
        i = i + 1;
    }
    Ok(out)
}

} // verus!
