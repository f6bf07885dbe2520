//! Translation of backend records into the RID schema.

use chrono::{SecondsFormat, Utc};
use svc_discovery::error::DiscoveryError;
use svc_discovery::gis::{
    AircraftType, GisAircraftState, GisFlight, GisPointZ, GisTimePosition, GisTimestamp,
    OperationalStatus,
};
use svc_discovery::rid::{
    HorizontalAccuracy, RIDAircraftState, RIDFlight, RIDHeightReference, RIDOperationalStatus,
    RIDRecentAircraftPosition, SpeedAccuracy, UAType, VerticalAccuracy,
};
use svc_discovery::translate::translate_flights;

fn now_gis() -> (GisTimestamp, String) {
    let now = Utc::now();
    let ts = GisTimestamp {
        seconds: now.timestamp(),
        nanos: now.timestamp_subsec_nanos() as i32,
    };
    (ts, now.to_rfc3339_opts(SecondsFormat::Millis, true))
}

fn random_point() -> GisPointZ {
    GisPointZ {
        latitude: rand::random::<f64>().to_bits(),
        longitude: rand::random::<f64>().to_bits(),
        altitude_meters: rand::random::<f32>().to_bits(),
    }
}

#[test]
fn test_from_uatype() {
    assert_eq!(UAType::from(AircraftType::Undeclared), UAType::NotDeclared);
    assert_eq!(UAType::from(AircraftType::Aeroplane), UAType::Aeroplane);
    assert_eq!(UAType::from(AircraftType::Glider), UAType::Glider);
    assert_eq!(UAType::from(AircraftType::Gyroplane), UAType::Gyroplane);
    assert_eq!(UAType::from(AircraftType::Ornithopter), UAType::Ornithopter);
    assert_eq!(UAType::from(AircraftType::Hybridlift), UAType::HybridLift);
    assert_eq!(UAType::from(AircraftType::Kite), UAType::Kite);
    assert_eq!(UAType::from(AircraftType::Freeballoon), UAType::FreeBalloon);
    assert_eq!(UAType::from(AircraftType::Captiveballoon), UAType::CaptiveBalloon);
    assert_eq!(UAType::from(AircraftType::Airship), UAType::Airship);
    assert_eq!(UAType::from(AircraftType::Rocket), UAType::Rocket);
    assert_eq!(UAType::from(AircraftType::Tethered), UAType::TetheredPoweredAircraft);
    assert_eq!(UAType::from(AircraftType::Groundobstacle), UAType::GroundObstacle);
    assert_eq!(UAType::from(AircraftType::Other), UAType::Other);
    assert_eq!(UAType::from(AircraftType::Unpowered), UAType::FreeFallOrParachute);
    assert_eq!(UAType::from(AircraftType::Rotorcraft), UAType::Helicopter);
}

#[test]
fn from_operational_status() {
    assert_eq!(
        RIDOperationalStatus::from(OperationalStatus::Undeclared),
        RIDOperationalStatus::Undeclared
    );
    assert_eq!(
        RIDOperationalStatus::from(OperationalStatus::Ground),
        RIDOperationalStatus::Ground
    );
    assert_eq!(
        RIDOperationalStatus::from(OperationalStatus::Airborne),
        RIDOperationalStatus::Airborne
    );
    assert_eq!(
        RIDOperationalStatus::from(OperationalStatus::Emergency),
        RIDOperationalStatus::Emergency
    );
    assert_eq!(
        RIDOperationalStatus::from(OperationalStatus::RemoteIdSystemFailure),
        RIDOperationalStatus::RemoteIDSystemFailure
    );
}

#[test]
fn test_from_aircraft_state() {
    let expected_point = random_point();
    let (ts, expected_time) = now_gis();

    let mut state = GisAircraftState {
        timestamp: Some(ts),
        status: 0,
        position: Some(expected_point),
        track_angle_degrees: rand::random::<f32>().to_bits(),
        ground_speed_mps: rand::random::<f32>().to_bits(),
        vertical_speed_mps: rand::random::<f32>().to_bits(),
    };

    let _: RIDAircraftState = RIDAircraftState::try_from(state).unwrap();

    state.timestamp = None;
    let error = RIDAircraftState::try_from(state).unwrap_err();
    assert_eq!(error, DiscoveryError::InternalTranslation);

    state.timestamp = Some(ts);

    state.position = None;
    let error = RIDAircraftState::try_from(state).unwrap_err();
    assert_eq!(error, DiscoveryError::InternalTranslation);
    state.position = Some(expected_point);

    state.status = 100;
    let error = RIDAircraftState::try_from(state).unwrap_err();
    assert_eq!(error, DiscoveryError::InternalTranslation);

    state.status = 0;

    let result = RIDAircraftState::try_from(state).unwrap();
    assert_eq!(result.timestamp.value, expected_time);
    assert_eq!(result.operational_status, RIDOperationalStatus::Undeclared);
    assert_eq!(result.position.lat, expected_point.latitude);
    assert_eq!(result.position.lng, expected_point.longitude);
    assert_eq!(result.position.alt, expected_point.altitude_meters);
    assert_eq!(result.position.accuracy_h, HorizontalAccuracy::HAUnknown);
    assert_eq!(result.position.accuracy_v, VerticalAccuracy::VAUnknown);
    assert_eq!(result.position.extrapolated, false);
    assert_eq!(result.position.pressure_alt, expected_point.altitude_meters);
    assert_eq!(result.position.height.distance, expected_point.altitude_meters);
    assert_eq!(result.position.height.reference, RIDHeightReference::GroundLevel);
    assert_eq!(result.track, state.track_angle_degrees);
    assert_eq!(result.speed, state.ground_speed_mps);
    assert_eq!(result.speed_accuracy, SpeedAccuracy::SAUnknown);
    assert_eq!(result.vertical_speed, state.vertical_speed_mps);
}

#[test]
fn test_from_recent_aircraft_position() {
    let expected_point = random_point();
    let (ts, expected_time) = now_gis();

    let mut position = GisTimePosition { timestamp: Some(ts), position: Some(expected_point) };

    let _: RIDRecentAircraftPosition = RIDRecentAircraftPosition::try_from(position).unwrap();

    position.timestamp = None;
    let error = RIDRecentAircraftPosition::try_from(position).unwrap_err();
    assert_eq!(error, DiscoveryError::InternalTranslation);

    position.timestamp = Some(ts);

    position.position = None;
    let error = RIDRecentAircraftPosition::try_from(position).unwrap_err();
    assert_eq!(error, DiscoveryError::InternalTranslation);
    position.position = Some(expected_point);

    let result = RIDRecentAircraftPosition::try_from(position).unwrap();
    assert_eq!(result.time.value, expected_time);
    assert_eq!(result.position.lat, expected_point.latitude);
    assert_eq!(result.position.lng, expected_point.longitude);
    assert_eq!(result.position.alt, expected_point.altitude_meters);
    assert_eq!(result.position.accuracy_h, HorizontalAccuracy::HAUnknown);
    assert_eq!(result.position.accuracy_v, VerticalAccuracy::VAUnknown);
    assert_eq!(result.position.extrapolated, false);
    assert_eq!(result.position.pressure_alt, expected_point.altitude_meters);
    assert_eq!(result.position.height.distance, expected_point.altitude_meters);
    assert_eq!(result.position.height.reference, RIDHeightReference::GroundLevel);
}

fn sample_state(point: GisPointZ, ts: GisTimestamp) -> GisAircraftState {
    GisAircraftState {
        timestamp: Some(ts),
        status: 0,
        position: Some(point),
        track_angle_degrees: rand::random::<f32>().to_bits(),
        ground_speed_mps: rand::random::<f32>().to_bits(),
        vertical_speed_mps: rand::random::<f32>().to_bits(),
    }
}

#[test]
fn test_from_flight() {
    let expected_point = random_point();
    let (ts, _) = now_gis();

    let mut flight = GisFlight {
        session_id: Some("session_id".to_string()),
        aircraft_id: Some("aircraft_id".to_string()),
        aircraft_type: 0,
        simulated: false,
        state: Some(sample_state(expected_point, ts)),
        positions: vec![GisTimePosition { timestamp: Some(ts), position: Some(expected_point) }],
    };

    let _: RIDFlight = RIDFlight::try_from(flight.clone()).unwrap();

    // IDs
    flight.session_id = None;
    flight.aircraft_id = None;
    let state = RIDFlight::try_from(flight.clone()).unwrap();
    assert_eq!(state.id, "UNK".to_string());

    flight.aircraft_id = Some("aircraft_id".to_string());
    let state = RIDFlight::try_from(flight.clone()).unwrap();
    assert_eq!(state.id, "aircraft_id".to_string());

    flight.session_id = Some("session_id".to_string());
    let state = RIDFlight::try_from(flight.clone()).unwrap();
    assert_eq!(state.id, "session_id".to_string());

    flight.aircraft_type = 100;
    let state = RIDFlight::try_from(flight.clone()).unwrap();
    assert_eq!(state.aircraft_type, UAType::NotDeclared);

    // invalid state
    flight.state = None;
    let error = RIDFlight::try_from(flight.clone()).unwrap_err();
    assert_eq!(error, DiscoveryError::InternalTranslation);
    flight.state = Some(sample_state(expected_point, ts));
}

#[test]
fn flight_carries_empty_operating_area() {
    let (ts, _) = now_gis();
    let flight = GisFlight {
        session_id: None,
        aircraft_id: None,
        aircraft_type: 2,
        simulated: true,
        state: Some(sample_state(random_point(), ts)),
        positions: vec![],
    };
    let out = RIDFlight::try_from(flight).unwrap();
    assert_eq!(out.aircraft_type, UAType::Helicopter);
    assert!(out.simulated);
    assert_eq!(out.operating_area.aircraft_count, 0);
    assert!(out.operating_area.volumes.is_empty());
    assert!(out.recent_positions.is_empty());
}

#[test]
fn translate_flights_is_all_or_nothing() {
    let (ts, _) = now_gis();
    let good = GisFlight {
        session_id: Some("a".to_string()),
        aircraft_id: None,
        aircraft_type: 1,
        simulated: false,
        state: Some(sample_state(random_point(), ts)),
        positions: vec![],
    };
    let mut bad = good.clone();
    bad.state = None;

    let out = translate_flights(vec![good.clone(), good.clone()]).unwrap();
    assert_eq!(out.len(), 2);
    assert_eq!(out[0].id, "a".to_string());
    assert_eq!(out[0].aircraft_type, UAType::Aeroplane);

    let e = translate_flights(vec![good.clone(), bad]).unwrap_err();
    assert_eq!(e, DiscoveryError::InternalTranslation);

    assert!(translate_flights(vec![]).unwrap().is_empty());
}

#[test]
fn unnormalized_timestamp_is_a_translation_error() {
    let point = random_point();
    let state = GisAircraftState {
        // nanoseconds out of range: the record is defective
        timestamp: Some(GisTimestamp { seconds: 0, nanos: -1 }),
        status: 0,
        position: Some(point),
        track_angle_degrees: 0,
        ground_speed_mps: 0,
        vertical_speed_mps: 0,
    };
    let e = RIDAircraftState::try_from(state).unwrap_err();
    assert_eq!(e, DiscoveryError::InternalTranslation);
}
