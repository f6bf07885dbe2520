//! The query pipeline end to end, the health verdict, configuration and
//! OpenAPI export, with the backend transport simulated around the library.

use geo::{Distance, Haversine, Point};
use svc_discovery::config::Config;
use svc_discovery::error::DiscoveryError;
use svc_discovery::gis::ReadyRequest;
use svc_discovery::health::{health_check, GRPCServerImpl};
use svc_discovery::openapi::{generate_openapi_spec, OpenApiError};
use svc_discovery::query::{
    assemble_response, check_isas, prepare_recent_flights, recent_flights_outcome,
};
use svc_discovery::rid::{GetFlightsResponse, Time};
use svc_discovery::window::{
    enforce_area_limit, validate_get_flights_request, Window, MAX_DISPLAY_AREA_DIAGONAL_MM,
};

/// Corner-to-corner great-circle distance of a window, in millimetres.
fn diagonal_mm(w: &Window) -> u64 {
    let p1 = Point::new(w.lon1 as f64 / 1e9, w.lat1 as f64 / 1e9);
    let p2 = Point::new(w.lon2 as f64 / 1e9, w.lat2 as f64 / 1e9);
    (Haversine.distance(p1, p2) * 1000.0).round() as u64
}

/// The flight-query pipeline as the REST layer runs it, with an empty
/// backend standing in for the geospatial service.
fn run_query(
    view: &str,
    duration_us: i64,
    limit_mm: Option<u64>,
) -> Result<GetFlightsResponse, DiscoveryError> {
    let window = validate_get_flights_request(view, duration_us)?;
    enforce_area_limit(diagonal_mm(&window), limit_mm)?;
    let flights = match prepare_recent_flights(&window, duration_us)? {
        None => vec![],
        // The backend of the tests answers every query with no flights.
        Some(_request) => recent_flights_outcome(Some(vec![]))?,
    };
    let isas_present = check_isas(&window)?;
    Ok(assemble_response(flights, isas_present))
}

#[test]
fn test_get_recent_flights() {
    let window = Window {
        lon1: 4_850_067_000,
        lat1: 52_392_365_000,
        lon2: 4_906_068_000,
        lat2: 52_371_385_000,
    };

    // outside of the allowable timeframe
    let e = prepare_recent_flights(&window, -100).unwrap_err();
    assert_eq!(e, DiscoveryError::InvalidInput);

    // outside of the allowable timeframe
    let e = prepare_recent_flights(&window, 60_000_100).unwrap_err();
    assert_eq!(e, DiscoveryError::InvalidInput);

    // valid request, but no lookback: no backend query at all
    assert!(prepare_recent_flights(&window, 0).unwrap().is_none());

    // invalid window
    let window_bad_lat = Window {
        lon1: 4_850_067_000,
        lat1: 52_392_365_000,
        lon2: 4_959_106_000,
        lat2: 90_000_100_000,
    };
    let error = prepare_recent_flights(&window_bad_lat, 59_000_000).unwrap_err();
    assert_eq!(error, DiscoveryError::InvalidInput);

    let window_bad_lon = Window {
        lon1: 4_850_067_000,
        lat1: 52_392_365_000,
        lon2: 180_001_000_000,
        lat2: 52_364_510_000,
    };
    let error = prepare_recent_flights(&window_bad_lon, 59_000_000).unwrap_err();
    assert_eq!(error, DiscoveryError::InvalidInput);

    // valid request
    let window_ok = Window {
        lon1: 4_850_067_000,
        lat1: 52_392_365_000,
        lon2: 4_959_106_000,
        lat2: 52_364_510_000,
    };
    let request = prepare_recent_flights(&window_ok, 59_000_000).unwrap().unwrap();
    assert_eq!(request.window_min_x, window_ok.lon1);
    assert_eq!(request.window_min_y, window_ok.lat1);
    assert_eq!(request.window_max_x, window_ok.lon2);
    assert_eq!(request.window_max_y, window_ok.lat2);
    assert_eq!(request.time_end_us - request.time_start_us, 59_000_000);
    let flights = recent_flights_outcome(Some(vec![])).unwrap();
    assert!(flights.is_empty());
}

#[test]
fn test_demo_flights() {
    // valid window
    let response = run_query("0.0,0.0,0.0,0.0", 0, None).unwrap();
    assert!(response.flights.is_empty());
    assert!(response.no_isas_present);

    // invalid window
    let e = run_query("0.0,0.0,0.0", 0, None).unwrap_err();
    assert_eq!(e, DiscoveryError::InvalidInput);

    // invalid window
    let e = run_query("0.0,0.0,0.0,180.0001", 0, None).unwrap_err();
    assert_eq!(e, DiscoveryError::InvalidInput);

    let e = run_query("0.0,0.0,90.001,0.0", 0, None).unwrap_err();
    assert_eq!(e, DiscoveryError::InvalidInput);
}

#[test]
fn test_get_flights_recent_positions() {
    let e = run_query("0.0,0.0,0.0", -100, Some(MAX_DISPLAY_AREA_DIAGONAL_MM)).unwrap_err();
    assert_eq!(e, DiscoveryError::InvalidInput);

    let e = run_query("0.0,0.0,0.0,0.0", 60_000_100, Some(MAX_DISPLAY_AREA_DIAGONAL_MM))
        .unwrap_err();
    assert_eq!(e, DiscoveryError::InvalidInput);

    // valid request
    let _ = run_query("0.0,0.0,0.0,0.0", 0, Some(MAX_DISPLAY_AREA_DIAGONAL_MM)).unwrap();
}

#[test]
fn test_get_flights_view() {
    // invalid - too many coordinates
    let e = run_query("0.0,0.0,0.0,0.0,0.0", 0, Some(MAX_DISPLAY_AREA_DIAGONAL_MM)).unwrap_err();
    assert_eq!(e, DiscoveryError::InvalidInput);

    // invalid - too few coordinates
    let e = run_query("0.0,0.0,0.0", 0, Some(MAX_DISPLAY_AREA_DIAGONAL_MM)).unwrap_err();
    assert_eq!(e, DiscoveryError::InvalidInput);

    for view in [
        "-90.01,0,0,0",
        "90.01,0,0,0",
        "0,-180.01,0,0",
        "0,180.01,0,0",
        "0,0,-90.01,0",
        "0,0,90.01,0",
        "0,0,0,-180.01",
        "0,0,0,180.01",
    ] {
        let e = run_query(view, 0, Some(MAX_DISPLAY_AREA_DIAGONAL_MM)).unwrap_err();
        assert_eq!(e, DiscoveryError::InvalidInput, "view {:?}", view);
    }

    // invalid - too large
    let e = run_query(
        "52.392365,4.850067,52.364510,4.959106",
        0,
        Some(MAX_DISPLAY_AREA_DIAGONAL_MM),
    )
    .unwrap_err();
    assert_eq!(e, DiscoveryError::AreaTooLarge);

    // valid request
    let _ = run_query(
        "52.392365,4.850067,52.371385,4.906068",
        0,
        Some(MAX_DISPLAY_AREA_DIAGONAL_MM),
    )
    .unwrap();
}

#[test]
fn transport_failure_is_backend_unavailable() {
    let e = recent_flights_outcome(None).unwrap_err();
    assert_eq!(e, DiscoveryError::BackendUnavailable);
}

#[test]
fn test_health_check() {
    assert!(health_check(true));
    assert!(!health_check(false));
}

#[test]
fn grpc_server_reports_ready() {
    let server = GRPCServerImpl {};
    assert!(server.is_ready(ReadyRequest {}).ready);
}

#[test]
fn check_isas_reports_none_present() {
    let window = Window { lat1: 0, lon1: 0, lat2: 0, lon2: 0 };
    assert_eq!(check_isas(&window).unwrap(), false);
    let response = assemble_response(vec![], false);
    assert!(response.no_isas_present);
}

#[test]
fn response_is_stamped_in_rfc3339() {
    let response = GetFlightsResponse::default();
    assert_eq!(response.timestamp.format, "RFC3339");
    assert!(response.flights.is_empty());
    assert!(!response.no_isas_present);

    let stamp = Time::default();
    assert_eq!(stamp.format, "RFC3339");
    // the stamp parses back as RFC 3339 with millisecond precision
    let parsed = chrono::DateTime::parse_from_rfc3339(&stamp.value).unwrap();
    assert!(stamp.value.ends_with('Z'));
    assert!(parsed.timestamp() >= 0);
}

#[test]
fn test_config_new() {
    let config = Config::new();
    assert_eq!(config.docker_port_grpc, 50051);
    assert_eq!(config.docker_port_rest, 8000);
    assert_eq!(config.log_config, "log4rs.yaml");
    assert_eq!(config.gis_host_grpc, "localhost");
    assert_eq!(config.gis_port_grpc, 50052);
    assert_eq!(config.dss_host, "localhost");
    assert_eq!(config.dss_port, 50054);
    assert_eq!(config.oauth_host, "localhost");
    assert_eq!(config.oauth_port, 50053);
    assert_eq!(config.rest_request_limit_per_second, 2);
    assert_eq!(config.rest_concurrency_limit_per_service, 5);
    assert_eq!(config.rest_cors_allowed_origin, "http://localhost:3000");
    assert_eq!(Config::default(), config);
}

#[test]
fn test_generate_openapi_spec() {
    let target = "/nonsense/";
    let error = generate_openapi_spec(target, Some("{}".to_string())).unwrap_err();
    assert_eq!(error, OpenApiError::FileWrite);
}

#[test]
fn generate_openapi_spec_outcomes() {
    let e = generate_openapi_spec("spec.json", None).unwrap_err();
    assert_eq!(e, OpenApiError::Json);
    assert_eq!(e.message(), "Failed to export as JSON string");
    let e = generate_openapi_spec("", Some("{}".to_string())).unwrap_err();
    assert_eq!(e, OpenApiError::FileWrite);
    assert_eq!(e.message(), "Failed to write to file");
    let out = generate_openapi_spec("spec.json", Some("{\"openapi\":\"3.0\"}".to_string()))
        .unwrap();
    assert_eq!(out, "{\"openapi\":\"3.0\"}");
}
