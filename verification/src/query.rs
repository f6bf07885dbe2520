//! Sequencing of a flight query.
//!
//! The two public operations — standard and demo — run the same pipeline:
//! validate the inputs, enforce the area policy (standard only), plan the
//! backend query, translate what the backend returned, and assemble the
//! response. The surrounding program performs the backend transport and the
//! great-circle measurement between those steps and feeds every outcome
//! back in; every decision is made here.

use vstd::prelude::*;
use crate::clock::{is_rfc3339_stamp, utc_now_us};
use crate::error::DiscoveryError;
use crate::gis::{GisFlight, GisFlightsRequest};
use crate::rid::{GetFlightsResponse, RIDFlight, Time};
use crate::translate::{any_unconvertible, flight_convertible, translate_flights, translates_flight};
use crate::window::{duration_valid, Window, MAX_DURATION_US};

verus! {

/// The query's time range covers the lookback duration and ends at the
/// moment the query was planned, saturating at the representable minimum.
pub open spec fn times_consistent(req: GisFlightsRequest, duration_us: int) -> bool {
    (req.time_start_us as int) == if (req.time_end_us as int) - duration_us >= (i64::MIN as int) {
        (req.time_end_us as int) - duration_us
    } else {
        i64::MIN as int
    }
}

/// Whether `req` queries exactly the corners of `window`.
pub open spec fn req_covers_window(req: GisFlightsRequest, window: Window) -> bool {
    &&& req.window_min_x == window.lon1
    &&& req.window_min_y == window.lat1
    &&& req.window_max_x == window.lon2
    &&& req.window_max_y == window.lat2
}

/// Plans the backend query for recent flights.
///
/// A duration outside `[0, 60]` seconds is rejected before anything else; a
/// duration of exactly zero yields no query at all — the flight list is
/// known to be empty and the backend must not be asked; only then are the
/// window's bounds re-checked, since a window assembled by hand may carry
/// anything.
pub fn prepare_recent_flights(window: &Window, duration_us: i64) -> (r: Result<
    Option<GisFlightsRequest>,
    DiscoveryError,
>)
    ensures
        match r {
            Ok(req) => {
                &&& duration_valid(duration_us as int)
                &&& (req is None <==> duration_us == 0)
                &&& (req matches Some(q) ==> {
                    &&& window.wf()
                    &&& req_covers_window(q, *window)
                    &&& times_consistent(q, duration_us as int)
                })
            },
            Err(e) => {
                &&& e == DiscoveryError::InvalidInput
                &&& (!duration_valid(duration_us as int) || (duration_us != 0 && !window.wf()))
            },
        },
{
    if duration_us < 0 || duration_us > MAX_DURATION_US {
        return Err(DiscoveryError::InvalidInput);
    }
    if duration_us == 0 {
        return Ok(None);
    }
    if !window.check_bounds() {
        return Err(DiscoveryError::InvalidInput);
    }
    let now = utc_now_us();
    let start = if now >= i64::MIN + duration_us {
        now - duration_us
    } else {
        i64::MIN
    };
    Ok(
        Some(
            GisFlightsRequest {
                window_min_x: window.lon1,
                window_min_y: window.lat1,
                window_max_x: window.lon2,
                window_max_y: window.lat2,
                time_start_us: start,
                time_end_us: now,
            },
        ),
    )
}

/// Turns the backend call's outcome into the flight list.
///
/// A transport failure (`None`) is reported as `BackendUnavailable`; a
/// delivered batch is translated whole or fails as `InternalTranslation`.
pub fn recent_flights_outcome(outcome: Option<Vec<GisFlight>>) -> (r: Result<
    Vec<RIDFlight>,
    DiscoveryError,
>)
    ensures
        match outcome {
            None => r == Err::<Vec<RIDFlight>, DiscoveryError>(DiscoveryError::BackendUnavailable),
            Some(flights) => match r {
                Ok(out) => {
                    &&& out@.len() == flights@.len()
                    &&& forall|i: int|
                        0 <= i < flights@.len() ==> flight_convertible(#[trigger] flights@[i])
                            && translates_flight(flights@[i], out@[i])
                },
                Err(e) => e == DiscoveryError::InternalTranslation && any_unconvertible(flights@),
            },
        },
{
    match outcome {
        None => Err(DiscoveryError::BackendUnavailable),
        Some(flights) => translate_flights(flights),
    }
}

/// Whether identification service areas exist for the window; the backend
/// offers no such query yet, so none are ever reported. Kept as a stub.
pub fn check_isas(_window: &Window) -> (r: Result<bool, DiscoveryError>)
    ensures
        r == Ok::<bool, DiscoveryError>(false),
{
    Ok(false)
}

/// Assembles the response from the translated flights and the outcome of
/// the area check, stamped with the instant of assembly rather than the
/// instant of the query.
pub fn assemble_response(flights: Vec<RIDFlight>, isas_present: bool) -> (r: GetFlightsResponse)
    ensures
        r.flights == flights,
        r.no_isas_present == !isas_present,
        r.timestamp.format@ == "RFC3339"@,
        is_rfc3339_stamp(r.timestamp.value@),
{
    GetFlightsResponse {
        timestamp: Time::default(),
        flights,
        no_isas_present: !isas_present,
    }
}

} // verus!
