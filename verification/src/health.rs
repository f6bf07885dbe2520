//! Liveness of this service and of its dependencies.

use vstd::prelude::*;
use crate::gis::{ReadyRequest, ReadyResponse};

verus! {

/// Aggregate health: healthy exactly when every dependency probe
/// succeeded. The geospatial backend is the only dependency; the caller
/// probes it and reports only whether the probe succeeded, never its
/// transport detail.
pub fn health_check(gis_ready: bool) -> (healthy: bool)
    ensures
        healthy == gis_ready,
{
    gis_ready
}

/// This service's own gRPC surface.
#[derive(Debug, Clone, Copy, PartialEq, Eq, Structural)]
pub struct GRPCServerImpl {}

impl GRPCServerImpl {
    /// Readiness of this service itself: always ready once running.
    pub fn is_ready(&self, _request: ReadyRequest) -> (r: ReadyResponse)
        ensures
            r.ready,
    {
        ReadyResponse { ready: true }
    }
}

} // verus!
