//! Error taxonomy of the discovery core.

use vstd::prelude::*;

verus! {

/// Why a flight query could not be answered.
///
/// Every failure of the core is classified as one of these; the REST layer
/// maps the classification to an HTTP status and exposes no further detail.
#[derive(Debug, Clone, Copy, PartialEq, Eq, Structural)]
pub enum DiscoveryError {
    /// Malformed or out-of-range user input; always user-recoverable.
    InvalidInput,
    /// Valid input rejected by the maximum-display-area policy.
    AreaTooLarge,
    /// A required backend field was absent or had an unexpected shape.
    InternalTranslation,
    /// The geospatial backend could not be reached.
    BackendUnavailable,
}

impl DiscoveryError {
    /// The HTTP status class this error is reported as.
    pub fn status_code(&self) -> (code: u16)
        ensures
            code == self.spec_status_code(),
    {
        match self {
            DiscoveryError::InvalidInput => 400,
            DiscoveryError::AreaTooLarge => 413,
            DiscoveryError::InternalTranslation => 500,
            DiscoveryError::BackendUnavailable => 500,
        }
    }

    /// The status each variant maps to: `InvalidInput` is a client error,
    /// `AreaTooLarge` a payload rejection, the rest are server failures.
    pub open spec fn spec_status_code(&self) -> u16 {
        match self {
            DiscoveryError::InvalidInput => 400,
            DiscoveryError::AreaTooLarge => 413,
            DiscoveryError::InternalTranslation => 500,
            DiscoveryError::BackendUnavailable => 500,
        }
    }
}

} // verus!
