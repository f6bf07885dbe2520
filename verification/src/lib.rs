//! Core logic of an airspace-awareness discovery service.
//!
//! The library answers "which aircraft are in this area" queries: it validates
//! a caller-supplied bounding box and lookback duration, enforces an
//! area-size policy, plans the query against a geospatial backend, and
//! translates the backend's flight records into a standardized remote
//! identification (RID) response schema.
//!
//! Geographic coordinates are handled as fixed-point nanodegrees (10^-9 of a
//! degree) so that parsing, range checks and window handling are exact.
//! Kinematic readings that this service merely relays (positions, speeds,
//! track angles) are carried as raw IEEE-754 bit patterns that the library
//! never interprets; the surrounding program encodes and decodes them.

pub mod clock;
pub mod config;
pub mod decimal;
pub mod error;
pub mod gis;
pub mod health;
pub mod openapi;
pub mod query;
pub mod rid;
pub mod translate;
pub mod window;

pub use config::Config;
pub use error::DiscoveryError;
