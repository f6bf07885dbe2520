//! Configuration options of the service.
//!
//! Loading from the environment happens outside the library; the library
//! defines the shape of the configuration and its default values.

use vstd::prelude::*;

verus! {

/// Options of the two servers and of the backend connection.
#[derive(Debug, Clone, PartialEq)]
pub struct Config {
    /// Port of the gRPC server.
    pub docker_port_grpc: u16,
    /// Port of the REST server.
    pub docker_port_rest: u16,
    /// Path to the log configuration file.
    pub log_config: String,
    /// Host of the geospatial backend's gRPC server.
    pub gis_host_grpc: String,
    /// Port of the geospatial backend's gRPC server.
    pub gis_port_grpc: u16,
    /// Host of the DSS.
    pub dss_host: String,
    /// Port of the DSS.
    pub dss_port: u16,
    /// Host of the OAuth server.
    pub oauth_host: String,
    /// Port of the OAuth server.
    pub oauth_port: u16,
    /// REST requests allowed per second.
    pub rest_request_limit_per_second: u8,
    /// Concurrent REST requests the service accepts.
    pub rest_concurrency_limit_per_service: u8,
    /// Origin allowed in cross-origin REST requests.
    pub rest_cors_allowed_origin: String,
}

/// The default values of every option.
pub open spec fn config_is_default(c: Config) -> bool {
    &&& c.docker_port_grpc == 50051
    &&& c.docker_port_rest == 8000
    &&& c.log_config@ == "log4rs.yaml"@
    &&& c.gis_host_grpc@ == "localhost"@
    &&& c.gis_port_grpc == 50052
    &&& c.dss_host@ == "localhost"@
    &&& c.dss_port == 50054
    &&& c.oauth_host@ == "localhost"@
    &&& c.oauth_port == 50053
    &&& c.rest_request_limit_per_second == 2
    &&& c.rest_concurrency_limit_per_service == 5
    &&& c.rest_cors_allowed_origin@ == "http://localhost:3000"@
}

impl Config {
    /// The default configuration.
    pub fn new() -> (c: Config)
        ensures
            config_is_default(c),
    {
        Config {
            docker_port_grpc: 50051,
            docker_port_rest: 8000,
            log_config: "log4rs.yaml".to_owned(),
            gis_host_grpc: "localhost".to_owned(),
            gis_port_grpc: 50052,
            dss_host: "localhost".to_owned(),
            dss_port: 50054,
            oauth_host: "localhost".to_owned(),
            oauth_port: 50053,
            rest_request_limit_per_second: 2,
            rest_concurrency_limit_per_service: 5,
            rest_cors_allowed_origin: "http://localhost:3000".to_owned(),
        }
    }
}

impl Default for Config {
    fn default() -> (c: Config)
        ensures
            config_is_default(c),
    {
        Config::new()
    }
}

/// Command-line options.
#[derive(Debug, Clone, PartialEq)]
pub struct Cli {
    /// Target file for the OpenAPI document, if one is to be written.
    pub openapi: Option<String>,
}

} // verus!
