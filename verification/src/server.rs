//! The settings of a server that hands out generated data, and what it
//! tells of itself.

use crate::text::{integer_chars, integer_string};
use vstd::prelude::*;
use vstd::string::*;

verus! {

/// How many requests a client may make.
#[derive(Debug, Clone, Copy, PartialEq, Eq, Structural)]
pub struct RateLimitConfig {
    pub requests_per_second: u32,
    pub burst_size: u32,
}

/// The settings of the server.
#[derive(Debug, Clone)]
pub struct ServerConfig {
    pub port: u16,
    pub host: String,
    pub enable_websocket: bool,
    pub enable_swagger: bool,
    pub max_connections: usize,
    pub rate_limit: Option<RateLimitConfig>,
    pub cors_origins: Vec<String>,
    pub api_prefix: String,
    pub log_level: String,
}

impl Default for ServerConfig {
    /// Port 8080 on every address, with web sockets and the API pages, a
    /// thousand connections, a hundred requests a second, every origin, the
    /// prefix `/api/v1` and the log level `info`.
    fn default() -> (r: ServerConfig)
        ensures
            r.port == 8080,
            r.host@ == "0.0.0.0"@,
            r.enable_websocket,
            r.enable_swagger,
            r.max_connections == 1000,
            r.rate_limit == Some(RateLimitConfig { requests_per_second: 100, burst_size: 200 }),
            r.cors_origins@.len() == 1,
            r.cors_origins@[0]@ == "*"@,
            r.api_prefix@ == "/api/v1"@,
            r.log_level@ == "info"@,
    {
        let mut origins: Vec<String> = Vec::new();
        origins.push(String::from_str("*"));
        ServerConfig {
            port: 8080,
            host: String::from_str("0.0.0.0"),
            enable_websocket: true,
            enable_swagger: true,
            max_connections: 1000,
            rate_limit: Some(RateLimitConfig { requests_per_second: 100, burst_size: 200 }),
            cors_origins: origins,
            api_prefix: String::from_str("/api/v1"),
            log_level: String::from_str("info"),
        }
    }
}

impl ServerConfig {
    /// The address that the server listens on: the host, a colon, and the
    /// port in decimal digits.
    pub fn socket_addr(&self) -> (r: String)
        ensures
            r@ == self.host@ + ":"@ + integer_chars(self.port as int),
    {
        let digits = integer_string(self.port as i128);
        self.host.clone().concat(":").concat(digits.as_str())
    }
}

/// The shape in which data is asked for.
#[derive(Debug, Clone, Copy, PartialEq, Eq, Structural)]
pub enum DataFormat {
    Ohlc,
    Tick,
    Both,
}

impl Default for DataFormat {
    fn default() -> (r: DataFormat)
        ensures
            r == DataFormat::Ohlc,
    {
        DataFormat::Ohlc
    }
}

/// A preset configuration, as the server lists it.
#[derive(Debug, Clone)]
pub struct PresetInfo {
    pub name: String,
    pub description: String,
    pub algorithm: String,
    pub suitable_for: Vec<String>,
}

/// How the server streams data.
#[derive(Debug, Clone)]
pub struct WebSocketInfo {
    pub endpoint: String,
    pub protocols: Vec<String>,
    pub message_types: Vec<String>,
    pub max_subscriptions_per_connection: u32,
}

/// How many requests a client may make, as the server tells it.
#[derive(Debug, Clone, Copy, PartialEq, Eq, Structural)]
pub struct RateLimitInfo {
    pub requests_per_second: u32,
    pub burst_size: u32,
}

/// The limits of the server.
#[derive(Debug, Clone, Copy, PartialEq, Eq, Structural)]
pub struct ApiLimits {
    pub max_data_points_per_request: u32,
    pub max_symbols: u32,
    pub max_websocket_connections: u32,
    pub rate_limit: Option<RateLimitInfo>,
}

} // verus!
