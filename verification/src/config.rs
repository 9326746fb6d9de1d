//! Plugin configuration — as loaded from `config/config.toml`.
//!
//! See `config/config.toml.example` for a fully annotated reference.

use vstd::prelude::*;
use crate::logging::LoggingConfig;
use crate::text::owned;

verus! {

// ---------------------------------------------------------------------------
// Top-level config
// ---------------------------------------------------------------------------

pub struct Config {
    pub homecore: HomecoreConfig,
    pub server: ServerConfig,
    pub logging: LoggingConfig,
}

// ---------------------------------------------------------------------------
// [homecore] — MQTT broker connection and plugin identity
// ---------------------------------------------------------------------------

pub struct HomecoreConfig {
    pub broker_host: String,
    pub broker_port: u16,
    pub plugin_id: String,
    pub password: String,
}

pub fn default_broker_host() -> (r: String)
    ensures
        r@ == "127.0.0.1"@,
{
    owned("127.0.0.1")
}

pub fn default_broker_port() -> (r: u16)
    ensures
        r == 1883,
{
    1883
}

pub fn default_plugin_id() -> (r: String)
    ensures
        r@ == "plugin.zwave"@,
{
    owned("plugin.zwave")
}

// ---------------------------------------------------------------------------
// [server] — zwave-js-server WebSocket endpoint
// ---------------------------------------------------------------------------

pub struct ServerConfig {
    /// WebSocket URL of the zwave-js-server, e.g. `"ws://localhost:3000"`.
    pub url: String,
    /// Schema version to negotiate. Clamped to the server's advertised min/max.
    pub schema_version: u32,
}

impl Default for ServerConfig {
    fn default() -> (r: Self)
        ensures
            r.url@ == "ws://localhost:3000"@,
            r.schema_version == 32,
    {
        ServerConfig { url: default_server_url(), schema_version: default_schema_version() }
    }
}

pub fn default_server_url() -> (r: String)
    ensures
        r@ == "ws://localhost:3000"@,
{
    owned("ws://localhost:3000")
}

pub fn default_schema_version() -> (r: u32)
    ensures
        r == 32,
{
    32
}

} // verus!
