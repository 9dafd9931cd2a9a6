//! Web pendant: configuration of the remote-control surface.

use vstd::prelude::*;

pub mod api;
pub mod server;
pub mod ui;
pub mod ws;

verus! {

/// Configuration of the pendant server.
#[derive(Debug)]
pub struct PendantConfig {
    /// Address to listen on.
    pub listen_addr: String,
    /// Port to listen on.
    pub listen_port: u16,
    /// Whether requests from other origins are allowed.
    pub enable_cors: bool,
    /// Seconds after which a silent WebSocket connection is dropped.
    pub ws_timeout: u64,
    /// Greatest number of WebSocket connections at one time.
    pub max_ws_connections: usize,
}

impl Default for PendantConfig {
    fn default() -> (r: PendantConfig)
        ensures
            r.listen_addr@ == "0.0.0.0"@,
            r.listen_port == 8080,
            r.enable_cors,
            r.ws_timeout == 30,
            r.max_ws_connections == 10,
    {
        PendantConfig {
            listen_addr: "0.0.0.0".to_owned(),
            listen_port: 8080,
            enable_cors: true,
            ws_timeout: 30,
            max_ws_connections: 10,
        }
    }
}

impl Clone for PendantConfig {
    fn clone(&self) -> (r: PendantConfig)
        ensures
            r == *self,
    {
        PendantConfig {
            listen_addr: self.listen_addr.clone(),
            listen_port: self.listen_port,
            enable_cors: self.enable_cors,
            ws_timeout: self.ws_timeout,
            max_ws_connections: self.max_ws_connections,
        }
    }
}

/// State of the pendant server.
#[derive(Debug)]
pub struct PendantServer {
    pub config: PendantConfig,
}

impl PendantServer {
    /// A server with the default configuration.
    pub fn new() -> (r: PendantServer)
        ensures
            r.config.listen_addr@ == "0.0.0.0"@,
            r.config.listen_port == 8080,
            r.config.enable_cors,
            r.config.ws_timeout == 30,
            r.config.max_ws_connections == 10,
    {
        PendantServer { config: PendantConfig::default() }
    }

    /// A server with the given configuration.
    pub fn with_config(config: PendantConfig) -> (r: PendantServer)
        ensures
            r.config == config,
    {
        PendantServer { config }
    }

    /// The configuration of the server.
    pub fn config(&self) -> (r: &PendantConfig)
        ensures
            *r == self.config,
    {
        &self.config
    }
}

impl Default for PendantServer {
    fn default() -> (r: PendantServer)
        ensures
            r.config.listen_addr@ == "0.0.0.0"@,
            r.config.listen_port == 8080,
            r.config.enable_cors,
            r.config.ws_timeout == 30,
            r.config.max_ws_connections == 10,
    {
        PendantServer::new()
    }
}

} // verus!
