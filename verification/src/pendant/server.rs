//! Configuration and addresses of the HTTP server of the pendant.

use vstd::prelude::*;
use crate::text::{chars_of, string_of, extend, extend_str, decimal, decimal_of};

verus! {

/// Configuration of the HTTP server.
#[derive(Debug)]
pub struct HttpServerConfig {
    /// Address to listen on.
    pub listen_addr: String,
    /// Port to listen on.
    pub listen_port: u16,
    /// Whether TLS is used.
    pub use_tls: bool,
    /// Path of the TLS certificate.
    pub cert_path: Option<String>,
    /// Path of the TLS key.
    pub key_path: Option<String>,
    /// Whether responses are compressed.
    pub enable_gzip: bool,
    /// Greatest size of a request body in bytes.
    pub max_body_size: usize,
}

impl Default for HttpServerConfig {
    fn default() -> (r: HttpServerConfig)
        ensures
            r.listen_addr@ == "0.0.0.0"@,
            r.listen_port == 8080,
            !r.use_tls,
            r.cert_path is None,
            r.key_path is None,
            r.enable_gzip,
            r.max_body_size == 1048576,
    {
        HttpServerConfig {
            listen_addr: "0.0.0.0".to_owned(),
            listen_port: 8080,
            use_tls: false,
            cert_path: None,
            key_path: None,
            enable_gzip: true,
            max_body_size: 1048576,
        }
    }
}

/// The address of a server: host, colon, port.
pub open spec fn address_text(c: HttpServerConfig) -> Seq<char> {
    c.listen_addr@ + seq![':'] + decimal(c.listen_port as nat)
}

/// The scheme of a server: `https` with TLS, else `http`.
pub open spec fn scheme_text(c: HttpServerConfig) -> Seq<char> {
    if c.use_tls {
        "https"@
    } else {
        "http"@
    }
}

/// HTTP server of the pendant.
#[derive(Debug)]
pub struct HttpServer {
    pub config: HttpServerConfig,
}

impl HttpServer {
    /// A server with the default configuration.
    pub fn new() -> (r: HttpServer)
        ensures
            r.config.listen_addr@ == "0.0.0.0"@,
            r.config.listen_port == 8080,
            !r.config.use_tls,
            r.config.cert_path is None,
            r.config.key_path is None,
            r.config.enable_gzip,
            r.config.max_body_size == 1048576,
    {
        HttpServer { config: HttpServerConfig::default() }
    }

    /// A server with the given configuration.
    pub fn with_config(config: HttpServerConfig) -> (r: HttpServer)
        ensures
            r.config == config,
    {
        HttpServer { config }
    }

    /// The configuration of the server.
    pub fn config(&self) -> (r: &HttpServerConfig)
        ensures
            *r == self.config,
    {
        &self.config
    }

    /// The address of the server: host, colon, port.
    pub fn address(&self) -> (r: String)
        ensures
            r@ == address_text(self.config),
    {
        let mut v = chars_of(self.config.listen_addr.as_str());
        v.push(':');
        let port = decimal_of(self.config.listen_port as u128);
        extend(&mut v, &port);
        string_of(&v)
    }

    /// The scheme of the server.
    pub fn scheme(&self) -> (r: &'static str)
        ensures
            r@ == scheme_text(self.config),
    {
        if self.config.use_tls {
            "https"
        } else {
            "http"
        }
    }

    /// The URL of the server: scheme, `://`, address.
    pub fn url(&self) -> (r: String)
        ensures
            r@ == scheme_text(self.config) + "://"@ + address_text(self.config),
    {
        let mut v = chars_of(self.scheme());
        extend_str(&mut v, "://");
        let a = self.address();
        extend_str(&mut v, a.as_str());
        string_of(&v)
    }
}

impl Default for HttpServer {
    fn default() -> (r: HttpServer)
        ensures
            r.config.listen_addr@ == "0.0.0.0"@,
            r.config.listen_port == 8080,
            !r.config.use_tls,
            r.config.cert_path is None,
            r.config.key_path is None,
            r.config.enable_gzip,
            r.config.max_body_size == 1048576,
    {
        HttpServer::new()
    }
}

} // verus!
