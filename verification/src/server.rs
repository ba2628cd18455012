//! The HTTP server's decisions: where to listen, and what to answer
//! under which path.

use vstd::prelude::*;
use vstd::string::StringExecFns;
use crate::config::{ServerConfig, ServerConfigView};
use crate::text::chars_of;

verus! {

/// The family of the address a server listens on.
#[derive(Clone, Copy, Debug, PartialEq, Eq, Structural)]
pub enum AddressFamily {
    V4,
    V6,
}

/// What a request is answered with.
#[derive(Clone, Copy, Debug, PartialEq, Eq, Structural)]
pub enum Route {
    /// The health endpoint: the server is up.
    Health,
    /// The metrics endpoint: a snapshot of the registry.
    Metrics,
    /// Any other path.
    NotFound,
}

/// A response: status, content type where there is one, and body.
#[derive(Clone, Debug, PartialEq, Eq)]
pub struct Response {
    pub status: u16,
    pub content_type: Option<String>,
    pub body: String,
}

/// The path of the health endpoint: the configured one, else `/health`.
pub open spec fn health_path(c: ServerConfigView) -> Seq<char> {
    match c.health_endpoint {
        Some(p) => p,
        None => "/health"@,
    }
}

/// The path of the metrics endpoint: the configured one, else
/// `/metrics`.
pub open spec fn metrics_path(c: ServerConfigView) -> Seq<char> {
    match c.prometheus_endpoint {
        Some(p) => p,
        None => "/metrics"@,
    }
}

/// The route of a path. Paths are matched exactly, the health endpoint
/// first.
pub open spec fn route_of(c: ServerConfigView, path: Seq<char>) -> Route {
    if path == health_path(c) {
        Route::Health
    } else if path == metrics_path(c) {
        Route::Metrics
    } else {
        Route::NotFound
    }
}

/// An address with a dot in it is taken for IPv4, any other for IPv6.
pub open spec fn family_of(ip: Seq<char>) -> AddressFamily {
    if ip.contains('.') {
        AddressFamily::V4
    } else {
        AddressFamily::V6
    }
}

/// The server of one generation.
#[derive(Clone, Debug, PartialEq, Eq)]
pub struct SonarServer {
    pub config: ServerConfig,
}

impl SonarServer {
    /// A server for `config`.
    pub fn new(config: ServerConfig) -> (r: SonarServer)
        ensures
            r.config == config,
    {
        SonarServer { config }
    }

    /// The family of the address to listen on.
    pub fn address_family(&self) -> (r: AddressFamily)
        ensures
            r == family_of(self.config@.ip),
    {
        let v = chars_of(self.config.ip.as_str());
        let mut i: usize = 0;
        while i < v.len()
            invariant
                v@ == self.config@.ip,
                i <= v.len(),
                forall|k: int| 0 <= k < i ==> v@[k] != '.',
            decreases v.len() - i,
        {
            if v[i] == '.' {
                assert(v@[i as int] == '.');
                assert(v@.contains('.'));
                return AddressFamily::V4;
            }
            i = i + 1;
        }
        assert(!v@.contains('.'));
        AddressFamily::V6
    }

    /// The route of a request for `path`.
    pub fn route(&self, path: &str) -> (r: Route)
        ensures
            r == route_of(self.config@, path@),
    {
        let wanted = String::from_str(path);
        let is_health = match &self.config.health_endpoint {
            Some(p) => *p == wanted,
            None => String::from_str("/health") == wanted,
        };
        if is_health {
            return Route::Health;
        }
        let is_metrics = match &self.config.prometheus_endpoint {
            Some(p) => *p == wanted,
            None => String::from_str("/metrics") == wanted,
        };
        if is_metrics {
            Route::Metrics
        } else {
            Route::NotFound
        }
    }

    /// The response to a request for `path`, given the registry's
    /// snapshot in the text exposition format: 200 and an empty body
    /// for the health endpoint, 200 and the snapshot as versioned plain
    /// text for the metrics endpoint, 404 and an empty body for
    /// anything else.
    pub fn respond(&self, path: &str, snapshot: String) -> (r: Response)
        ensures
            match route_of(self.config@, path@) {
                Route::Health => r.status == 200 && r.content_type is None && r.body@.len() == 0,
                Route::Metrics => {
                    &&& r.status == 200
                    &&& r.content_type matches Some(t) && t@ == "text/plain; version=0.0.4"@
                    &&& r.body@ == snapshot@
                },
                Route::NotFound => r.status == 404 && r.content_type is None && r.body@.len()
                    == 0,
            },
    {
        match self.route(path) {
            Route::Health => Response { status: 200, content_type: None, body: String::new() },
            Route::Metrics => Response {
                status: 200,
                content_type: Some(String::from_str("text/plain; version=0.0.4")),
                body: snapshot,
            },
            Route::NotFound => Response { status: 404, content_type: None, body: String::new() },
        }
    }
}

} // verus!
