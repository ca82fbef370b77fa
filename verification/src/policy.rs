//! Backend traffic policies, and the time budget that they leave a token fetch.

use vstd::prelude::*;

use crate::net::Target;
use crate::time::{default_credential_flow_timeout, default_timeout, longer, Duration};

verus! {

/// HTTP settings of a backend.
#[derive(Clone, Copy, Debug, PartialEq, Eq)]
pub struct HTTP {
    /// The time allowed to one request, if it is limited.
    pub request_timeout: Option<Duration>,
    /// The other settings, by their key in the gateway's table of HTTP settings;
    /// `None` where they are the defaults.
    pub settings: Option<u64>,
}

impl Default for HTTP {
    fn default() -> (r: HTTP)
        ensures
            r.request_timeout is None,
            r.settings is None,
    {
        HTTP { request_timeout: None, settings: None }
    }
}

/// The client configuration that a TLS policy stands for.
#[derive(Clone, Copy, Debug, PartialEq, Eq)]
pub enum TlsConfig {
    /// Certificates are checked against the roots of the system.
    SystemTrust,
    /// Certificates are not checked.
    InsecureTrust,
    /// An entry of the gateway's table of client configurations, by its key.
    Configured(u64),
}

/// What is known of a TLS configuration beside the configuration itself.
#[derive(Clone, Copy, Debug, PartialEq, Eq)]
pub struct TlsMetadata {
    /// Whether certificate checks are off.
    pub insecure: bool,
}

/// TLS towards a backend.
#[derive(Clone, Copy, Debug, PartialEq, Eq)]
pub struct BackendTLS {
    pub config: TlsConfig,
    pub metadata: TlsMetadata,
}

/// TLS with the roots of the system.
pub open spec fn system_trust_spec() -> BackendTLS {
    BackendTLS { config: TlsConfig::SystemTrust, metadata: TlsMetadata { insecure: false } }
}

/// TLS with the roots of the system.
pub fn system_trust() -> (r: BackendTLS)
    ensures
        r == system_trust_spec(),
{
    BackendTLS { config: TlsConfig::SystemTrust, metadata: TlsMetadata { insecure: false } }
}

/// TLS without certificate checks.
pub fn insecure_trust() -> (r: BackendTLS)
    ensures
        r.config == TlsConfig::InsecureTrust,
        r.metadata.insecure,
{
    BackendTLS { config: TlsConfig::InsecureTrust, metadata: TlsMetadata { insecure: true } }
}

/// A backend, as a policy or a call refers to it.
#[derive(Debug, PartialEq, Eq)]
pub enum SimpleBackendReference {
    /// A backend of the configuration, by its name.
    Backend(String),
    /// A destination given in place.
    InlineBackend(Target),
}

impl Clone for SimpleBackendReference {
    fn clone(&self) -> (r: SimpleBackendReference)
        ensures
            r == *self,
    {
        match self {
            SimpleBackendReference::Backend(name) => SimpleBackendReference::Backend(name.clone()),
            SimpleBackendReference::InlineBackend(target) => SimpleBackendReference::InlineBackend(
                target.clone(),
            ),
        }
    }
}

/// A forward proxy through which a backend is reached.
#[derive(Debug, PartialEq, Eq)]
pub struct Tunnel {
    pub proxy: SimpleBackendReference,
}

impl Clone for Tunnel {
    fn clone(&self) -> (r: Tunnel)
        ensures
            r == *self,
    {
        Tunnel { proxy: self.proxy.clone() }
    }
}

/// A policy on the traffic to a backend.
#[derive(Debug, PartialEq, Eq)]
pub enum BackendTrafficPolicy {
    HTTP(HTTP),
    BackendTLS(BackendTLS),
    Tunnel(Tunnel),
    /// A policy of another kind, by its key in the gateway's policy table.
    Other(u64),
}

impl Clone for BackendTrafficPolicy {
    fn clone(&self) -> (r: BackendTrafficPolicy)
        ensures
            r == *self,
    {
        match self {
            BackendTrafficPolicy::HTTP(http) => BackendTrafficPolicy::HTTP(*http),
            BackendTrafficPolicy::BackendTLS(tls) => BackendTrafficPolicy::BackendTLS(*tls),
            BackendTrafficPolicy::Tunnel(tunnel) => BackendTrafficPolicy::Tunnel(tunnel.clone()),
            BackendTrafficPolicy::Other(key) => BackendTrafficPolicy::Other(*key),
        }
    }
}

impl BackendTrafficPolicy {
    /// The time that this policy allows to one request, if it limits it.
    pub open spec fn request_timeout(self) -> Option<Duration> {
        match self {
            BackendTrafficPolicy::HTTP(http) => http.request_timeout,
            _ => None,
        }
    }
}

/// The time that `policies` allow to one request: that of the first policy
/// that limits it.
pub open spec fn effective_request_timeout(policies: Seq<BackendTrafficPolicy>) -> Option<Duration>
    decreases policies.len(),
{
    if policies.len() == 0 {
        None
    } else if policies[0].request_timeout() is Some {
        policies[0].request_timeout()
    } else {
        effective_request_timeout(policies.drop_first())
    }
}

/// The total budget of a token fetch: the longer of the default and the time
/// allowed to one request.
pub open spec fn flow_budget(policies: Seq<BackendTrafficPolicy>) -> Duration {
    match effective_request_timeout(policies) {
        Some(t) => longer(t, default_timeout()),
        None => default_timeout(),
    }
}

/// Total budget for a token fetch. Bounds the parts a per-request timeout cannot:
/// the implicit chain's sequential attempts, and a developer credential
/// shelling out to the Azure CLI. Never below the per-request timeout, so a
/// configured `requestTimeout` is reachable.
pub fn credential_flow_budget(policies: &[BackendTrafficPolicy]) -> (budget: Duration)
    ensures
        budget == flow_budget(policies@),
{
    proof {
        assert(policies@.skip(0) =~= policies@);
    }
    for i in 0..policies.len()
        invariant
            effective_request_timeout(policies@) == effective_request_timeout(
                policies@.skip(i as int),
            ),
    {
        proof {
            assert(policies@.skip(i as int).drop_first() =~= policies@.skip(i + 1));
        }
        if let BackendTrafficPolicy::HTTP(http) = &policies[i] {
            if let Some(t) = http.request_timeout {
                return t.max(default_credential_flow_timeout());
            }
        }
    }
    default_credential_flow_timeout()
}

} // verus!
