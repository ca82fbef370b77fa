//! The credential-flow client: which policies apply to which endpoint, and how
//! a request is prepared.

use std::sync::Arc;

use vstd::prelude::*;

use crate::endpoint::{
    is_url, parse_url, parsed_url, sanitize_url, showable, shown_text, url_target, UrlParts, UrlView,
};
use crate::error::TransportError;
use crate::headers::{
    header_fields, headers_valid, listing_order_is_irrelevant, request_fields, sdk_headers,
    TextHeaders,
};
use crate::method::{from_method, is_token, Method};
use crate::net::{host_local, is_host_local, Target};
use crate::policy::{system_trust, system_trust_spec, BackendTrafficPolicy};
use crate::request::{
    build_request, request_head, uri_text, Head, MAX_FIELD_NAMES, MAX_SURE_FIELDS,
};
use crate::text::same_text;
use crate::time::{default_credential_flow_timeout, default_timeout, Duration};

verus! {

/// The rules by which credential-flow requests (Microsoft Entra ID, IMDS, etc.)
/// go through the gateway's policy-aware client, so that connection policies
/// such as `backendTunnel` and `backendTLS` apply to token fetches like to any
/// other outbound call. The token endpoints are chosen dynamically by the SDK,
/// so each request targets an inline backend derived from the request URL.
#[derive(Debug)]
pub struct AzurePolicyHttpClient {
    pub policies: Arc<Vec<BackendTrafficPolicy>>,
}

/// Some policy configures TLS.
pub open spec fn has_tls(policies: Seq<BackendTrafficPolicy>) -> bool {
    exists|i: int| 0 <= i < policies.len() && #[trigger] policies[i] is BackendTLS
}

/// Whether a configured policy applies to an endpoint: TLS to HTTPS only, and
/// tunnels to destinations other than this host.
pub open spec fn applies(policy: BackendTrafficPolicy, https: bool, local: bool) -> bool {
    &&& policy is BackendTLS ==> https
    &&& policy is Tunnel ==> !local
}

/// The configured policies that apply to an endpoint, in their order.
pub open spec fn applicable(
    policies: Seq<BackendTrafficPolicy>,
    https: bool,
    local: bool,
) -> Seq<BackendTrafficPolicy> {
    policies.filter(|p: BackendTrafficPolicy| applies(p, https, local))
}

/// The policies for an endpoint: those that apply, and TLS with the roots of
/// the system for HTTPS where none is configured.
pub open spec fn endpoint_policies(
    policies: Seq<BackendTrafficPolicy>,
    https: bool,
    local: bool,
) -> Seq<BackendTrafficPolicy> {
    let kept = applicable(policies, https, local);
    if https && !has_tls(policies) {
        kept.push(BackendTrafficPolicy::BackendTLS(system_trust_spec()))
    } else {
        kept
    }
}

/// A request of a credential flow, as the SDK asks for it. Its body, which is
/// sent as it is, does not stand here.
#[derive(Debug)]
pub struct CredentialRequest {
    pub method: Method,
    pub url: String,
    pub headers: azure_core::http::headers::Headers,
}

/// Where a request goes, and under which policies.
#[derive(Debug)]
pub struct Route {
    pub target: Target,
    pub policies: Vec<BackendTrafficPolicy>,
}

/// A request that is ready to be sent.
#[derive(Debug)]
pub struct PreparedRequest {
    /// The request, without its body.
    pub request: http::Request<()>,
    /// The default timeout, overridable by a backend request-timeout policy.
    pub timeout: Duration,
    pub route: Route,
}

/// `route` leads to the host of `url`, under the policies for it.
pub open spec fn is_route(
    route: Route,
    policies: Seq<BackendTrafficPolicy>,
    url: UrlView,
) -> bool {
    &&& url_target(url) == Some(route.target@)
    &&& route.policies@ == endpoint_policies(
        policies,
        url.scheme == "https"@,
        host_local(route.target@),
    )
}

/// A request to `url` with `headers` can be built.
pub open spec fn buildable(url: UrlView, headers: TextHeaders) -> bool {
    uri_text(url.text) is Some && headers_valid(headers)
}

/// `r` is what becomes of a request with `method`, `url` and `headers`, where
/// `url` is `None` if it is not absolute. A URL without a host gets as far as
/// its refusal for that only if it has no query, so it is shown whole. The URL
/// of a request that can be sent can be shown.
pub open spec fn is_outcome(
    r: Result<PreparedRequest, TransportError>,
    policies: Seq<BackendTrafficPolicy>,
    method: Seq<char>,
    url: Option<UrlView>,
    headers: TextHeaders,
) -> bool {
    match (url, r) {
        (None, r) => r matches Err(TransportError::InvalidUrl(_)),
        (Some(_), Err(TransportError::InvalidUrl(_))) => false,
        (Some(url), Err(TransportError::InvalidMethod(_))) => is_url(url) && !is_token(method),
        (Some(url), Err(TransportError::Build(_))) => {
            &&& is_url(url)
            &&& is_token(method)
            &&& !(buildable(url, headers) && headers.dom().len() <= MAX_SURE_FIELDS)
        },
        (Some(url), Err(TransportError::NoHost(shown))) => {
            &&& is_url(url)
            &&& is_token(method)
            &&& buildable(url, headers)
            &&& headers.dom().len() <= MAX_FIELD_NAMES
            &&& url_target(url) is None
            &&& !url.text.contains('?')
            &&& shown@ == shown_text(url)
            &&& shown@ == url.text
        },
        (Some(url), Ok(prepared)) => {
            &&& is_url(url)
            &&& is_token(method)
            &&& buildable(url, headers)
            &&& headers.dom().len() <= MAX_FIELD_NAMES
            &&& request_head(prepared.request) == (Head {
                method,
                uri: uri_text(url.text)->0,
                headers: request_fields(headers),
            })
            &&& showable(url)
            &&& prepared.timeout == default_timeout()
            &&& is_route(prepared.route, policies, url)
        },
    }
}

impl AzurePolicyHttpClient {
    /// The policies to apply for a given endpoint. TLS is scheme dependent: the
    /// implicit credential chain mixes HTTPS (Entra ID) and plaintext HTTP (IMDS)
    /// endpoints, so TLS must only apply to the former. Similarly, tunnels are
    /// never applied to host-local endpoints (IMDS, Arc/Cloud Shell identity
    /// endpoints on localhost): they are only reachable from the host itself, so
    /// a proxy can never dial them, and Azure requires metadata requests to
    /// bypass proxies (IMDS rejects forwarded requests).
    pub fn policies_for_endpoint(&self, scheme: &str, target: &Target) -> (r: Vec<
        BackendTrafficPolicy,
    >)
        ensures
            r@ == endpoint_policies(self.policies@, scheme@ == "https"@, host_local(target@)),
    {
        let https: bool = same_text(scheme, "https");
        let local: bool = is_host_local(target);
        let mut kept: Vec<BackendTrafficPolicy> = Vec::new();
        let mut tls: bool = false;
        let n: usize = self.policies.len();
        let ghost pred = |p: BackendTrafficPolicy| applies(p, https, local);
        proof {
            reveal(Seq::filter);
            assert(self.policies@.take(0).filter(pred) =~= kept@);
        }
        for i in 0..n
            invariant
                n == self.policies@.len(),
                pred == (|p: BackendTrafficPolicy| applies(p, https, local)),
                kept@ == self.policies@.take(i as int).filter(pred),
                tls == has_tls(self.policies@.take(i as int)),
        {
            let policy: &BackendTrafficPolicy = &self.policies[i];
            proof {
                reveal(Seq::filter);
                assert(self.policies@.take(i + 1).drop_last() =~= self.policies@.take(i as int));
                assert(self.policies@.take(i + 1).last() == *policy);
            }
            let keep: bool = match policy {
                BackendTrafficPolicy::BackendTLS(_) => https,
                BackendTrafficPolicy::Tunnel(_) => !local,
                _ => true,
            };
            let is_tls: bool = match policy {
                BackendTrafficPolicy::BackendTLS(_) => true,
                _ => false,
            };
            if keep {
                kept.push(policy.clone());
            }
            proof {
                let before = self.policies@.take(i as int);
                let after = self.policies@.take(i + 1);
                if has_tls(before) {
                    let k = choose|k: int|
                        0 <= k < before.len() && #[trigger] before[k] is BackendTLS;
                    assert(after[k] is BackendTLS);
                }
                if has_tls(after) && !is_tls {
                    let k = choose|k: int|
                        0 <= k < after.len() && #[trigger] after[k] is BackendTLS;
                    assert(before[k] is BackendTLS);
                }
                if is_tls {
                    assert(after[i as int] is BackendTLS);
                }
            }
            tls = tls || is_tls;
        }
        assert(self.policies@.take(n as int) =~= self.policies@);
        if https && !tls {
            kept.push(BackendTrafficPolicy::BackendTLS(system_trust()));
        }
        kept
    }

    /// Where a request to `url` goes, and under which policies; `None` where the
    /// URL has no host.
    pub fn route(&self, url: &UrlParts) -> (r: Option<Route>)
        ensures
            match r {
                Some(route) => is_route(route, self.policies@, url@),
                None => url_target(url@) is None,
            },
    {
        match url.target() {
            None => None,
            Some(target) => {
                let policies: Vec<BackendTrafficPolicy> = self.policies_for_endpoint(
                    url.scheme.as_str(),
                    &target,
                );
                Some(Route { target, policies })
            },
        }
    }

    /// Everything that is decided of a credential request before it is sent:
    /// the request itself, its timeout, its destination and its policies. It is
    /// refused, in this order, for a URL that is not absolute, for a method that
    /// is none, for a URL or a header that cannot stand in a request, and for a
    /// URL without a host.
    pub fn prepare_request(&self, request: &CredentialRequest) -> (r: Result<
        PreparedRequest,
        TransportError,
    >)
        ensures
            is_outcome(
                r,
                self.policies@,
                request.method.text(),
                parsed_url(request.url@),
                sdk_headers(request.headers),
            ),
    {
        let url: UrlParts = match parse_url(request.url.as_str()) {
            Ok(url) => url,
            Err(error) => return Err(TransportError::InvalidUrl(error)),
        };
        let method: String = match from_method(&request.method) {
            Ok(method) => method,
            Err(error) => return Err(TransportError::InvalidMethod(error)),
        };
        let fields: Vec<(String, String)> = header_fields(&request.headers);
        proof {
            let headers = sdk_headers(request.headers);
            listing_order_is_irrelevant(fields@, headers);
            assert(request_fields(headers).dom() =~= headers.dom());
        }
        let head: http::Request<()> = match build_request(
            method.as_str(),
            url.text.as_str(),
            &fields,
        ) {
            Ok(head) => head,
            Err(error) => return Err(TransportError::Build(error)),
        };
        match self.route(&url) {
            Some(route) => Ok(
                PreparedRequest { request: head, timeout: default_credential_flow_timeout(), route },
            ),
            None => Err(TransportError::NoHost(sanitize_url(request.url.as_str()))),
        }
    }
}

} // verus!
