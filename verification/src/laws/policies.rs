//! The policies for an endpoint, and the budget that they leave a token fetch.

use vstd::prelude::*;

use crate::client::{
    applicable, applies, endpoint_policies, AzurePolicyHttpClient, Route,
};
use crate::endpoint::{UrlHost, UrlParts};
use crate::laws::endpoints::lemma_schemes_differ;
use crate::laws::{other_policies_always_apply, tls_by_scheme, tunnels_by_locality};
use crate::net::{is_host_local, IpAddr, SocketAddr, Target};
use crate::policy::{
    credential_flow_budget, effective_request_timeout, insecure_trust, system_trust, BackendTLS,
    BackendTrafficPolicy, TlsConfig, TlsMetadata, HTTP,
};
use crate::time::{default_credential_flow_timeout, Duration};

verus! {

/// The default timeout is five seconds.
pub proof fn default_is_five_seconds(r: Duration)
    requires
        call_ensures(default_credential_flow_timeout, (), r),
    ensures
        r.nanos == 5_000_000_000,
{
}

/// A second has 10^9 nanoseconds, and of two lengths of time the longer is one
/// of them and as long as either.
pub proof fn lengths_of_time(secs: u64, a: Duration, b: Duration, of_secs: Duration, max: Duration)
    requires
        call_ensures(Duration::from_secs, (secs,), of_secs),
        call_ensures(Duration::max, (a, b), max),
    ensures
        of_secs.nanos == secs * 1_000_000_000,
        max.nanos >= a.nanos,
        max.nanos >= b.nanos,
        max.nanos == a.nanos || max.nanos == b.nanos,
{
}

/// The budget of a token fetch is the first request timeout that an HTTP policy
/// sets, or five seconds where that is longer.
pub proof fn budget_by_first_timeout(
    policies: &[BackendTrafficPolicy],
    i: int,
    http: HTTP,
    t: Duration,
    r: Duration,
)
    requires
        call_ensures(credential_flow_budget, (policies,), r),
        0 <= i < policies@.len(),
        policies@[i] == BackendTrafficPolicy::HTTP(http),
        http.request_timeout == Some(t),
        forall|j: int|
            #![trigger policies@[j]]
            0 <= j < i ==> !(policies@[j] matches BackendTrafficPolicy::HTTP(h)
                && h.request_timeout is Some),
    ensures
        t.nanos >= 5_000_000_000 ==> r.nanos == t.nanos,
        t.nanos < 5_000_000_000 ==> r.nanos == 5_000_000_000,
{
    lemma_first_timeout(policies@, i);
}

/// The time allowed to a request is that of the first HTTP policy that sets one.
proof fn lemma_first_timeout(policies: Seq<BackendTrafficPolicy>, i: int)
    requires
        0 <= i <= policies.len(),
        i < policies.len() ==> (policies[i] matches BackendTrafficPolicy::HTTP(h)
            && h.request_timeout is Some),
        forall|j: int|
            #![trigger policies[j]]
            0 <= j < i ==> !(policies[j] matches BackendTrafficPolicy::HTTP(h)
                && h.request_timeout is Some),
    ensures
        effective_request_timeout(policies) == (if i < policies.len() {
            policies[i]->HTTP_0.request_timeout
        } else {
            None
        }),
    decreases i,
{
    if i > 0 {
        assert(!(policies[0] matches BackendTrafficPolicy::HTTP(h) && h.request_timeout is Some));
        let rest = policies.drop_first();
        assert(forall|j: int| 0 <= j < rest.len() ==> #[trigger] rest[j] == policies[j + 1]);
        lemma_first_timeout(rest, i - 1);
    }
}

/// The budget of a token fetch is five seconds where no HTTP policy sets a
/// request timeout.
pub proof fn budget_without_timeouts(policies: &[BackendTrafficPolicy], r: Duration)
    requires
        call_ensures(credential_flow_budget, (policies,), r),
        forall|j: int|
            #![trigger policies@[j]]
            0 <= j < policies@.len() ==> !(policies@[j] matches BackendTrafficPolicy::HTTP(h)
                && h.request_timeout is Some),
    ensures
        r.nanos == 5_000_000_000,
{
    lemma_first_timeout(policies@, policies@.len() as int);
}

/// The two kinds of trust: certificates are checked against the roots of the
/// system, or not at all.
pub proof fn kinds_of_trust(system: BackendTLS, insecure: BackendTLS)
    requires
        call_ensures(system_trust, (), system),
        call_ensures(insecure_trust, (), insecure),
    ensures
        system.config == TlsConfig::SystemTrust,
        !system.metadata.insecure,
        insecure.config == TlsConfig::InsecureTrust,
        insecure.metadata.insecure,
        system != insecure,
{
}

/// HTTP settings that nobody chose limit no request and name no other settings.
pub proof fn default_http_settings(r: HTTP)
    requires
        call_ensures(HTTP::default, (), r),
    ensures
        r.request_timeout is None,
        r.settings is None,
{
}

/// A policy is copied whole.
pub proof fn policies_are_copied_whole(policy: BackendTrafficPolicy, r: BackendTrafficPolicy)
    requires
        call_ensures(BackendTrafficPolicy::clone, (&policy,), r),
    ensures
        r == policy,
{
}

/// The policies of an endpoint by their kind, and in their order.
pub(crate) proof fn lemma_policies_by_kind(
    policies: Seq<BackendTrafficPolicy>,
    https: bool,
    local: bool,
    r: Seq<BackendTrafficPolicy>,
)
    requires
        r == endpoint_policies(policies, https, local),
    ensures
        !https ==> r.filter(|p: BackendTrafficPolicy| p is BackendTLS).len() == 0,
        https && (exists|i: int| 0 <= i < policies.len() && #[trigger] policies[i] is BackendTLS)
            ==> r.filter(|p: BackendTrafficPolicy| p is BackendTLS) == policies.filter(
            |p: BackendTrafficPolicy| p is BackendTLS,
        ),
        https && !(exists|i: int| 0 <= i < policies.len() && #[trigger] policies[i] is BackendTLS)
            ==> r.filter(|p: BackendTrafficPolicy| p is BackendTLS) == seq![
            BackendTrafficPolicy::BackendTLS(
                BackendTLS {
                    config: TlsConfig::SystemTrust,
                    metadata: TlsMetadata { insecure: false },
                },
            ),
        ],
        local ==> r.filter(|p: BackendTrafficPolicy| p is Tunnel).len() == 0,
        !local ==> r.filter(|p: BackendTrafficPolicy| p is Tunnel) == policies.filter(
            |p: BackendTrafficPolicy| p is Tunnel,
        ),
        r.filter(|p: BackendTrafficPolicy| !(p is BackendTLS) && !(p is Tunnel))
            == policies.filter(|p: BackendTrafficPolicy| !(p is BackendTLS) && !(p is Tunnel)),
        r.take(
            policies.filter(
                |p: BackendTrafficPolicy| (p is BackendTLS ==> https) && (p is Tunnel ==> !local),
            ).len() as int,
        ) == policies.filter(
            |p: BackendTrafficPolicy| (p is BackendTLS ==> https) && (p is Tunnel ==> !local),
        ),
{
    tls_by_scheme(policies, https, local);
    tunnels_by_locality(policies, https, local);
    other_policies_always_apply(policies, https, local);
    let kept = |p: BackendTrafficPolicy|
        (p is BackendTLS ==> https) && (p is Tunnel ==> !local);
    assert(kept =~= (|p: BackendTrafficPolicy| applies(p, https, local)));
    assert(applicable(policies, https, local) == policies.filter(kept));
    assert(r.take(policies.filter(kept).len() as int) =~= policies.filter(kept));
}

/// The policies for an endpoint. On HTTPS the configured TLS policies stand, or
/// TLS that checks certificates against the roots of the system where none is
/// configured; elsewhere no TLS policy does. To a destination on this host no
/// tunnel applies, and to any other all do. Every other policy applies. What is
/// configured keeps its order, and comes first.
pub proof fn policies_by_endpoint(
    client: AzurePolicyHttpClient,
    scheme: &str,
    target: Target,
    https: bool,
    local: bool,
    policies: Seq<BackendTrafficPolicy>,
    r: Vec<BackendTrafficPolicy>,
    chosen: Seq<BackendTrafficPolicy>,
)
    requires
        policies == client.policies@,
        chosen == r@,
        call_ensures(AzurePolicyHttpClient::policies_for_endpoint, (&client, scheme, &target), r),
        call_ensures(is_host_local, (&target,), local),
        https == (scheme@ == "https"@),
    ensures
        !https ==> chosen.filter(|p: BackendTrafficPolicy| p is BackendTLS).len() == 0,
        https && (exists|i: int| 0 <= i < policies.len() && #[trigger] policies[i] is BackendTLS)
            ==> chosen.filter(|p: BackendTrafficPolicy| p is BackendTLS) == policies.filter(
            |p: BackendTrafficPolicy| p is BackendTLS,
        ),
        https && !(exists|i: int| 0 <= i < policies.len() && #[trigger] policies[i] is BackendTLS)
            ==> chosen.filter(|p: BackendTrafficPolicy| p is BackendTLS) == seq![
            BackendTrafficPolicy::BackendTLS(
                BackendTLS {
                    config: TlsConfig::SystemTrust,
                    metadata: TlsMetadata { insecure: false },
                },
            ),
        ],
        local ==> chosen.filter(|p: BackendTrafficPolicy| p is Tunnel).len() == 0,
        !local ==> chosen.filter(|p: BackendTrafficPolicy| p is Tunnel) == policies.filter(
            |p: BackendTrafficPolicy| p is Tunnel,
        ),
        chosen.filter(|p: BackendTrafficPolicy| !(p is BackendTLS) && !(p is Tunnel))
            == policies.filter(|p: BackendTrafficPolicy| !(p is BackendTLS) && !(p is Tunnel)),
        chosen.take(
            policies.filter(
                |p: BackendTrafficPolicy| (p is BackendTLS ==> https) && (p is Tunnel ==> !local),
            ).len() as int,
        ) == policies.filter(
            |p: BackendTrafficPolicy| (p is BackendTLS ==> https) && (p is Tunnel ==> !local),
        ),
{
    lemma_policies_by_kind(policies, https, local, chosen);
}

/// A route leads to the host of its URL, of whichever kind, on the port that the
/// URL writes, or else on that of its scheme, or else on port 80.
pub proof fn routes_lead_to_the_host(client: AzurePolicyHttpClient, url: UrlParts, route: Route)
    requires
        call_ensures(AzurePolicyHttpClient::route, (&client, &url), Some(route)),
    ensures
        match (url.host, route.target) {
            (Some(UrlHost::Domain(domain)), Target::Hostname(name, _)) => name@ == domain@,
            (Some(UrlHost::Ipv4(ip)), Target::Address(SocketAddr { ip: IpAddr::V4(to), .. })) => {
                to == ip
            },
            (Some(UrlHost::Ipv6(ip)), Target::Address(SocketAddr { ip: IpAddr::V6(to), .. })) => {
                to == ip
            },
            _ => false,
        },
        (match route.target {
            Target::Hostname(_, port) => port,
            Target::Address(addr) => addr.port,
            Target::UnixSocket(_) => 0,
        }) == (match url.port {
            Some(port) => port,
            None => if url.scheme@ == "https"@ || url.scheme@ == "wss"@ {
                443
            } else if url.scheme@ == "ftp"@ {
                21
            } else {
                80
            },
        }),
{
    lemma_schemes_differ();
}

/// There is a route exactly if the URL has a host.
pub proof fn routes_need_hosts(client: AzurePolicyHttpClient, url: UrlParts, r: Option<Route>)
    requires
        call_ensures(AzurePolicyHttpClient::route, (&client, &url), r),
    ensures
        r is None <==> url.host is None,
{
}

/// The policies of a route: those configured, but for TLS off HTTPS and tunnels
/// to this host, in their order, and then TLS that checks certificates against
/// the roots of the system on HTTPS without a configured TLS policy.
pub proof fn routes_carry_the_policies(
    client: AzurePolicyHttpClient,
    url: UrlParts,
    route: Route,
    https: bool,
    local: bool,
    policies: Seq<BackendTrafficPolicy>,
    chosen: Seq<BackendTrafficPolicy>,
)
    requires
        policies == client.policies@,
        chosen == route.policies@,
        call_ensures(AzurePolicyHttpClient::route, (&client, &url), Some(route)),
        call_ensures(is_host_local, (&route.target,), local),
        https == (url.scheme@ == "https"@),
    ensures
        !https ==> chosen.filter(|p: BackendTrafficPolicy| p is BackendTLS).len() == 0,
        https && (exists|i: int| 0 <= i < policies.len() && #[trigger] policies[i] is BackendTLS)
            ==> chosen.filter(|p: BackendTrafficPolicy| p is BackendTLS) == policies.filter(
            |p: BackendTrafficPolicy| p is BackendTLS,
        ),
        https && !(exists|i: int| 0 <= i < policies.len() && #[trigger] policies[i] is BackendTLS)
            ==> chosen.filter(|p: BackendTrafficPolicy| p is BackendTLS) == seq![
            BackendTrafficPolicy::BackendTLS(
                BackendTLS {
                    config: TlsConfig::SystemTrust,
                    metadata: TlsMetadata { insecure: false },
                },
            ),
        ],
        local ==> chosen.filter(|p: BackendTrafficPolicy| p is Tunnel).len() == 0,
        !local ==> chosen.filter(|p: BackendTrafficPolicy| p is Tunnel) == policies.filter(
            |p: BackendTrafficPolicy| p is Tunnel,
        ),
        chosen.filter(|p: BackendTrafficPolicy| !(p is BackendTLS) && !(p is Tunnel))
            == policies.filter(|p: BackendTrafficPolicy| !(p is BackendTLS) && !(p is Tunnel)),
        chosen.take(
            policies.filter(
                |p: BackendTrafficPolicy| (p is BackendTLS ==> https) && (p is Tunnel ==> !local),
            ).len() as int,
        ) == policies.filter(
            |p: BackendTrafficPolicy| (p is BackendTLS ==> https) && (p is Tunnel ==> !local),
        ),
{
    lemma_policies_by_kind(policies, https, local, chosen);
}

/// A route carries the same policies as its endpoint.
pub proof fn routes_agree_with_endpoints(
    client: AzurePolicyHttpClient,
    url: UrlParts,
    scheme: &str,
    route: Route,
    r: Vec<BackendTrafficPolicy>,
)
    requires
        scheme@ == url.scheme@,
        call_ensures(AzurePolicyHttpClient::route, (&client, &url), Some(route)),
        call_ensures(
            AzurePolicyHttpClient::policies_for_endpoint,
            (&client, scheme, &route.target),
            r,
        ),
    ensures
        route.policies@ == r@,
{
}

} // verus!
