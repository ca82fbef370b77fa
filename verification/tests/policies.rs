use std::sync::Arc;

use azure_transport::client::AzurePolicyHttpClient;
use azure_transport::net::{is_host_local, IpAddr, Ipv4Addr, Ipv6Addr, SocketAddr, Target};
use azure_transport::policy::{
    credential_flow_budget, insecure_trust, system_trust, BackendTLS, BackendTrafficPolicy,
    SimpleBackendReference, TlsConfig, TlsMetadata, Tunnel, HTTP,
};
use azure_transport::text::{eq_ignore_ascii_case, same_text};
use azure_transport::time::{default_credential_flow_timeout, Duration};

fn v4(octets: [u8; 4], port: u16) -> SocketAddr {
    SocketAddr { ip: IpAddr::V4(Ipv4Addr { octets }), port }
}

fn v6(segments: [u16; 8], port: u16) -> SocketAddr {
    SocketAddr { ip: IpAddr::V6(Ipv6Addr { segments }), port }
}

fn hostname(host: &str, port: u16) -> Target {
    Target::Hostname(host.to_owned(), port)
}

fn tunnel_policy(proxy: SocketAddr) -> BackendTrafficPolicy {
    BackendTrafficPolicy::Tunnel(Tunnel {
        proxy: SimpleBackendReference::InlineBackend(Target::Address(proxy)),
    })
}

fn adapter(policies: Vec<BackendTrafficPolicy>) -> AzurePolicyHttpClient {
    AzurePolicyHttpClient { policies: Arc::new(policies) }
}

fn entra_target() -> Target {
    hostname("login.microsoftonline.com", 443)
}

fn imds_target() -> Target {
    Target::Address(v4([169, 254, 169, 254], 80))
}

fn http_timeout_policy(timeout: Duration) -> BackendTrafficPolicy {
    BackendTrafficPolicy::HTTP(HTTP { request_timeout: Some(timeout), ..Default::default() })
}

#[test]
fn policies_for_endpoint_https_appends_system_trust() {
    let proxy = v4([127, 0, 0, 1], 3128);
    let client = adapter(vec![tunnel_policy(proxy)]);
    let policies = client.policies_for_endpoint("https", &entra_target());
    assert!(matches!(policies[0], BackendTrafficPolicy::Tunnel(_)));
    assert!(matches!(policies[1], BackendTrafficPolicy::BackendTLS(_)));
    assert_eq!(policies.len(), 2);
}

#[test]
fn policies_for_endpoint_https_keeps_configured_tls() {
    let client = adapter(vec![BackendTrafficPolicy::BackendTLS(insecure_trust())]);
    let policies = client.policies_for_endpoint("https", &entra_target());
    let [BackendTrafficPolicy::BackendTLS(tls)] = policies.as_slice() else {
        panic!("expected only the configured TLS policy, got {policies:?}");
    };
    assert!(tls.metadata.insecure);
}

#[test]
fn policies_for_endpoint_http_strips_tls() {
    let proxy = v4([127, 0, 0, 1], 3128);
    let client = adapter(vec![
        tunnel_policy(proxy),
        BackendTrafficPolicy::BackendTLS(system_trust()),
    ]);
    // Remote plaintext target: tunnel must survive; TLS must be stripped.
    let target = hostname("token.internal", 8080);
    let policies = client.policies_for_endpoint("http", &target);
    assert!(
        matches!(policies.as_slice(), [BackendTrafficPolicy::Tunnel(_)]),
        "plaintext endpoints must not get TLS: {policies:?}"
    );
}

#[test]
fn policies_for_endpoint_host_local_strips_tunnel() {
    let proxy = v4([127, 0, 0, 1], 3128);
    let client = adapter(vec![tunnel_policy(proxy)]);
    // Host-local endpoints are only reachable from the host itself, never via
    // a proxy, so the tunnel must not apply: IMDS (link-local) and the
    // Arc/Cloud Shell identity endpoints (localhost / loopback).
    for target in [
        imds_target(),
        Target::Address(v4([127, 0, 0, 1], 40342)),
        Target::Address(v6([0, 0, 0, 0, 0, 0, 0, 1], 40342)),
        hostname("localhost", 40342),
    ] {
        let policies = client.policies_for_endpoint("http", &target);
        assert!(
            policies.is_empty(),
            "host-local endpoint {target:?} must bypass the tunnel: {policies:?}"
        );
    }
    // ...but the Entra ID leg of the same credential chain keeps the tunnel.
    let policies = client.policies_for_endpoint("https", &entra_target());
    assert!(matches!(policies[0], BackendTrafficPolicy::Tunnel(_)));
}

#[test]
fn credential_flow_budget_defaults() {
    let proxy = v4([127, 0, 0, 1], 3128);
    assert_eq!(
        credential_flow_budget(&[tunnel_policy(proxy)]),
        default_credential_flow_timeout()
    );
}

#[test]
fn credential_flow_budget_honors_larger_override() {
    let configured = Duration::from_secs(30);
    assert_eq!(
        credential_flow_budget(&[http_timeout_policy(configured)]),
        configured,
        "a raised requestTimeout must not be capped by the total budget"
    );
}

#[test]
fn credential_flow_budget_clamps_smaller_override() {
    // A short per-request timeout still leaves the implicit chain room to try
    // several sources.
    assert_eq!(
        credential_flow_budget(&[http_timeout_policy(Duration::from_secs(1))]),
        default_credential_flow_timeout()
    );
}

#[test]
fn default_timeout_is_five_seconds() {
    assert_eq!(default_credential_flow_timeout(), Duration::from_secs(5));
    assert_eq!(default_credential_flow_timeout().nanos, 5_000_000_000);
    assert_eq!(Duration::from_secs(u64::MAX).nanos, 18_446_744_073_709_551_615_000_000_000);
    let short = Duration { nanos: 1 };
    assert_eq!(short.max(Duration::from_secs(1)), Duration::from_secs(1));
    assert_eq!(Duration::from_secs(1).max(short), Duration::from_secs(1));
}

#[test]
fn budget_goes_by_the_first_timeout() {
    let policies = [
        BackendTrafficPolicy::Other(7),
        BackendTrafficPolicy::HTTP(HTTP::default()),
        http_timeout_policy(Duration::from_secs(9)),
        http_timeout_policy(Duration::from_secs(60)),
    ];
    assert_eq!(credential_flow_budget(&policies), Duration::from_secs(9));
    assert_eq!(credential_flow_budget(&[]), Duration::from_secs(5));
    // The first timeout counts even where a later one is longer than the default.
    let policies = [
        http_timeout_policy(Duration::from_secs(2)),
        http_timeout_policy(Duration::from_secs(60)),
    ];
    assert_eq!(credential_flow_budget(&policies), Duration::from_secs(5));
}

#[test]
fn every_configured_tls_policy_stands_on_https() {
    let first = BackendTLS {
        config: TlsConfig::Configured(3),
        metadata: TlsMetadata { insecure: false },
    };
    let second = insecure_trust();
    let configured = vec![
        BackendTrafficPolicy::BackendTLS(first),
        BackendTrafficPolicy::Other(1),
        BackendTrafficPolicy::BackendTLS(second),
    ];
    let client = adapter(configured.clone());
    assert_eq!(client.policies_for_endpoint("https", &entra_target()), configured);
    assert_eq!(
        client.policies_for_endpoint("http", &entra_target()),
        vec![BackendTrafficPolicy::Other(1)]
    );
    // The scheme of a parsed URL is in lower case: no other spelling is HTTPS.
    assert_eq!(
        client.policies_for_endpoint("HTTPS", &entra_target()),
        vec![BackendTrafficPolicy::Other(1)]
    );
}

#[test]
fn https_on_this_host_has_tls_and_no_tunnel() {
    let proxy = v4([10, 0, 0, 1], 3128);
    let client = adapter(vec![
        BackendTrafficPolicy::Other(1),
        tunnel_policy(proxy),
        http_timeout_policy(Duration::from_secs(8)),
    ]);
    let policies = client.policies_for_endpoint("https", &hostname("LOCALHOST", 443));
    assert_eq!(
        policies,
        vec![
            BackendTrafficPolicy::Other(1),
            http_timeout_policy(Duration::from_secs(8)),
            BackendTrafficPolicy::BackendTLS(system_trust()),
        ]
    );
    // The same budget, and the same choice once more.
    assert_eq!(credential_flow_budget(&policies), credential_flow_budget(&client.policies));
    assert_eq!(credential_flow_budget(&policies), Duration::from_secs(8));
    let again = adapter(policies.clone());
    assert_eq!(again.policies_for_endpoint("https", &hostname("LocalHost", 1)), policies);
}

#[test]
fn host_local_edges() {
    for (octets, local) in [
        ([169, 254, 0, 0], true),
        ([169, 254, 255, 255], true),
        ([169, 253, 1, 1], false),
        ([169, 255, 1, 1], false),
        ([127, 255, 255, 255], true),
        ([128, 0, 0, 1], false),
        ([126, 0, 0, 1], false),
        ([10, 0, 0, 1], false),
        ([0, 0, 0, 0], false),
    ] {
        assert_eq!(is_host_local(&Target::Address(v4(octets, 80))), local, "{octets:?}");
    }
    for (segments, local) in [
        ([0xfe80, 0, 0, 0, 0, 0, 0, 1], true),
        ([0xfebf, 0xffff, 0, 0, 0, 0, 0, 1], true),
        ([0xfec0, 0, 0, 0, 0, 0, 0, 1], false),
        ([0xfe7f, 0, 0, 0, 0, 0, 0, 1], false),
        ([0, 0, 0, 0, 0, 0, 0, 0], false),
        ([0, 0, 0, 0, 0, 0, 0, 2], false),
        ([0, 0, 0, 1, 0, 0, 0, 1], false),
        // A mapped IPv4 loopback address is not the IPv6 loopback address.
        ([0, 0, 0, 0, 0, 0xffff, 0x7f00, 1], false),
    ] {
        assert_eq!(is_host_local(&Target::Address(v6(segments, 80))), local, "{segments:?}");
    }
    for (host, local) in [
        ("localhost", true),
        ("LocalHost", true),
        ("localhost.", false),
        ("localhos", false),
        ("xlocalhost", false),
        ("127.0.0.1", false),
        ("", false),
    ] {
        assert_eq!(is_host_local(&hostname(host, 80)), local, "{host}");
    }
    assert!(!is_host_local(&Target::UnixSocket("/run/token.sock".to_owned())));
}

#[test]
fn text_comparison() {
    assert!(same_text("https", "https"));
    assert!(!same_text("https", "http"));
    assert!(!same_text("https", "httpz"));
    assert!(same_text("", ""));
    assert!(eq_ignore_ascii_case("aZ-[", "Az-["));
    assert!(!eq_ignore_ascii_case("[", "{"));
    assert!(!eq_ignore_ascii_case("@", "`"));
    assert!(!eq_ignore_ascii_case("\u{e9}", "\u{c9}"));
    // The Kelvin sign is no ASCII letter.
    assert!(!eq_ignore_ascii_case("k", "\u{212a}"));
}
