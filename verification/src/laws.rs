//! What holds of the transport as a whole. The modules below say of each
//! operation what it gives, by its inputs and results alone.

use vstd::prelude::*;

pub mod endpoints;
pub mod messages;
pub mod policies;

use crate::client::{
    applicable, applies, endpoint_policies, has_tls, is_outcome, is_route, PreparedRequest, Route,
};
use crate::endpoint::{is_shown_parameter, port_of, redacted, shown_text, UrlView};
use crate::error::{error_kind, error_message, TransportError};
use crate::headers::{last_text, request_fields, text_headers, text_of, TextHeaders};
use crate::net::{host_local, IpAddr, SocketAddr, TargetView};
use crate::policy::{
    effective_request_timeout, flow_budget, system_trust_spec, BackendTrafficPolicy,
};
use crate::request::Fields;
use crate::text::ascii_lower_text;
use crate::time::default_timeout;

verus! {

/// The TLS policies among `policies`, in their order.
pub open spec fn tls_policies(policies: Seq<BackendTrafficPolicy>) -> Seq<BackendTrafficPolicy> {
    policies.filter(|p: BackendTrafficPolicy| p is BackendTLS)
}

/// The tunnels among `policies`, in their order.
pub open spec fn tunnels(policies: Seq<BackendTrafficPolicy>) -> Seq<BackendTrafficPolicy> {
    policies.filter(|p: BackendTrafficPolicy| p is Tunnel)
}

/// The policies that are neither TLS nor a tunnel, in their order.
pub open spec fn other_policies(policies: Seq<BackendTrafficPolicy>) -> Seq<BackendTrafficPolicy> {
    policies.filter(|p: BackendTrafficPolicy| !(p is BackendTLS) && !(p is Tunnel))
}

/// Two filters in turn keep what both keep.
proof fn lemma_filter_twice<A>(
    s: Seq<A>,
    p: spec_fn(A) -> bool,
    q: spec_fn(A) -> bool,
    both: spec_fn(A) -> bool,
)
    requires
        forall|x: A| #[trigger] both(x) == (p(x) && q(x)),
    ensures
        s.filter(p).filter(q) == s.filter(both),
    decreases s.len(),
{
    reveal(Seq::filter);
    if s.len() > 0 {
        lemma_filter_twice(s.drop_last(), p, q, both);
        let _ = both(s.last());
        if p(s.last()) {
            lemma_filter_push(s.drop_last().filter(p), s.last(), q);
        }
    }
}

/// An element at the end is kept at the end, or not at all.
proof fn lemma_filter_push<A>(s: Seq<A>, x: A, p: spec_fn(A) -> bool)
    ensures
        s.push(x).filter(p) == (if p(x) {
            s.filter(p).push(x)
        } else {
            s.filter(p)
        }),
{
    reveal(Seq::filter);
    assert(s.push(x).drop_last() =~= s);
}

/// A filter that every element passes keeps them all.
proof fn lemma_filter_all<A>(s: Seq<A>, p: spec_fn(A) -> bool)
    requires
        forall|i: int| 0 <= i < s.len() ==> p(#[trigger] s[i]),
    ensures
        s.filter(p) == s,
    decreases s.len(),
{
    reveal(Seq::filter);
    if s.len() > 0 {
        lemma_filter_all(s.drop_last(), p);
        assert(s.drop_last().push(s.last()) =~= s);
    }
}

/// A filter that no element passes keeps none.
proof fn lemma_filter_none<A>(s: Seq<A>, p: spec_fn(A) -> bool)
    requires
        forall|i: int| 0 <= i < s.len() ==> !p(#[trigger] s[i]),
    ensures
        s.filter(p) == Seq::<A>::empty(),
    decreases s.len(),
{
    reveal(Seq::filter);
    if s.len() > 0 {
        lemma_filter_none(s.drop_last(), p);
    }
}

/// The policies for an endpoint that pass `q`, from those configured that pass
/// `both`.
proof fn lemma_endpoint_filter(
    policies: Seq<BackendTrafficPolicy>,
    https: bool,
    local: bool,
    q: spec_fn(BackendTrafficPolicy) -> bool,
    both: spec_fn(BackendTrafficPolicy) -> bool,
)
    requires
        forall|p: BackendTrafficPolicy| #[trigger] both(p) == (applies(p, https, local) && q(p)),
    ensures
        endpoint_policies(policies, https, local).filter(q) == (if https && !has_tls(policies)
            && q(BackendTrafficPolicy::BackendTLS(system_trust_spec())) {
            policies.filter(both).push(BackendTrafficPolicy::BackendTLS(system_trust_spec()))
        } else {
            policies.filter(both)
        }),
{
    let p = |p: BackendTrafficPolicy| applies(p, https, local);
    lemma_filter_twice(policies, p, q, both);
    lemma_filter_push(
        applicable(policies, https, local),
        BackendTrafficPolicy::BackendTLS(system_trust_spec()),
        q,
    );
}

/// The budget is never below the default, and never below the time allowed to
/// one request, so that a configured request timeout is reachable; and it is
/// no longer than the longer of the two.
pub proof fn budget_covers_every_request(policies: Seq<BackendTrafficPolicy>)
    ensures
        flow_budget(policies).nanos >= default_timeout().nanos,
        effective_request_timeout(policies) matches Some(t) ==> flow_budget(policies).nanos
            >= t.nanos,
        flow_budget(policies) == default_timeout() || effective_request_timeout(policies) == Some(
            flow_budget(policies),
        ),
{
}

/// The request timeout that counts is that of the first policy that sets one.
pub proof fn first_request_timeout_counts(policies: Seq<BackendTrafficPolicy>, i: int)
    requires
        0 <= i < policies.len(),
        policies[i].request_timeout() is Some,
        forall|j: int| 0 <= j < i ==> (#[trigger] policies[j]).request_timeout() is None,
    ensures
        effective_request_timeout(policies) == policies[i].request_timeout(),
    decreases i,
{
    if i > 0 {
        assert(policies[0].request_timeout() is None);
        let rest = policies.drop_first();
        assert(forall|j: int| 0 <= j < rest.len() ==> #[trigger] rest[j] == policies[j + 1]);
        first_request_timeout_counts(rest, i - 1);
    }
}

/// Without a policy that sets a request timeout, the budget is the default.
pub proof fn budget_defaults(policies: Seq<BackendTrafficPolicy>)
    requires
        forall|j: int|
            0 <= j < policies.len() ==> (#[trigger] policies[j]).request_timeout() is None,
    ensures
        flow_budget(policies) == default_timeout(),
    decreases policies.len(),
{
    if policies.len() > 0 {
        let rest = policies.drop_first();
        assert(forall|j: int| 0 <= j < rest.len() ==> #[trigger] rest[j] == policies[j + 1]);
        budget_defaults(rest);
        assert(policies[0].request_timeout() is None);
    }
}

/// A policy at the end counts where none before it does.
proof fn lemma_effective_timeout_push(
    policies: Seq<BackendTrafficPolicy>,
    last: BackendTrafficPolicy,
)
    ensures
        effective_request_timeout(policies.push(last)) == (if effective_request_timeout(
            policies,
        ) is Some {
            effective_request_timeout(policies)
        } else {
            last.request_timeout()
        }),
    decreases policies.len(),
{
    let all = policies.push(last);
    if policies.len() == 0 {
        assert(all.drop_first() =~= Seq::empty());
        assert(effective_request_timeout(all.drop_first()) is None);
    } else {
        assert(all.drop_first() =~= policies.drop_first().push(last));
        lemma_effective_timeout_push(policies.drop_first(), last);
    }
}

/// The policies that an endpoint does without set no request timeout.
proof fn lemma_effective_timeout_applicable(
    policies: Seq<BackendTrafficPolicy>,
    https: bool,
    local: bool,
)
    ensures
        effective_request_timeout(applicable(policies, https, local)) == effective_request_timeout(
            policies,
        ),
    decreases policies.len(),
{
    reveal(Seq::filter);
    if policies.len() > 0 {
        let before = policies.drop_last();
        lemma_effective_timeout_applicable(before, https, local);
        assert(before.push(policies.last()) =~= policies);
        lemma_effective_timeout_push(before, policies.last());
        lemma_effective_timeout_push(applicable(before, https, local), policies.last());
    }
}

/// Whatever the endpoint, its policies leave a token fetch the same budget as
/// the configured ones.
pub proof fn endpoint_keeps_budget(
    policies: Seq<BackendTrafficPolicy>,
    https: bool,
    local: bool,
)
    ensures
        flow_budget(endpoint_policies(policies, https, local)) == flow_budget(policies),
{
    lemma_effective_timeout_applicable(policies, https, local);
    lemma_effective_timeout_push(
        applicable(policies, https, local),
        BackendTrafficPolicy::BackendTLS(system_trust_spec()),
    );
}

/// On HTTPS the configured TLS policies stand, all of them and no other; where
/// none is configured, TLS with the roots of the system does. Elsewhere there
/// is no TLS policy.
pub proof fn tls_by_scheme(policies: Seq<BackendTrafficPolicy>, https: bool, local: bool)
    ensures
        tls_policies(endpoint_policies(policies, https, local)) == (if !https {
            Seq::empty()
        } else if has_tls(policies) {
            tls_policies(policies)
        } else {
            seq![BackendTrafficPolicy::BackendTLS(system_trust_spec())]
        }),
{
    let is_tls = |p: BackendTrafficPolicy| p is BackendTLS;
    let both = |p: BackendTrafficPolicy| https && p is BackendTLS;
    lemma_endpoint_filter(policies, https, local, is_tls, both);
    if !https {
        lemma_filter_none(policies, both);
    } else {
        assert(both =~= is_tls);
        if !has_tls(policies) {
            lemma_filter_none(policies, both);
            assert(Seq::empty().push(BackendTrafficPolicy::BackendTLS(system_trust_spec()))
                =~= seq![BackendTrafficPolicy::BackendTLS(system_trust_spec())]);
        }
    }
}

/// There is a TLS policy for an endpoint exactly if it is HTTPS.
pub proof fn tls_exactly_on_https(policies: Seq<BackendTrafficPolicy>, https: bool, local: bool)
    ensures
        has_tls(endpoint_policies(policies, https, local)) == https,
{
    let result = endpoint_policies(policies, https, local);
    let pred = |p: BackendTrafficPolicy| applies(p, https, local);
    let kept = applicable(policies, https, local);
    if https {
        if has_tls(policies) {
            let k = choose|k: int| 0 <= k < policies.len() && #[trigger] policies[k] is BackendTLS;
            if !local || !(policies[k] is Tunnel) {
                policies.lemma_filter_contains(pred, k);
                let m = kept.index_of(policies[k]);
                assert(result[m] is BackendTLS);
            }
        } else {
            assert(result[kept.len() as int] is BackendTLS);
        }
    } else if has_tls(result) {
        let k = choose|k: int| 0 <= k < result.len() && #[trigger] result[k] is BackendTLS;
        policies.lemma_filter_pred(pred, k);
    }
}

/// No tunnel applies to a destination on this host; to any other, all the
/// configured ones do, in their order.
pub proof fn tunnels_by_locality(policies: Seq<BackendTrafficPolicy>, https: bool, local: bool)
    ensures
        tunnels(endpoint_policies(policies, https, local)) == (if local {
            Seq::empty()
        } else {
            tunnels(policies)
        }),
{
    let is_tunnel = |p: BackendTrafficPolicy| p is Tunnel;
    let both = |p: BackendTrafficPolicy| !local && p is Tunnel;
    lemma_endpoint_filter(policies, https, local, is_tunnel, both);
    if local {
        lemma_filter_none(policies, both);
    } else {
        assert(both =~= is_tunnel);
    }
}

/// Policies that are neither TLS nor a tunnel apply to every endpoint, in
/// their order.
pub proof fn other_policies_always_apply(
    policies: Seq<BackendTrafficPolicy>,
    https: bool,
    local: bool,
)
    ensures
        other_policies(endpoint_policies(policies, https, local)) == other_policies(policies),
{
    let is_other = |p: BackendTrafficPolicy| !(p is BackendTLS) && !(p is Tunnel);
    lemma_endpoint_filter(policies, https, local, is_other, is_other);
}

/// The policies for an endpoint are final: choosing among them for the same
/// endpoint changes nothing.
pub proof fn endpoint_policies_are_final(
    policies: Seq<BackendTrafficPolicy>,
    https: bool,
    local: bool,
)
    ensures
        endpoint_policies(endpoint_policies(policies, https, local), https, local)
            == endpoint_policies(policies, https, local),
{
    let result = endpoint_policies(policies, https, local);
    let pred = |p: BackendTrafficPolicy| applies(p, https, local);
    tls_exactly_on_https(policies, https, local);
    assert forall|i: int| 0 <= i < result.len() implies pred(#[trigger] result[i]) by {
        if i < applicable(policies, https, local).len() {
            policies.lemma_filter_pred(pred, i);
        }
    }
    lemma_filter_all(result, pred);
}

/// Every route has TLS exactly if its URL is HTTPS, has no tunnel to a
/// destination on this host, and leaves the configured budget.
pub proof fn routes_follow_the_endpoint(
    route: Route,
    policies: Seq<BackendTrafficPolicy>,
    url: UrlView,
)
    requires
        is_route(route, policies, url),
    ensures
        has_tls(route.policies@) == (url.scheme == "https"@),
        host_local(route.target@) ==> tunnels(route.policies@) == Seq::<
            BackendTrafficPolicy,
        >::empty(),
        flow_budget(route.policies@) == flow_budget(policies),
{
    let https = url.scheme == "https"@;
    let local = host_local(route.target@);
    tls_exactly_on_https(policies, https, local);
    tunnels_by_locality(policies, https, local);
    endpoint_keeps_budget(policies, https, local);
}

/// Whether a destination is on this host does not depend on its port, nor on
/// the case of its name.
pub proof fn locality_ignores_port_and_case(
    ip: IpAddr,
    a: Seq<char>,
    b: Seq<char>,
    p: u16,
    q: u16,
)
    requires
        ascii_lower_text(a) == ascii_lower_text(b),
    ensures
        host_local(TargetView::Address(SocketAddr { ip, port: p })) == host_local(
            TargetView::Address(SocketAddr { ip, port: q }),
        ),
        host_local(TargetView::Hostname(a, p)) == host_local(TargetView::Hostname(b, q)),
{
}

/// A URL that writes no port is called on the port of its scheme, where that is
/// known, and one that writes a port is called on that.
pub proof fn ports_by_scheme(url: UrlView)
    ensures
        url.port matches Some(port) ==> port_of(url) == port,
        url.port is None && url.scheme == "https"@ ==> port_of(url) == 443,
        url.port is None && url.scheme == "http"@ ==> port_of(url) == 80,
{
    reveal_strlit("http");
    reveal_strlit("https");
    reveal_strlit("ws");
    assert("http"@.len() == 4 && "https"@.len() == 5 && "ws"@.len() == 2);
}

/// Two URLs with the same query but for values that may not be shown, and the
/// same text before and behind it.
pub open spec fn alike_but_redacted(a: UrlView, b: UrlView) -> bool {
    &&& a.before_query == b.before_query
    &&& a.fragment == b.fragment
    &&& a.query matches Some(p)
    &&& b.query matches Some(q)
    &&& p.len() == q.len()
    &&& forall|i: int|
        0 <= i < p.len() ==> (#[trigger] p[i]).0 == q[i].0 && (p[i].1 == q[i].1
            || !is_shown_parameter(p[i].0))
}

/// The values of query parameters that may not be shown leave no trace: URLs
/// that differ in nothing else are shown alike.
pub proof fn redacted_values_are_not_shown(a: UrlView, b: UrlView)
    requires
        alike_but_redacted(a, b),
    ensures
        shown_text(a) == shown_text(b),
{
    assert(redacted(a.query->0) =~= redacted(b.query->0));
}

/// Requests to URLs without a host that differ only in the values of query
/// parameters that may not be shown are refused alike: under the same kind and
/// with the same message.
pub proof fn refusals_do_not_tell_redacted_values(
    first: Result<PreparedRequest, TransportError>,
    second: Result<PreparedRequest, TransportError>,
    policies: Seq<BackendTrafficPolicy>,
    method: Seq<char>,
    a: UrlView,
    b: UrlView,
    headers: TextHeaders,
)
    requires
        is_outcome(first, policies, method, Some(a), headers),
        is_outcome(second, policies, method, Some(b), headers),
        a.host is None,
        b.host is None,
        alike_but_redacted(a, b),
    ensures
        first is Err,
        second is Err,
        error_kind(first->Err_0) == error_kind(second->Err_0),
        error_message(first->Err_0) == error_message(second->Err_0),
{
}

/// A header of a response is one of the values that the response gives it, and
/// every later value is not text.
pub proof fn response_headers_are_the_last_text(fields: Fields, name: Seq<char>)
    requires
        text_headers(fields).contains_key(name),
    ensures
        fields.contains_key(name),
        exists|i: int|
            #![trigger fields[name][i]]
            0 <= i < fields[name].len() && text_of(fields[name][i]) == Some(
                text_headers(fields)[name],
            ) && forall|j: int|
                i < j < fields[name].len() ==> text_of(#[trigger] fields[name][j]) is None,
{
    lemma_last_text(fields[name]);
}

/// The last text of `values` is that of one of them, and none follows it.
proof fn lemma_last_text(values: Seq<Seq<u8>>)
    requires
        last_text(values) is Some,
    ensures
        exists|i: int|
            #![trigger values[i]]
            0 <= i < values.len() && text_of(values[i]) == last_text(values) && forall|j: int|
                i < j < values.len() ==> text_of(#[trigger] values[j]) is None,
    decreases values.len(),
{
    if text_of(values.last()) is Some {
        assert(text_of(values[values.len() - 1]) == last_text(values));
    } else {
        let before = values.drop_last();
        lemma_last_text(before);
        let i = choose|i: int|
            #![trigger before[i]]
            0 <= i < before.len() && text_of(before[i]) == last_text(before) && forall|j: int|
                i < j < before.len() ==> text_of(#[trigger] before[j]) is None;
        assert(values[i] == before[i]);
        assert forall|j: int| i < j < values.len() implies text_of(#[trigger] values[j]) is None by {
            if j < before.len() {
                assert(values[j] == before[j]);
            }
        }
    }
}

/// Text of visible ASCII, spaces and tabs.
pub open spec fn is_plain_text(s: Seq<char>) -> bool {
    forall|i: int| 0 <= i < s.len() ==> ' ' <= #[trigger] s[i] <= '~' || s[i] == '\t'
}

/// Headers of plain text that a server sends back as it got them come back to
/// the SDK as it gave them.
pub proof fn echoed_headers_come_back(headers: TextHeaders)
    requires
        forall|name: Seq<char>| #[trigger]
            headers.contains_key(name) ==> is_plain_text(headers[name]),
    ensures
        text_headers(request_fields(headers)) == headers,
{
    let fields = request_fields(headers);
    assert forall|name: Seq<char>| headers.contains_key(name) implies #[trigger] last_text(
        fields[name],
    ) == Some(headers[name]) by {
        let text = headers[name];
        let bytes = vstd::utf8::encode_utf8(text);
        assert(fields[name] == seq![bytes]);
        assert(fields[name].last() == bytes);
        assert(is_plain_text(text));
        assert(vstd::utf8::is_ascii_chars(text));
        vstd::utf8::is_ascii_chars_encode_utf8(text);
        assert(bytes.len() == text.len());
        assert forall|i: int| 0 <= i < bytes.len() implies crate::headers::is_text_byte(
            #[trigger] bytes[i],
        ) && bytes[i] as char == text[i] by {
            assert(bytes[i] == text[i] as u8);
        }
        assert(bytes.map_values(|b: u8| b as char) =~= text);
    }
    assert(text_headers(fields) =~= headers);
}

} // verus!
