//! Heads of requests, headers of responses, and refusals.

use vstd::prelude::*;

use crate::client::{AzurePolicyHttpClient, CredentialRequest, PreparedRequest};
use crate::endpoint::{parsed_url, UrlHostView, UrlView};
use crate::error::{ErrorKind, TransportError};
use crate::headers::{
    headers_valid, is_name, is_text_byte, last_text, map_fields, sdk_headers, text_headers, text_of,
    times_listed, to_headers, undecodable_names,
};
use crate::laws::endpoints::lemma_schemes_differ;
use crate::laws::policies::lemma_policies_by_kind;
use crate::method::{from_method, is_token, is_token_char, Method};
use crate::net::{is_host_local, IpAddr, SocketAddr, Target};
use crate::policy::{BackendTLS, BackendTrafficPolicy, TlsConfig, TlsMetadata};
use crate::request::{
    build_request, collected, is_field_name, is_field_value, is_value_char, request_head, uri_text,
};
use crate::text::ascii_lower_text;

verus! {

/// The named methods are written in capitals.
pub proof fn named_methods(method: Method, r: Result<String, http::method::InvalidMethod>)
    requires
        call_ensures(from_method, (&method,), r),
        !(method is Other),
    ensures
        r is Ok,
        r->Ok_0@ == (match method {
            Method::Get => "GET"@,
            Method::Head => "HEAD"@,
            Method::Post => "POST"@,
            Method::Put => "PUT"@,
            Method::Delete => "DELETE"@,
            Method::Patch => "PATCH"@,
            Method::Other(text) => text@,
        }),
{
}

/// Any other method keeps its text. It is taken exactly if it is a token: not
/// empty, and of token characters throughout.
pub proof fn other_methods(text: String, r: Result<String, http::method::InvalidMethod>)
    requires
        call_ensures(from_method, (&Method::Other(text),), r),
    ensures
        r is Ok ==> r->Ok_0@ == text@,
        r is Ok <==> text@.len() > 0 && forall|i: int|
            0 <= i < text@.len() ==> is_token_char(#[trigger] text@[i]),
{
}

/// The characters of a token: ASCII letters, digits and fifteen signs.
pub proof fn characters_of_tokens(c: char)
    ensures
        is_token_char(c) <==> {
            ||| 'a' <= c <= 'z' || 'A' <= c <= 'Z' || '0' <= c <= '9'
            ||| c == '!' || c == '#' || c == '$' || c == '%' || c == '&'
            ||| c == '\'' || c == '*' || c == '+' || c == '-' || c == '.'
            ||| c == '^' || c == '_' || c == '`' || c == '|' || c == '~'
        },
{
}

/// The name of a header field is a token of at most 65535 characters, and its
/// value holds no control character but the tab. A token is not empty, and has
/// token characters throughout.
pub proof fn texts_of_fields(text: Seq<char>)
    ensures
        is_token(text) <==> text.len() > 0 && forall|k: int|
            0 <= k < text.len() ==> is_token_char(#[trigger] text[k]),
        is_field_name(text) <==> is_token(text) && text.len() <= 65535,
        is_field_value(text) <==> forall|k: int|
            #![trigger text[k]]
            0 <= k < text.len() ==> ' ' <= text[k] && text[k] != '\u{7f}' || text[k] == '\t',
{
    assert(forall|k: int|
        #![trigger text[k]]
        0 <= k < text.len() ==> is_value_char(text[k]) == (' ' <= text[k] && text[k] != '\u{7f}'
            || text[k] == '\t'));
}

/// What the SDK is told of a refusal. Only a request that cannot be built is no
/// failed conversion, and a URL without a host is named.
pub proof fn refusals(error: TransportError, kind: ErrorKind, message: Option<String>)
    requires
        call_ensures(TransportError::kind, (&error,), kind),
        call_ensures(TransportError::message, (&error,), message),
    ensures
        kind == ErrorKind::Other <==> error is Build,
        kind == ErrorKind::DataConversion <==> !(error is Build),
        message is None <==> error is InvalidUrl || error is InvalidMethod,
        error is Build ==> message->0@ == "failed to build `agentgateway` policy client request"@,
        error matches TransportError::NoHost(url) ==> message->0@ == "credential request url '"@
            + url@ + "' has no host"@,
{
}

/// A value is text where every byte of it is visible ASCII, a space or a tab.
proof fn lemma_text_of(value: Seq<u8>)
    ensures
        text_of(value) is Some <==> forall|k: int|
            #![trigger value[k]]
            0 <= k < value.len() ==> (32 <= value[k] < 127 || value[k] == 9),
        text_of(value) is Some ==> text_of(value)->0.len() == value.len() && forall|k: int|
            #![trigger value[k]]
            0 <= k < value.len() ==> text_of(value)->0[k] == value[k] as char,
{
    assert(forall|k: int|
        #![trigger value[k]]
        0 <= k < value.len() ==> is_text_byte(value[k]) == (32 <= value[k] < 127 || value[k]
            == 9));
}

/// The last text of `values` is that of the value behind which none is text.
proof fn lemma_last_text_at(values: Seq<Seq<u8>>, i: int)
    requires
        -1 <= i < values.len(),
        i >= 0 ==> text_of(values[i]) is Some,
        forall|j: int| i < j < values.len() ==> text_of(#[trigger] values[j]) is None,
    ensures
        last_text(values) == (if i >= 0 {
            text_of(values[i])
        } else {
            None
        }),
    decreases values.len(),
{
    if values.len() > 0 && i < values.len() - 1 {
        let before = values.drop_last();
        assert(text_of(values[values.len() - 1]) is None);
        assert(forall|j: int| 0 <= j < before.len() ==> #[trigger] before[j] == values[j]);
        lemma_last_text_at(before, i);
    }
}

/// A header of a response is the last of its values that is visible ASCII,
/// spaces and tabs throughout, byte for byte.
pub proof fn headers_of_responses(
    map: http::HeaderMap<http::HeaderValue>,
    r: azure_core::http::headers::Headers,
    name: Seq<char>,
    i: int,
)
    requires
        call_ensures(to_headers, (&map,), r),
        map_fields(map).contains_key(name),
        0 <= i < map_fields(map)[name].len(),
        forall|k: int|
            #![trigger map_fields(map)[name][i][k]]
            0 <= k < map_fields(map)[name][i].len() ==> 32 <= map_fields(map)[name][i][k] < 127
                || map_fields(map)[name][i][k] == 9,
        forall|j: int|
            #![trigger map_fields(map)[name][j]]
            i < j < map_fields(map)[name].len() ==> exists|k: int|
                #![trigger map_fields(map)[name][j][k]]
                0 <= k < map_fields(map)[name][j].len() && !(32 <= map_fields(map)[name][j][k] < 127
                    || map_fields(map)[name][j][k] == 9),
    ensures
        sdk_headers(r).contains_key(name),
        sdk_headers(r)[name].len() == map_fields(map)[name][i].len(),
        forall|k: int|
            #![trigger sdk_headers(r)[name][k]]
            0 <= k < sdk_headers(r)[name].len() ==> sdk_headers(r)[name][k] as u32
                == map_fields(map)[name][i][k] as u32,
{
    let values = map_fields(map)[name];
    lemma_text_of(values[i]);
    assert forall|j: int| i < j < values.len() implies text_of(#[trigger] values[j]) is None by {
        lemma_text_of(values[j]);
    }
    lemma_last_text_at(values, i);
    assert(text_headers(map_fields(map)).contains_key(name));
    assert forall|k: int| 0 <= k < values[i].len() implies #[trigger] sdk_headers(r)[name][k] as u32
        == values[i][k] as u32 by {
        assert(values[i][k] as char == sdk_headers(r)[name][k]);
    }
}

/// A name that a response does not have, or has without a value that is text,
/// is not among the headers.
pub proof fn headers_without_text(
    map: http::HeaderMap<http::HeaderValue>,
    r: azure_core::http::headers::Headers,
    name: Seq<char>,
)
    requires
        call_ensures(to_headers, (&map,), r),
        map_fields(map).contains_key(name) ==> forall|j: int|
            #![trigger map_fields(map)[name][j]]
            0 <= j < map_fields(map)[name].len() ==> exists|k: int|
                #![trigger map_fields(map)[name][j][k]]
                0 <= k < map_fields(map)[name][j].len() && !(32 <= map_fields(map)[name][j][k] < 127
                    || map_fields(map)[name][j][k] == 9),
    ensures
        !sdk_headers(r).contains_key(name),
{
    if map_fields(map).contains_key(name) {
        let values = map_fields(map)[name];
        assert forall|j: int| 0 <= j < values.len() implies text_of(#[trigger] values[j]) is None by {
            lemma_text_of(values[j]);
        }
        lemma_last_text_at(values, -1);
    }
}

/// Each name is reported as often as it has a value with a byte that is neither
/// visible ASCII nor a space or a tab, and no other name is.
pub proof fn reports_of_undecodable_values(
    map: http::HeaderMap<http::HeaderValue>,
    r: Vec<String>,
    name: Seq<char>,
)
    requires
        call_ensures(undecodable_names, (&map,), r),
    ensures
        r@.filter(|n: String| n@ == name).len() == (if map_fields(map).contains_key(name) {
            map_fields(map)[name].filter(
                |value: Seq<u8>|
                    !(forall|k: int|
                        #![trigger value[k]]
                        0 <= k < value.len() ==> (32 <= value[k] < 127 || value[k] == 9)),
            ).len()
        } else {
            0
        }),
{
    let bad = |value: Seq<u8>|
        !(forall|k: int|
            #![trigger value[k]]
            0 <= k < value.len() ==> (32 <= value[k] < 127 || value[k] == 9));
    assert forall|value: Seq<u8>| #[trigger] bad(value) == (text_of(value) is None) by {
        lemma_text_of(value);
    }
    assert(bad =~= (|value: Seq<u8>| text_of(value) is None));
    assert(is_name(name) =~= (|n: String| n@ == name));
    assert(times_listed(r@, name) == r@.filter(is_name(name)).len());
}

/// What a built request holds: the method and the URI that were given, the URI
/// as it is parsed, each of which can stand in a request.
pub proof fn built_requests_hold_what_was_given(
    method: &str,
    uri: &str,
    fields: Vec<(String, String)>,
    r: Result<http::Request<()>, http::Error>,
)
    requires
        call_ensures(build_request, (method, uri, &fields), r),
        r is Ok,
    ensures
        request_head(r->Ok_0).method == method@,
        uri_text(uri@) == Some(request_head(r->Ok_0).uri),
        is_token(method@),
{
}

/// A request is built only from header fields whose names are tokens of at most
/// 65535 characters, and whose values hold no control character but the tab.
pub proof fn built_requests_have_valid_fields(
    method: &str,
    uri: &str,
    fields: Vec<(String, String)>,
    r: Result<http::Request<()>, http::Error>,
    i: int,
)
    requires
        call_ensures(build_request, (method, uri, &fields), r),
        r is Ok,
        0 <= i < fields@.len(),
    ensures
        is_token(fields@[i].0@),
        fields@[i].0@.len() <= 65535,
        is_field_value(fields@[i].1@),
{
    assert(is_field_name(fields@[i].0@) && is_field_value(fields@[i].1@));
}

/// Fields add up, under each name, to the values of the fields of that name.
proof fn lemma_collected_by_name(
    fields: Seq<(String, String)>,
    name: Seq<char>,
    named: spec_fn((String, String)) -> bool,
    bytes: spec_fn((String, String)) -> Seq<u8>,
)
    requires
        forall|f: (String, String)| #[trigger] named(f) == (ascii_lower_text(f.0@) == name),
        forall|f: (String, String)| #[trigger] bytes(f) == vstd::utf8::encode_utf8(f.1@),
    ensures
        collected(fields).contains_key(name) <==> fields.filter(named).len() > 0,
        collected(fields).contains_key(name) ==> collected(fields)[name] == fields.filter(
            named,
        ).map_values(bytes),
    decreases fields.len(),
{
    reveal(Seq::filter);
    if fields.len() > 0 {
        let before = fields.drop_last();
        let last = fields.last();
        lemma_collected_by_name(before, name, named, bytes);
        let _ = bytes(last);
        if named(last) {
            assert(fields.filter(named) == before.filter(named).push(last));
            assert(fields.filter(named).map_values(bytes) =~= before.filter(named).map_values(
                bytes,
            ).push(bytes(last)));
            if !collected(before).contains_key(name) {
                assert(before.filter(named).map_values(bytes) =~= Seq::empty());
                assert(Seq::empty().push(bytes(last)) =~= seq![bytes(last)]);
            }
        }
    }
}

/// The header fields of a built request: under each name in lower case, the
/// values of the fields of that name in any case, in their order.
pub proof fn built_requests_collect_fields_by_name(
    method: &str,
    uri: &str,
    fields: Vec<(String, String)>,
    r: Result<http::Request<()>, http::Error>,
    name: Seq<char>,
)
    requires
        call_ensures(build_request, (method, uri, &fields), r),
        r is Ok,
    ensures
        request_head(r->Ok_0).headers.contains_key(name) <==> fields@.filter(
            |f: (String, String)|
                f.0@.map_values(
                    |c: char|
                        if 'A' <= c <= 'Z' {
                            (c as u32 + 32) as char
                        } else {
                            c
                        },
                ) == name,
        ).len() > 0,
        request_head(r->Ok_0).headers.contains_key(name) ==> request_head(r->Ok_0).headers[name]
            == fields@.filter(
            |f: (String, String)|
                f.0@.map_values(
                    |c: char|
                        if 'A' <= c <= 'Z' {
                            (c as u32 + 32) as char
                        } else {
                            c
                        },
                ) == name,
        ).map_values(|f: (String, String)| vstd::utf8::encode_utf8(f.1@)),
{
    let lower = |c: char|
        if 'A' <= c <= 'Z' {
            (c as u32 + 32) as char
        } else {
            c
        };
    let named = |f: (String, String)| f.0@.map_values(lower) =~= name;
    let bytes = |f: (String, String)| vstd::utf8::encode_utf8(f.1@);
    assert forall|f: (String, String)| #[trigger] named(f) == (ascii_lower_text(f.0@) == name) by {
        assert(f.0@.map_values(lower) =~= ascii_lower_text(f.0@));
    }
    assert(named =~= (|f: (String, String)|
        f.0@.map_values(
            |c: char|
                if 'A' <= c <= 'Z' {
                    (c as u32 + 32) as char
                } else {
                    c
                },
        ) == name));
    lemma_collected_by_name(fields@, name, named, bytes);
}

/// A request is built where the method is a token, the URI can be parsed, and at
/// most 6554 fields are given, each with a name and a value that a field can
/// have.
pub proof fn valid_requests_are_built(
    method: &str,
    uri: &str,
    fields: Vec<(String, String)>,
    r: Result<http::Request<()>, http::Error>,
)
    requires
        call_ensures(build_request, (method, uri, &fields), r),
        is_token(method@),
        uri_text(uri@) is Some,
        fields@.len() <= 6554,
        forall|i: int|
            #![trigger fields@[i]]
            0 <= i < fields@.len() ==> is_token(fields@[i].0@) && fields@[i].0@.len() <= 65535
                && is_field_value(fields@[i].1@),
    ensures
        r is Ok,
{
}

/// A prepared request goes to the host of its URL, of whichever kind, on the
/// port that the URL writes, or else on that of its scheme, or else on port 80.
pub proof fn prepared_requests_go_to_the_host(
    client: AzurePolicyHttpClient,
    request: CredentialRequest,
    url: UrlView,
    prepared: PreparedRequest,
)
    requires
        call_ensures(
            AzurePolicyHttpClient::prepare_request,
            (&client, &request),
            Ok::<PreparedRequest, TransportError>(prepared),
        ),
        parsed_url(request.url@) == Some(url),
    ensures
        match (url.host, prepared.route.target) {
            (Some(UrlHostView::Domain(domain)), Target::Hostname(name, _)) => name@ == domain,
            (Some(UrlHostView::Ipv4(ip)), Target::Address(SocketAddr { ip: IpAddr::V4(to), .. })) => {
                to == ip
            },
            (Some(UrlHostView::Ipv6(ip)), Target::Address(SocketAddr { ip: IpAddr::V6(to), .. })) => {
                to == ip
            },
            _ => false,
        },
        (match prepared.route.target {
            Target::Hostname(_, port) => port,
            Target::Address(addr) => addr.port,
            Target::UnixSocket(_) => 0,
        }) == (match url.port {
            Some(port) => port,
            None => if url.scheme == "https"@ || url.scheme == "wss"@ {
                443
            } else if url.scheme == "ftp"@ {
                21
            } else {
                80
            },
        }),
{
    lemma_schemes_differ();
}

/// A prepared request goes under the configured policies, but for TLS off HTTPS
/// and tunnels to this host, in their order, and then under TLS that checks
/// certificates against the roots of the system on HTTPS without a configured
/// TLS policy.
pub proof fn prepared_requests_carry_the_policies(
    client: AzurePolicyHttpClient,
    request: CredentialRequest,
    url: UrlView,
    prepared: PreparedRequest,
    https: bool,
    local: bool,
    policies: Seq<BackendTrafficPolicy>,
    chosen: Seq<BackendTrafficPolicy>,
)
    requires
        policies == client.policies@,
        chosen == prepared.route.policies@,
        call_ensures(
            AzurePolicyHttpClient::prepare_request,
            (&client, &request),
            Ok::<PreparedRequest, TransportError>(prepared),
        ),
        parsed_url(request.url@) == Some(url),
        call_ensures(is_host_local, (&prepared.route.target,), local),
        https == (url.scheme == "https"@),
    ensures
        !https ==> chosen.filter(|p: BackendTrafficPolicy| p is BackendTLS).len() == 0,
        https && (exists|i: int| 0 <= i < policies.len() && #[trigger] policies[i] is BackendTLS)
            ==> chosen.filter(|p: BackendTrafficPolicy| p is BackendTLS) == policies.filter(
            |p: BackendTrafficPolicy| p is BackendTLS,
        ),
        https && !(exists|i: int| 0 <= i < policies.len() && #[trigger] policies[i] is BackendTLS)
            ==> chosen.filter(|p: BackendTrafficPolicy| p is BackendTLS) == seq![
            BackendTrafficPolicy::BackendTLS(
                BackendTLS {
                    config: TlsConfig::SystemTrust,
                    metadata: TlsMetadata { insecure: false },
                },
            ),
        ],
        local ==> chosen.filter(|p: BackendTrafficPolicy| p is Tunnel).len() == 0,
        !local ==> chosen.filter(|p: BackendTrafficPolicy| p is Tunnel) == policies.filter(
            |p: BackendTrafficPolicy| p is Tunnel,
        ),
        chosen.filter(|p: BackendTrafficPolicy| !(p is BackendTLS) && !(p is Tunnel))
            == policies.filter(|p: BackendTrafficPolicy| !(p is BackendTLS) && !(p is Tunnel)),
        chosen.take(
            policies.filter(
                |p: BackendTrafficPolicy| (p is BackendTLS ==> https) && (p is Tunnel ==> !local),
            ).len() as int,
        ) == policies.filter(
            |p: BackendTrafficPolicy| (p is BackendTLS ==> https) && (p is Tunnel ==> !local),
        ),
{
    lemma_policies_by_kind(policies, https, local, chosen);
}

/// A prepared request has the method that was asked for, the URL as the `http`
/// crate parses it, each header of the SDK once and no other, and a timeout of
/// five seconds.
pub proof fn prepared_requests_ask_what_was_asked(
    client: AzurePolicyHttpClient,
    request: CredentialRequest,
    url: UrlView,
    method: Result<String, http::method::InvalidMethod>,
    prepared: PreparedRequest,
    name: Seq<char>,
)
    requires
        call_ensures(
            AzurePolicyHttpClient::prepare_request,
            (&client, &request),
            Ok::<PreparedRequest, TransportError>(prepared),
        ),
        call_ensures(from_method, (&request.method,), method),
        parsed_url(request.url@) == Some(url),
    ensures
        method is Ok,
        request_head(prepared.request).method == method->Ok_0@,
        uri_text(url.text) == Some(request_head(prepared.request).uri),
        request_head(prepared.request).headers.contains_key(name) <==> sdk_headers(
            request.headers,
        ).contains_key(name),
        sdk_headers(request.headers).contains_key(name) ==> request_head(
            prepared.request,
        ).headers[name] == seq![vstd::utf8::encode_utf8(sdk_headers(request.headers)[name])],
        prepared.timeout.nanos == 5_000_000_000,
{
}

/// Why a request is refused. A URL that is not absolute comes first, then a
/// method that is none, then what cannot be built, then a URL without a host.
pub proof fn refused_requests(
    client: AzurePolicyHttpClient,
    request: CredentialRequest,
    method: Result<String, http::method::InvalidMethod>,
    r: Result<PreparedRequest, TransportError>,
)
    requires
        call_ensures(AzurePolicyHttpClient::prepare_request, (&client, &request), r),
        call_ensures(from_method, (&request.method,), method),
    ensures
        (r matches Err(TransportError::InvalidUrl(_))) <==> parsed_url(request.url@) is None,
        (r matches Err(TransportError::InvalidMethod(_))) <==> parsed_url(request.url@) is Some
            && method is Err,
        r matches Err(TransportError::NoHost(shown)) ==> parsed_url(request.url@)->0.host is None
            && shown@ == parsed_url(request.url@)->0.text && !shown@.contains('?'),
        r is Ok ==> parsed_url(request.url@)->0.host is Some,
        r is Ok || (r matches Err(TransportError::NoHost(_))) ==> uri_text(
            parsed_url(request.url@)->0.text,
        ) is Some,
{
}

/// A request gets through to its host where the URL is absolute and can stand in
/// a request, the method is taken, and there are at most 6554 headers, each with
/// a name and a value that a header can have: it is refused only if the URL has
/// no host.
pub proof fn valid_requests_are_prepared(
    client: AzurePolicyHttpClient,
    request: CredentialRequest,
    url: UrlView,
    method: Result<String, http::method::InvalidMethod>,
    r: Result<PreparedRequest, TransportError>,
)
    requires
        call_ensures(AzurePolicyHttpClient::prepare_request, (&client, &request), r),
        call_ensures(from_method, (&request.method,), method),
        parsed_url(request.url@) == Some(url),
        method is Ok,
        uri_text(url.text) is Some,
        sdk_headers(request.headers).dom().len() <= 6554,
        forall|name: Seq<char>| #[trigger]
            sdk_headers(request.headers).contains_key(name) ==> is_token(name) && name.len() <= 65535
                && is_field_value(sdk_headers(request.headers)[name]),
    ensures
        url.host is Some ==> r is Ok,
        url.host is None ==> (r matches Err(TransportError::NoHost(_))),
{
    let headers = sdk_headers(request.headers);
    assert forall|name: Seq<char>| #[trigger] headers.contains_key(name) implies is_field_name(name)
        && is_field_value(headers[name]) by {
        }
    assert(headers_valid(headers));
}

/// A header that cannot stand in a request keeps it from being sent.
pub proof fn invalid_headers_are_refused(
    client: AzurePolicyHttpClient,
    request: CredentialRequest,
    r: Result<PreparedRequest, TransportError>,
    name: Seq<char>,
)
    requires
        call_ensures(AzurePolicyHttpClient::prepare_request, (&client, &request), r),
        r is Ok || (r matches Err(TransportError::NoHost(_))),
        sdk_headers(request.headers).contains_key(name),
    ensures
        is_token(name),
        name.len() <= 65535,
        is_field_value(sdk_headers(request.headers)[name]),
{
}

} // verus!
