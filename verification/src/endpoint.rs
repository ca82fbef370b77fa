//! Endpoints that request URLs name.

use url::{Host, Position, Url};
use vstd::prelude::*;

use crate::net::{IpAddr, Ipv4Addr, Ipv6Addr, SocketAddr, Target, TargetView};
use crate::request::MAX_URI_LEN;
use crate::text::{names_authority, same_text, starts_with_slash};

verus! {

/// The error of the `url` crate for text that is not an absolute URL.
#[verifier::external_type_specification]
#[verifier::external_body]
pub struct ExParseError(url::ParseError);

/// The host of a URL.
#[derive(Debug)]
pub enum UrlHost {
    Domain(String),
    Ipv4(Ipv4Addr),
    Ipv6(Ipv6Addr),
}

/// The host of a URL, a domain by its characters.
pub enum UrlHostView {
    Domain(Seq<char>),
    Ipv4(Ipv4Addr),
    Ipv6(Ipv6Addr),
}

impl View for UrlHost {
    type V = UrlHostView;

    open spec fn view(&self) -> UrlHostView {
        match self {
            UrlHost::Domain(name) => UrlHostView::Domain(name@),
            UrlHost::Ipv4(ip) => UrlHostView::Ipv4(*ip),
            UrlHost::Ipv6(ip) => UrlHostView::Ipv6(*ip),
        }
    }
}

/// The parts of a URL that decide where a request goes, and how it is shown.
#[derive(Debug)]
pub struct UrlParts {
    /// The whole URL, in its normal form.
    pub text: String,
    pub scheme: String,
    pub host: Option<UrlHost>,
    /// The port that is written, unless it is the one that the scheme has anyway.
    pub port: Option<u16>,
    /// The text up to the end of the path.
    pub before_query: String,
    /// The names and the values in the query, decoded, in their order.
    pub query: Option<Vec<(String, String)>>,
    pub fragment: Option<String>,
}

/// The names and the values in a query, in their order.
pub type Pairs = Seq<(Seq<char>, Seq<char>)>;

/// The parts of a URL, texts by their characters.
pub struct UrlView {
    pub text: Seq<char>,
    pub scheme: Seq<char>,
    pub host: Option<UrlHostView>,
    pub port: Option<u16>,
    pub before_query: Seq<char>,
    pub query: Option<Pairs>,
    pub fragment: Option<Seq<char>>,
}

impl View for UrlParts {
    type V = UrlView;

    open spec fn view(&self) -> UrlView {
        UrlView {
            text: self.text@,
            scheme: self.scheme@,
            host: match self.host {
                Some(host) => Some(host@),
                None => None,
            },
            port: self.port,
            before_query: self.before_query@,
            query: match self.query {
                Some(pairs) => Some(pairs@.map_values(|p: (String, String)| (p.0@, p.1@))),
                None => None,
            },
            fragment: match self.fragment {
                Some(fragment) => Some(fragment@),
                None => None,
            },
        }
    }
}

/// The URL that `text` is parsed into; `None` where it is not an absolute URL.
pub uninterp spec fn parsed_url(text: Seq<char>) -> Option<UrlView>;

/// `pairs` written as a query, in the `application/x-www-form-urlencoded` form.
pub uninterp spec fn form_encoded(pairs: Seq<(Seq<char>, Seq<char>)>) -> Seq<char>;

/// What holds of the parts of every URL. One with a query has the mark of a
/// query, and one without a host starts with its scheme and names no authority.
pub open spec fn is_url(url: UrlView) -> bool {
    &&& url.query is Some ==> url.text.contains('?')
    &&& url.host is None ==> !starts_with_slash(url.text) && !names_authority(url.text)
}

/// Whether the value of a query parameter may be shown.
pub open spec fn is_shown_parameter(name: Seq<char>) -> bool {
    name == "api-version"@
}

/// `pairs` with the values redacted that may not be shown.
pub open spec fn redacted(pairs: Pairs) -> Pairs {
    pairs.map_values(
        |p: (Seq<char>, Seq<char>)|
            if is_shown_parameter(p.0) {
                p
            } else {
                (p.0, "REDACTED"@)
            },
    )
}

/// `url` with `query` in place of its query; as it is where it has none.
pub open spec fn with_query(url: UrlView, query: Seq<char>) -> Seq<char> {
    match (url.query, url.fragment) {
        (None, _) => url.text,
        (Some(_), None) => url.before_query + "?"@ + query,
        (Some(_), Some(fragment)) => url.before_query + "?"@ + query + "#"@ + fragment,
    }
}

/// A URL as it may be shown: with its query, if it has one, written anew from
/// its redacted pairs.
pub open spec fn shown_text(url: UrlView) -> Seq<char> {
    with_query(url, form_encoded(redacted(url.query->0)))
}

/// `url::Url::parse`, with what `as_str`, `scheme`, `host`, `port`,
/// `query_pairs` and `fragment` say of the result, and its text up to
/// `url::Position::AfterPath`. A URL has pairs where it has a query (`query`),
/// and then holds a question mark. The text of one without a host starts with
/// the scheme, and is not the scheme, `://` and the start of an authority: what
/// follows the scheme is an opaque path, a path with a slash in front, or `//`
/// with nothing or such a path behind it.
#[verifier::external_body]
pub(crate) fn parse_url(text: &str) -> (r: Result<UrlParts, url::ParseError>)
    ensures
        match r {
            Ok(url) => parsed_url(text@) == Some(url@),
            Err(_) => parsed_url(text@) is None,
        },
        r matches Ok(url) ==> is_url(url@),
{
    let url = Url::parse(text)?;
    let host = url.host().map(|host| match host {
        Host::Domain(name) => UrlHost::Domain(name.to_owned()),
        Host::Ipv4(ip) => UrlHost::Ipv4(Ipv4Addr { octets: ip.octets() }),
        Host::Ipv6(ip) => UrlHost::Ipv6(Ipv6Addr { segments: ip.segments() }),
    });
    Ok(UrlParts {
        scheme: url.scheme().to_owned(),
        host,
        port: url.port(),
        before_query: url[..Position::AfterPath].to_owned(),
        query: url.query().map(|_| url.query_pairs().into_owned().collect()),
        fragment: url.fragment().map(str::to_owned),
        text: url.into(),
    })
}

/// A URL that can be shown. Where the query has to be written anew in front of a
/// fragment, the text is no longer than a request takes.
pub open spec fn showable(url: UrlView) -> bool {
    url.query is None || url.fragment is None || url.text.len() <= MAX_URI_LEN
}

/// `azure_core::http::Sanitizer::sanitize` on the URL `text`, with
/// `typespec_client_core::http::DEFAULT_ALLOWED_QUERY_PARAMETERS`, which holds
/// `api-version` alone, as the query parameters whose values may be shown. A URL
/// without a query is kept. In any other, the query is cleared and each pair
/// appended to it anew, with `REDACTED` in place of a value that may not be
/// shown; what stands before and behind the query is kept. The call panics where
/// a fragment would be put back behind more text than 32 bits can count. With
/// the feature `debug` of `typespec_client_core` it would return every URL as it
/// is; this crate leaves that feature off.
#[verifier::external_body]
pub(crate) fn sanitize_url(text: &str) -> (r: String)
    requires
        parsed_url(text@) matches Some(url) && showable(url),
    ensures
        parsed_url(text@) matches Some(url) ==> r@ == with_query(
            url,
            form_encoded(redacted(url.query->0)),
        ),
{
    let url = Url::parse(text).expect("an absolute URL");
    let allowed = &typespec_client_core::http::DEFAULT_ALLOWED_QUERY_PARAMETERS;
    azure_core::http::Sanitizer::sanitize(&url, allowed)
}

/// A URL as it may be shown: with the values of its query redacted, but for
/// those that are known to be harmless. `None` where `text` is not an absolute
/// URL, or one with a query and a fragment that is too long for a request.
pub fn shown_url(text: &str) -> (r: Option<String>)
    ensures
        match r {
            Some(shown) => {
                &&& parsed_url(text@) matches Some(url)
                &&& is_url(url)
                &&& showable(url)
                &&& shown@ == shown_text(url)
                &&& !url.text.contains('?') ==> shown@ == url.text
            },
            None => parsed_url(text@) matches Some(url) ==> !showable(url),
        },
{
    let url: UrlParts = match parse_url(text) {
        Ok(url) => url,
        Err(_) => return None,
    };
    if url.query.is_none() || url.fragment.is_none() || url.text.as_str().unicode_len()
        <= MAX_URI_LEN {
        Some(sanitize_url(text))
    } else {
        None
    }
}

/// The port of a scheme, where it is known.
pub open spec fn known_port(scheme: Seq<char>) -> Option<u16> {
    if scheme == "http"@ || scheme == "ws"@ {
        Some(80)
    } else if scheme == "https"@ || scheme == "wss"@ {
        Some(443)
    } else if scheme == "ftp"@ {
        Some(21)
    } else {
        None
    }
}

/// The port of a scheme, where it is known.
pub fn scheme_port(scheme: &str) -> (r: Option<u16>)
    ensures
        r == known_port(scheme@),
{
    if same_text(scheme, "http") || same_text(scheme, "ws") {
        Some(80)
    } else if same_text(scheme, "https") || same_text(scheme, "wss") {
        Some(443)
    } else if same_text(scheme, "ftp") {
        Some(21)
    } else {
        None
    }
}

/// The port of a URL that names none, of a scheme whose port is not known.
pub const FALLBACK_PORT: u16 = 80;

/// The port to call: the one that is written, or else that of the scheme.
pub open spec fn port_of(url: UrlView) -> u16 {
    match (url.port, known_port(url.scheme)) {
        (Some(port), _) => port,
        (None, Some(port)) => port,
        (None, None) => FALLBACK_PORT,
    }
}

/// The destination of a request to `url`: its host and its port.
pub open spec fn url_target(url: UrlView) -> Option<TargetView> {
    match url.host {
        None => None,
        Some(UrlHostView::Domain(name)) => Some(TargetView::Hostname(name, port_of(url))),
        Some(UrlHostView::Ipv4(ip)) => Some(
            TargetView::Address(SocketAddr { ip: IpAddr::V4(ip), port: port_of(url) }),
        ),
        Some(UrlHostView::Ipv6(ip)) => Some(
            TargetView::Address(SocketAddr { ip: IpAddr::V6(ip), port: port_of(url) }),
        ),
    }
}

impl UrlParts {
    /// The destination of a request to this URL; `None` where it has no host.
    pub fn target(&self) -> (r: Option<Target>)
        ensures
            match r {
                Some(target) => url_target(self@) == Some(target@),
                None => url_target(self@) is None,
            },
    {
        let port: u16 = match (self.port, scheme_port(self.scheme.as_str())) {
            (Some(port), _) => port,
            (None, Some(port)) => port,
            (None, None) => FALLBACK_PORT,
        };
        match &self.host {
            None => None,
            Some(UrlHost::Domain(name)) => Some(Target::Hostname(name.clone(), port)),
            Some(UrlHost::Ipv4(ip)) => Some(
                Target::Address(SocketAddr { ip: IpAddr::V4(*ip), port }),
            ),
            Some(UrlHost::Ipv6(ip)) => Some(
                Target::Address(SocketAddr { ip: IpAddr::V6(*ip), port }),
            ),
        }
    }
}

} // verus!
