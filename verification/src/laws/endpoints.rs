//! Where requests go, and how their URLs are shown.

use vstd::prelude::*;

use crate::endpoint::{
    form_encoded, parsed_url, redacted, scheme_port, shown_url, UrlHost, UrlParts, UrlView,
};
use crate::net::{is_host_local, IpAddr, Ipv4Addr, Ipv6Addr, SocketAddr, Target};
use crate::text::{ascii_lower, ascii_lower_text, eq_ignore_ascii_case, same_text};

verus! {

/// The lower-case form of a character is a given small letter exactly if the
/// character is that letter, in either case.
proof fn lemma_lower(c: char, small: char)
    requires
        'a' <= small <= 'z',
    ensures
        ascii_lower(c) == small <==> c == small || 'A' <= c <= 'Z' && c as u32 + 32 == small as u32,
{
    if 'A' <= c <= 'Z' {
        assert(((c as u32 + 32) as char) as u32 == c as u32 + 32);
    }
}

/// A host name is on this host exactly if it is `localhost`, each letter in
/// either case.
pub proof fn local_names(name: String, port: u16, r: bool)
    requires
        call_ensures(is_host_local, (&Target::Hostname(name, port),), r),
    ensures
        r <==> {
            &&& name@.len() == 9
            &&& name@[0] == 'l' || name@[0] == 'L'
            &&& name@[1] == 'o' || name@[1] == 'O'
            &&& name@[2] == 'c' || name@[2] == 'C'
            &&& name@[3] == 'a' || name@[3] == 'A'
            &&& name@[4] == 'l' || name@[4] == 'L'
            &&& name@[5] == 'h' || name@[5] == 'H'
            &&& name@[6] == 'o' || name@[6] == 'O'
            &&& name@[7] == 's' || name@[7] == 'S'
            &&& name@[8] == 't' || name@[8] == 'T'
        },
{
    reveal_strlit("localhost");
    let lower = ascii_lower_text(name@);
    if name@.len() == 9 {
        lemma_lower(name@[0], 'l');
        lemma_lower(name@[1], 'o');
        lemma_lower(name@[2], 'c');
        lemma_lower(name@[3], 'a');
        lemma_lower(name@[4], 'l');
        lemma_lower(name@[5], 'h');
        lemma_lower(name@[6], 'o');
        lemma_lower(name@[7], 's');
        lemma_lower(name@[8], 't');
        assert('L' as u32 == 76 && 'l' as u32 == 108);
        assert(r <==> lower =~= "localhost"@);
        assert(forall|i: int| 0 <= i < 9 ==> #[trigger] lower[i] == ascii_lower(name@[i]));
        assert(lower =~= "localhost"@ <==> lower[0] == 'l' && lower[1] == 'o' && lower[2] == 'c'
            && lower[3] == 'a' && lower[4] == 'l' && lower[5] == 'h' && lower[6] == 'o' && lower[7]
            == 's' && lower[8] == 't');
    } else {
        assert(lower.len() == name@.len());
    }
}

/// An IPv4 address is on this host exactly within 127.0.0.0/8 and 169.254.0.0/16.
pub proof fn local_ipv4_addresses(octets: [u8; 4], port: u16, r: bool)
    requires
        call_ensures(
            is_host_local,
            (&Target::Address(SocketAddr { ip: IpAddr::V4(Ipv4Addr { octets }), port }),),
            r,
        ),
    ensures
        r <==> octets@[0] == 127 || octets@[0] == 169 && octets@[1] == 254,
{
}

/// An IPv6 address is on this host exactly within fe80::/10, and if it is `::1`.
pub proof fn local_ipv6_addresses(segments: [u16; 8], port: u16, r: bool)
    requires
        call_ensures(
            is_host_local,
            (&Target::Address(SocketAddr { ip: IpAddr::V6(Ipv6Addr { segments }), port }),),
            r,
        ),
    ensures
        r <==> 0xfe80 <= segments@[0] <= 0xfebf || segments@ == seq![0u16, 0, 0, 0, 0, 0, 0, 1],
{
    let one = seq![0u16, 0, 0, 0, 0, 0, 0, 1];
    if segments@ == one {
        assert(forall|i: int| 0 <= i < 7 ==> #[trigger] segments@[i] == one[i]);
        assert(segments@[7] == one[7]);
    }
    if r && !(0xfe80 <= segments@[0] <= 0xfebf) {
        assert(segments@ =~= one);
    }
}

/// The path of a socket is not taken for a destination on this host.
pub proof fn sockets_are_not_local(path: String, r: bool)
    requires
        call_ensures(is_host_local, (&Target::UnixSocket(path),), r),
    ensures
        !r,
{
}

/// Which IPv4 addresses are loopback addresses, and which are link-local.
pub proof fn ipv4_ranges(octets: [u8; 4], loopback: bool, link_local: bool)
    requires
        call_ensures(Ipv4Addr::is_loopback, (&Ipv4Addr { octets },), loopback),
        call_ensures(Ipv4Addr::is_link_local, (&Ipv4Addr { octets },), link_local),
    ensures
        loopback <==> octets@[0] == 127,
        link_local <==> octets@[0] == 169 && octets@[1] == 254,
{
}

/// Which IPv6 addresses are loopback addresses, and which are link-local.
pub proof fn ipv6_ranges(segments: [u16; 8], loopback: bool, link_local: bool)
    requires
        call_ensures(Ipv6Addr::is_loopback, (&Ipv6Addr { segments },), loopback),
        call_ensures(Ipv6Addr::is_unicast_link_local, (&Ipv6Addr { segments },), link_local),
    ensures
        loopback <==> segments@ == seq![0u16, 0, 0, 0, 0, 0, 0, 1],
        link_local <==> 0xfe80 <= segments@[0] <= 0xfebf,
{
    let one = seq![0u16, 0, 0, 0, 0, 0, 0, 1];
    if segments@ == one {
        assert(forall|i: int| 0 <= i < 7 ==> #[trigger] segments@[i] == one[i]);
        assert(segments@[7] == one[7]);
    }
    if loopback {
        assert(segments@ =~= one);
    }
}

/// Texts are the same exactly if they have the same characters, and agree up to
/// case exactly if each two characters are the same or differ in the case of an
/// ASCII letter.
pub proof fn comparisons_of_text(a: &str, b: &str, same: bool, alike: bool)
    requires
        call_ensures(same_text, (a, b), same),
        call_ensures(eq_ignore_ascii_case, (a, b), alike),
    ensures
        same <==> a@ == b@,
        alike <==> a@.len() == b@.len() && forall|i: int|
            #![trigger a@[i]]
            0 <= i < a@.len() ==> a@[i] == b@[i] || 'A' <= a@[i] <= 'Z' && b@[i] as u32
                == a@[i] as u32 + 32 || 'A' <= b@[i] <= 'Z' && a@[i] as u32 == b@[i] as u32 + 32,
{
    let x = ascii_lower_text(a@);
    let y = ascii_lower_text(b@);
    assert forall|c: char, d: char| ascii_lower(c) == ascii_lower(d) <==> c == d || 'A' <= c <= 'Z'
        && d as u32 == c as u32 + 32 || 'A' <= d <= 'Z' && c as u32 == d as u32 + 32 by {
        if 'A' <= c <= 'Z' {
            assert(((c as u32 + 32) as char) as u32 == c as u32 + 32);
        }
        if 'A' <= d <= 'Z' {
            assert(((d as u32 + 32) as char) as u32 == d as u32 + 32);
        }
    }
    if alike {
        assert(x.len() == y.len());
        assert forall|i: int| 0 <= i < a@.len() implies ascii_lower(#[trigger] a@[i])
            == ascii_lower(b@[i]) by {
            assert(x[i] == y[i]);
        }
    } else if a@.len() == b@.len() {
        if forall|i: int| 0 <= i < a@.len() ==> ascii_lower(#[trigger] a@[i]) == ascii_lower(b@[i]) {
            assert(x =~= y);
        }
    }
}

/// The names of the schemes whose ports are known differ.
pub(crate) proof fn lemma_schemes_differ()
    ensures
        "https"@ != "http"@,
        "https"@ != "ws"@,
        "wss"@ != "http"@,
        "wss"@ != "ws"@,
        "ftp"@ != "http"@,
        "ftp"@ != "ws"@,
        "ftp"@ != "https"@,
        "ftp"@ != "wss"@,
{
    reveal_strlit("http");
    reveal_strlit("https");
    reveal_strlit("ws");
    reveal_strlit("wss");
    reveal_strlit("ftp");
    assert("http"@.len() == 4 && "https"@.len() == 5 && "ws"@.len() == 2);
    assert("wss"@[0] == 'w' && "ftp"@[0] == 'f');
    assert("wss"@.len() == 3 && "ftp"@.len() == 3);
}

/// The port of a scheme: 80 for HTTP, plain or as a web socket, 443 for both
/// under TLS, 21 for FTP, and none for any other scheme.
pub proof fn ports_of_schemes(scheme: &str, r: Option<u16>)
    requires
        call_ensures(scheme_port, (scheme,), r),
    ensures
        scheme@ == "http"@ || scheme@ == "ws"@ ==> r == Some(80u16),
        scheme@ == "https"@ || scheme@ == "wss"@ ==> r == Some(443u16),
        scheme@ == "ftp"@ ==> r == Some(21u16),
        r is Some ==> scheme@ == "http"@ || scheme@ == "ws"@ || scheme@ == "https"@ || scheme@
            == "wss"@ || scheme@ == "ftp"@,
{
    lemma_schemes_differ();
}

/// A URL leads to its host, of whichever kind, on the port that it writes, or
/// else on that of its scheme, or else on port 80.
pub proof fn targets_are_hosts_with_ports(url: UrlParts, target: Target)
    requires
        call_ensures(UrlParts::target, (&url,), Some(target)),
    ensures
        match (url.host, target) {
            (Some(UrlHost::Domain(domain)), Target::Hostname(name, _)) => name@ == domain@,
            (Some(UrlHost::Ipv4(ip)), Target::Address(SocketAddr { ip: IpAddr::V4(to), .. })) => {
                to == ip
            },
            (Some(UrlHost::Ipv6(ip)), Target::Address(SocketAddr { ip: IpAddr::V6(to), .. })) => {
                to == ip
            },
            _ => false,
        },
        (match target {
            Target::Hostname(_, port) => port,
            Target::Address(addr) => addr.port,
            Target::UnixSocket(_) => 0,
        }) == (match url.port {
            Some(port) => port,
            None => if url.scheme@ == "https"@ || url.scheme@ == "wss"@ {
                443
            } else if url.scheme@ == "ftp"@ {
                21
            } else {
                80
            },
        }),
{
    lemma_schemes_differ();
}

/// A URL leads nowhere exactly if it has no host.
pub proof fn targets_need_hosts(url: UrlParts, r: Option<Target>)
    requires
        call_ensures(UrlParts::target, (&url,), r),
    ensures
        r is None <==> url.host is None,
{
}

/// Text that is no URL is not shown.
pub proof fn only_urls_are_shown(text: &str, r: Option<String>)
    requires
        call_ensures(shown_url, (text,), r),
        parsed_url(text@) is None,
    ensures
        r is None,
{
}

/// A URL without a query is shown as it is.
pub proof fn urls_without_queries_are_kept(text: &str, url: UrlView, r: Option<String>)
    requires
        call_ensures(shown_url, (text,), r),
        parsed_url(text@) == Some(url),
        url.query is None,
    ensures
        r is Some,
        r->0@ == url.text,
{
}

/// A query is shown with the same names in the same order. The value of
/// `api-version` is shown, and for any other `REDACTED` is. What stands before
/// and behind the query is shown as it is. A URL with a query and a fragment
/// that is too long for a request is not shown, and any other is.
pub proof fn queries_are_shown_redacted(
    text: &str,
    url: UrlView,
    r: Option<String>,
    pairs: Seq<(Seq<char>, Seq<char>)>,
    shown: Seq<(Seq<char>, Seq<char>)>,
)
    requires
        call_ensures(shown_url, (text,), r),
        parsed_url(text@) == Some(url),
        url.query == Some(pairs),
        shown.len() == pairs.len(),
        forall|i: int|
            #![trigger shown[i]]
            0 <= i < pairs.len() ==> shown[i].0 == pairs[i].0 && shown[i].1 == (if pairs[i].0
                == "api-version"@ {
                pairs[i].1
            } else {
                "REDACTED"@
            }),
    ensures
        r is Some <==> url.fragment is None || url.text.len() <= 65534,
        r is Some && url.fragment is None ==> r->0@ == url.before_query + "?"@ + form_encoded(
            shown,
        ),
        r is Some && url.fragment is Some ==> r->0@ == url.before_query + "?"@ + form_encoded(shown)
            + "#"@ + url.fragment->0,
{
    assert(redacted(pairs) =~= shown);
}

} // verus!
