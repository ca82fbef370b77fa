//! Heads of outbound requests.

use vstd::prelude::*;

use crate::method::is_token;
use crate::text::{ascii_lower_text, names_authority, starts_with_slash};

verus! {

/// The request builder of the `http` crate.
#[verifier::external_type_specification]
#[verifier::external_body]
pub struct ExBuilder(http::request::Builder);

/// The request of the `http` crate.
#[verifier::external_type_specification]
#[verifier::external_body]
#[verifier::reject_recursive_types(T)]
pub struct ExRequest<T>(http::Request<T>);

/// The error of the `http` crate.
#[verifier::external_type_specification]
#[verifier::external_body]
pub struct ExError(http::Error);

/// Header fields: for each name, in lower case, its values in order.
pub type Fields = Map<Seq<char>, Seq<Seq<u8>>>;

/// What a request holds before its body.
#[verifier::ext_equal]
pub struct Head {
    pub method: Seq<char>,
    pub uri: Seq<char>,
    pub headers: Fields,
}

/// What a builder has gathered (`method_ref`, `uri_ref`, `headers_ref`); `None`
/// once it has been given something that it refuses.
pub uninterp spec fn builder_head(builder: http::request::Builder) -> Option<Head>;

/// What a request holds before its body.
pub uninterp spec fn request_head(request: http::Request<()>) -> Head;

/// The text of the `http::Uri` that `text` is parsed into; `None` where it is
/// refused.
pub uninterp spec fn uri_text(text: Seq<char>) -> Option<Seq<char>>;

/// A name that a header field can have.
pub open spec fn is_field_name(name: Seq<char>) -> bool {
    is_token(name) && name.len() <= 65535
}

/// A character that a header value can hold: no control but the tab.
pub open spec fn is_value_char(c: char) -> bool {
    ' ' <= c && c != '\u{7f}' || c == '\t'
}

/// A text that a header field can have as its value.
pub open spec fn is_field_value(value: Seq<char>) -> bool {
    forall|i: int| 0 <= i < value.len() ==> is_value_char(#[trigger] value[i])
}

/// `fields` with one more value under `name`.
pub open spec fn with_field(fields: Fields, name: Seq<char>, value: Seq<char>) -> Fields {
    let key = ascii_lower_text(name);
    let bytes = vstd::utf8::encode_utf8(value);
    if fields.contains_key(key) {
        fields.insert(key, fields[key].push(bytes))
    } else {
        fields.insert(key, seq![bytes])
    }
}

/// The most header fields that a request is sure to take, whatever their names.
pub const MAX_SURE_FIELDS: usize = 6554;

/// The most names that the header fields of a request can have.
pub const MAX_FIELD_NAMES: usize = 24576;

/// The most characters that the URI of a request can have.
pub const MAX_URI_LEN: usize = 65534;

/// `http::Request::builder`: a `GET` of `/` without header fields.
#[verifier::external_body]
fn request_builder() -> (r: http::request::Builder)
    ensures
        builder_head(r) == Some(
            (Head { method: "GET"@, uri: "/"@, headers: Map::empty() }),
        ),
{
    http::Request::builder()
}

/// `http::request::Builder::method`: sets the method, which must be a token.
#[verifier::external_body]
fn set_method(builder: http::request::Builder, method: &str) -> (r: http::request::Builder)
    ensures
        builder_head(r) == (match builder_head(builder) {
            Some(h) if is_token(method@) => Some((Head { method: method@, ..h })),
            _ => None,
        }),
{
    builder.method(method)
}

/// `http::request::Builder::uri`: sets the URI, which is parsed from `uri`. One
/// that neither starts with a slash nor names an authority behind a scheme is an
/// authority alone, and is refused where it has a query. A URI of more than
/// 65534 bytes is refused, and so is any of more than 65534 characters.
#[verifier::external_body]
fn set_uri(builder: http::request::Builder, uri: &str) -> (r: http::request::Builder)
    ensures
        builder_head(r) == (match (builder_head(builder), uri_text(uri@)) {
            (Some(h), Some(u)) => Some((Head { uri: u, ..h })),
            _ => None,
        }),
        builder_head(r) is Some && uri@.contains('?') ==> starts_with_slash(uri@)
            || names_authority(uri@),
        builder_head(r) is Some ==> uri@.len() <= MAX_URI_LEN,
{
    builder.uri(uri)
}

/// `http::request::Builder::header`: adds a field behind those of its name. A
/// name that is no token or too long, and a value with a control character,
/// are refused. A builder takes any field as long as it holds fewer than 6554
/// names, and none once it holds 24576; in between, whether it takes one
/// depends on how the names hash, of which nothing is said.
#[verifier::external_body]
fn add_header(builder: http::request::Builder, name: &str, value: &str) -> (r:
    http::request::Builder)
    ensures
        builder_head(r) matches Some(after) ==> {
            &&& is_field_name(name@)
            &&& is_field_value(value@)
            &&& builder_head(builder) matches Some(before)
            &&& before.headers.dom().finite() ==> before.headers.dom().len() < MAX_FIELD_NAMES
            &&& after == (Head { headers: with_field(before.headers, name@, value@), ..before })
        },
        builder_head(builder) matches Some(before) && is_field_name(name@) && is_field_value(value@)
            && before.headers.dom().finite() && before.headers.dom().len() < MAX_SURE_FIELDS
            ==> builder_head(r) is Some,
{
    builder.header(name, value)
}

/// `http::request::Builder::body`: the request, or the first refusal.
#[verifier::external_body]
fn finish(builder: http::request::Builder) -> (r: Result<http::Request<()>, http::Error>)
    ensures
        match r {
            Ok(request) => builder_head(builder) == Some(request_head(request)),
            Err(_) => builder_head(builder) is None,
        },
{
    builder.body(())
}

/// The header fields that `fields` add up to.
pub open spec fn collected(fields: Seq<(String, String)>) -> Fields
    decreases fields.len(),
{
    if fields.len() == 0 {
        Map::empty()
    } else {
        with_field(collected(fields.drop_last()), fields.last().0@, fields.last().1@)
    }
}

/// Every field can stand in a request.
pub open spec fn fields_valid(fields: Seq<(String, String)>) -> bool {
    forall|i: int|
        0 <= i < fields.len() ==> is_field_name((#[trigger] fields[i]).0@) && is_field_value(
            fields[i].1@,
        )
}

/// Fields do not add up to more names than there are fields.
proof fn lemma_collected_len(fields: Seq<(String, String)>)
    ensures
        collected(fields).dom().finite(),
        collected(fields).dom().len() <= fields.len(),
    decreases fields.len(),
{
    if fields.len() > 0 {
        lemma_collected_len(fields.drop_last());
    }
}

/// The first fields do not add up to more names than all of them.
proof fn lemma_collected_grows(fields: Seq<(String, String)>, n: int)
    requires
        0 <= n <= fields.len(),
    ensures
        collected(fields.take(n)).dom().len() <= collected(fields).dom().len(),
    decreases fields.len(),
{
    if n < fields.len() {
        let before = fields.drop_last();
        lemma_collected_grows(before, n);
        lemma_collected_len(before);
        assert(before.take(n) =~= fields.take(n));
    } else {
        assert(fields.take(n) =~= fields);
    }
}

/// The request with the given method, URI and header fields, the fields added
/// one by one. It is refused where the method, the URI or a field is.
pub fn build_request(method: &str, uri: &str, fields: &Vec<(String, String)>) -> (r: Result<
    http::Request<()>,
    http::Error,
>)
    ensures
        r matches Ok(request) ==> {
            &&& is_token(method@)
            &&& fields_valid(fields@)
            &&& collected(fields@).dom().len() <= MAX_FIELD_NAMES
            &&& uri_text(uri@) matches Some(u)
            &&& request_head(request) == (Head {
                method: method@,
                uri: u,
                headers: collected(fields@),
            })
        },
        is_token(method@) && fields_valid(fields@) && uri_text(uri@) is Some && fields@.len()
            <= MAX_SURE_FIELDS ==> r is Ok,
        is_token(method@) && fields_valid(fields@) && uri_text(uri@) is Some && collected(
            fields@,
        ).dom().len() < MAX_SURE_FIELDS ==> r is Ok,
        r is Ok && uri@.contains('?') ==> starts_with_slash(uri@) || names_authority(uri@),
        r is Ok ==> uri@.len() <= MAX_URI_LEN,
{
    let mut builder: http::request::Builder = set_uri(set_method(request_builder(), method), uri);
    let n: usize = fields.len();
    for i in 0..n
        invariant
            n == fields@.len(),
            builder_head(builder) matches Some(h) ==> {
                &&& is_token(method@)
                &&& fields_valid(fields@.take(i as int))
                &&& collected(fields@.take(i as int)).dom().len() <= MAX_FIELD_NAMES
                &&& uri_text(uri@) matches Some(u)
                &&& h == (Head {
                    method: method@,
                    uri: u,
                    headers: collected(fields@.take(i as int)),
                })
            },
            is_token(method@) && fields_valid(fields@) && uri_text(uri@) is Some && fields@.len()
                <= MAX_SURE_FIELDS ==> builder_head(builder) is Some,
            is_token(method@) && fields_valid(fields@) && uri_text(uri@) is Some && collected(
                fields@,
            ).dom().len() < MAX_SURE_FIELDS ==> builder_head(builder) is Some,
            builder_head(builder) is Some && uri@.contains('?') ==> starts_with_slash(uri@)
                || names_authority(uri@),
            builder_head(builder) is Some ==> uri@.len() <= MAX_URI_LEN,
    {
        proof {
            let now = fields@.take(i as int);
            let next = fields@.take(i + 1);
            assert(next.drop_last() =~= now);
            assert(next.last() == fields@[i as int]);
            assert(forall|j: int| 0 <= j < i ==> next[j] == #[trigger] now[j]);
            lemma_collected_len(now);
            lemma_collected_grows(fields@, i as int);
        }
        builder = add_header(builder, fields[i].0.as_str(), fields[i].1.as_str());
        proof {
            let now = fields@.take(i as int);
            let next = fields@.take(i + 1);
            if builder_head(builder) is Some {
                assert forall|j: int| 0 <= j < next.len() implies is_field_name(
                    (#[trigger] next[j]).0@,
                ) && is_field_value(next[j].1@) by {
                    if j < i {
                        assert(next[j] == now[j]);
                    }
                }
            }
        }
    }
    assert(fields@.take(n as int) =~= fields@);
    finish(builder)
}

} // verus!
