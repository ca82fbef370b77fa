//! Header collections of requests and responses.

use vstd::prelude::*;

use crate::request::{collected, fields_valid, is_field_name, is_field_value, Fields};
use crate::text::ascii_lower_text;

verus! {

/// The header value of the `http` crate.
#[verifier::external_type_specification]
#[verifier::external_body]
pub struct ExHeaderValue(http::HeaderValue);

/// The header map of the `http` crate.
#[verifier::external_type_specification]
#[verifier::external_body]
#[verifier::reject_recursive_types(T)]
pub struct ExHeaderMap<T>(http::HeaderMap<T>);

/// The header collection of the Azure SDK.
#[verifier::external_type_specification]
#[verifier::external_body]
pub struct ExHeaders(azure_core::http::headers::Headers);

/// Headers of the SDK: one value for each name.
pub type TextHeaders = Map<Seq<char>, Seq<char>>;

/// What a header map holds.
pub uninterp spec fn map_fields(map: http::HeaderMap<http::HeaderValue>) -> Fields;

/// What a header collection of the SDK holds.
pub uninterp spec fn sdk_headers(headers: azure_core::http::headers::Headers) -> TextHeaders;

/// ASCII text without capitals.
pub open spec fn is_lower_ascii(s: Seq<char>) -> bool {
    forall|i: int| 0 <= i < s.len() ==> #[trigger] s[i] <= '\u{7f}' && !('A' <= s[i] <= 'Z')
}

/// The values that `entries` list under `name`, in their order.
pub open spec fn values_of(entries: Seq<(String, Vec<u8>)>, name: Seq<char>) -> Seq<Seq<u8>>
    decreases entries.len(),
{
    if entries.len() == 0 {
        Seq::empty()
    } else {
        let before = values_of(entries.drop_last(), name);
        if entries.last().0@ == name {
            before.push(entries.last().1@)
        } else {
            before
        }
    }
}

/// `entries` list `fields`: under each name, the values that it has, in order.
pub open spec fn lists_fields(entries: Seq<(String, Vec<u8>)>, fields: Fields) -> bool {
    forall|name: Seq<char>| #[trigger]
        values_of(entries, name) == (if fields.contains_key(name) {
            fields[name]
        } else {
            Seq::empty()
        })
}

/// A byte that text in a header value can hold: visible ASCII, space or tab.
pub open spec fn is_text_byte(b: u8) -> bool {
    32 <= b < 127 || b == 9
}

/// The text of a header value, if it is text.
pub open spec fn text_of(value: Seq<u8>) -> Option<Seq<char>> {
    if forall|i: int| 0 <= i < value.len() ==> is_text_byte(#[trigger] value[i]) {
        Some(value.map_values(|b: u8| b as char))
    } else {
        None
    }
}

/// The text of the last of `values` that is text.
pub open spec fn last_text(values: Seq<Seq<u8>>) -> Option<Seq<char>>
    decreases values.len(),
{
    if values.len() == 0 {
        None
    } else if text_of(values.last()) is Some {
        text_of(values.last())
    } else {
        last_text(values.drop_last())
    }
}

/// The text of each field: its last value that is text. A field without such a
/// value is left out.
pub open spec fn text_headers(fields: Fields) -> TextHeaders {
    Map::new(
        |name: Seq<char>| fields.contains_key(name) && last_text(fields[name]) is Some,
        |name: Seq<char>| last_text(fields[name])->0,
    )
}

/// `http::HeaderMap::iter`, each name by its text (`HeaderName::as_str`, which
/// is lower-case ASCII) and each value by its bytes. The values of one name
/// come in the order in which they were added.
#[verifier::external_body]
fn map_entries(map: &http::HeaderMap<http::HeaderValue>) -> (r: Vec<(String, Vec<u8>)>)
    ensures
        lists_fields(r@, map_fields(*map)),
        forall|i: int| 0 <= i < r@.len() ==> is_lower_ascii((#[trigger] r@[i]).0@),
{
    map.iter().map(|(name, value)| (name.as_str().to_owned(), value.as_bytes().to_vec())).collect()
}

/// `http::HeaderValue::to_str`, on the header value with the given bytes
/// (`HeaderValue::from_bytes`): the text of a value of visible ASCII, spaces
/// and tabs, and nothing for any other.
#[verifier::external_body]
fn value_text(bytes: &[u8]) -> (r: Option<String>)
    ensures
        r is Some <==> text_of(bytes@) is Some,
        r matches Some(text) ==> text_of(bytes@) == Some(text@),
{
    let value = http::HeaderValue::from_bytes(bytes).ok()?;
    value.to_str().ok().map(|text| text.to_owned())
}

/// `azure_core::http::headers::Headers::new`: a collection without headers.
#[verifier::external_body]
fn new_headers() -> (r: azure_core::http::headers::Headers)
    ensures
        sdk_headers(r) == TextHeaders::empty(),
{
    azure_core::http::headers::Headers::new()
}

/// `azure_core::http::headers::Headers::insert`: sets the value of a name. A
/// name is kept in lower case, so one that is in lower case is kept as it is.
#[verifier::external_body]
fn insert_header(headers: &mut azure_core::http::headers::Headers, name: String, value: String)
    requires
        is_lower_ascii(name@),
    ensures
        sdk_headers(*final(headers)) == sdk_headers(*old(headers)).insert(name@, value@),
{
    headers.insert(name, value)
}

/// The text headers among `entries`.
spec fn gathered(entries: Seq<(String, Vec<u8>)>) -> TextHeaders {
    Map::new(
        |name: Seq<char>| last_text(values_of(entries, name)) is Some,
        |name: Seq<char>| last_text(values_of(entries, name))->0,
    )
}

/// One more entry sets its name where it is text, and changes nothing else.
proof fn lemma_gathered_step(entries: Seq<(String, Vec<u8>)>)
    requires
        entries.len() > 0,
    ensures
        gathered(entries) == (match text_of(entries.last().1@) {
            Some(text) => gathered(entries.drop_last()).insert(entries.last().0@, text),
            None => gathered(entries.drop_last()),
        }),
{
    let before = entries.drop_last();
    let name = entries.last().0@;
    let value = entries.last().1@;
    assert forall|n: Seq<char>|
        last_text(#[trigger] values_of(entries, n)) == (if n == name && text_of(value) is Some {
            text_of(value)
        } else {
            last_text(values_of(before, n))
        }) by {
        if n == name {
            assert(values_of(entries, n).drop_last() =~= values_of(before, n));
            assert(values_of(entries, n).last() == value);
        }
    }
    let expected = match text_of(value) {
        Some(text) => gathered(before).insert(name, text),
        None => gathered(before),
    };
    assert forall|n: Seq<char>| gathered(entries).contains_key(n) == expected.contains_key(n) by {
        assert(last_text(values_of(entries, n)) is Some == gathered(entries).contains_key(n));
    }
    assert(gathered(entries) =~= expected);
}

/// The headers of a response, as the SDK holds them. Values that are not text
/// are left out, and of several values the last one stands.
pub fn to_headers(map: &http::HeaderMap<http::HeaderValue>) -> (r:
    azure_core::http::headers::Headers)
    ensures
        sdk_headers(r) == text_headers(map_fields(*map)),
{
    let entries: Vec<(String, Vec<u8>)> = map_entries(map);
    let mut headers: azure_core::http::headers::Headers = new_headers();
    let n: usize = entries.len();
    assert(entries@.take(0) =~= Seq::empty());
    assert(sdk_headers(headers) =~= gathered(entries@.take(0)));
    for i in 0..n
        invariant
            n == entries@.len(),
            forall|j: int| 0 <= j < entries@.len() ==> is_lower_ascii((#[trigger] entries@[j]).0@),
            sdk_headers(headers) == gathered(entries@.take(i as int)),
    {
        proof {
            lemma_gathered_step(entries@.take(i + 1));
            assert(entries@.take(i + 1).drop_last() =~= entries@.take(i as int));
            assert(entries@.take(i + 1).last() == entries@[i as int]);
        }
        if let Some(text) = value_text(entries[i].1.as_slice()) {
            insert_header(&mut headers, entries[i].0.clone(), text);
        }
    }
    assert(entries@.take(n as int) =~= entries@);
    proof {
        let fields = map_fields(*map);
        assert forall|name: Seq<char>| gathered(entries@).contains_key(name) == text_headers(
            fields,
        ).contains_key(name) by {
            assert(values_of(entries@, name) == (if fields.contains_key(name) {
                fields[name]
            } else {
                Seq::empty()
            }));
        }
        assert forall|name: Seq<char>| gathered(entries@).contains_key(name) implies gathered(
            entries@,
        )[name] == text_headers(fields)[name] by {
            assert(text_headers(fields).contains_key(name));
            assert(values_of(entries@, name) == fields[name]);
        }
        assert(gathered(entries@) =~= text_headers(fields));
    }
    headers
}

/// How many of `values` are not text.
pub open spec fn undecodable(values: Seq<Seq<u8>>) -> nat {
    values.filter(|value: Seq<u8>| text_of(value) is None).len()
}

/// Whether a text is `name`.
pub open spec fn is_name(name: Seq<char>) -> spec_fn(String) -> bool {
    |n: String| n@ == name
}

/// How often `names` list `name`.
pub open spec fn times_listed(names: Seq<String>, name: Seq<char>) -> nat {
    names.filter(is_name(name)).len()
}

/// `names` list `name`.
pub open spec fn lists_name(names: Seq<String>, name: Seq<char>) -> bool {
    exists|i: int| 0 <= i < names.len() && (#[trigger] names[i])@ == name
}

/// One of `values` is not text.
pub open spec fn has_undecodable(values: Seq<Seq<u8>>) -> bool {
    exists|i: int| 0 <= i < values.len() && text_of(#[trigger] values[i]) is None
}

/// A filter keeps something exactly if something passes it.
proof fn lemma_filter_keeps<A>(s: Seq<A>, p: spec_fn(A) -> bool)
    ensures
        s.filter(p).len() > 0 <==> exists|i: int| 0 <= i < s.len() && p(#[trigger] s[i]),
    decreases s.len(),
{
    reveal(Seq::filter);
    if s.len() > 0 {
        let before = s.drop_last();
        lemma_filter_keeps(before, p);
        if before.filter(p).len() > 0 {
            let i = choose|i: int| 0 <= i < before.len() && p(#[trigger] before[i]);
            assert(p(s[i]));
        }
        if p(s.last()) {
            assert(p(s[s.len() - 1]));
        } else if exists|i: int| 0 <= i < s.len() && p(#[trigger] s[i]) {
            let i = choose|i: int| 0 <= i < s.len() && p(#[trigger] s[i]);
            assert(p(before[i]));
        }
    }
}

/// The names of the values in a response that are not text, and so are left out
/// of its headers: each name as often as it has such a value.
pub fn undecodable_names(map: &http::HeaderMap<http::HeaderValue>) -> (r: Vec<String>)
    ensures
        forall|name: Seq<char>| #[trigger]
            times_listed(r@, name) == (if map_fields(*map).contains_key(name) {
                undecodable(map_fields(*map)[name])
            } else {
                0
            }),
        forall|name: Seq<char>| #[trigger]
            lists_name(r@, name) <==> map_fields(*map).contains_key(name) && has_undecodable(
                map_fields(*map)[name],
            ),
{
    let entries: Vec<(String, Vec<u8>)> = map_entries(map);
    let mut names: Vec<String> = Vec::new();
    let n: usize = entries.len();
    let ghost not_text = |value: Seq<u8>| text_of(value) is None;
    proof {
        reveal(Seq::filter);
        assert(entries@.take(0) =~= Seq::empty());
    }
    for i in 0..n
        invariant
            n == entries@.len(),
            forall|name: Seq<char>| #[trigger]
                times_listed(names@, name) == undecodable(
                    values_of(entries@.take(i as int), name),
                ),
    {
        let ghost listed = names@;
        if value_text(entries[i].1.as_slice()).is_none() {
            names.push(entries[i].0.clone());
        }
        proof {
            reveal(Seq::filter);
            let now = entries@.take(i as int);
            let next = entries@.take(i + 1);
            assert(next.drop_last() =~= now);
            assert(next.last() == entries@[i as int]);
            assert(names@ == listed || names@.drop_last() =~= listed);
            assert forall|name: Seq<char>| #[trigger]
                times_listed(names@, name) == undecodable(values_of(next, name)) by {
                assert(times_listed(listed, name) == undecodable(values_of(now, name)));
                if next.last().0@ == name {
                    assert(values_of(next, name).drop_last() =~= values_of(now, name));
                    assert(values_of(next, name).last() == next.last().1@);
                }
            }
        }
    }
    proof {
        let fields = map_fields(*map);
        assert(entries@.take(n as int) =~= entries@);
        assert forall|name: Seq<char>| #[trigger]
            times_listed(names@, name) == (if fields.contains_key(name) {
                undecodable(fields[name])
            } else {
                0
            }) by {
            assert(values_of(entries@, name) == (if fields.contains_key(name) {
                fields[name]
            } else {
                Seq::empty()
            }));
            reveal(Seq::filter);
        }
        assert forall|name: Seq<char>| #[trigger]
            lists_name(names@, name) <==> fields.contains_key(name) && has_undecodable(
                fields[name],
            ) by {
            let listed = is_name(name);
            lemma_filter_keeps(names@, listed);
            lemma_filter_keeps(fields[name], not_text);
            assert(times_listed(names@, name) == names@.filter(listed).len());
            assert(undecodable(fields[name]) == fields[name].filter(not_text).len());
        }
    }
    names
}

/// `fields` list `headers`: each header once, in some order.
pub open spec fn lists_headers(
    fields: Seq<(String, String)>,
    headers: TextHeaders,
) -> bool {
    &&& forall|i: int|
        0 <= i < fields.len() ==> headers.contains_key((#[trigger] fields[i]).0@)
            && headers[fields[i].0@] == fields[i].1@
    &&& forall|name: Seq<char>| #[trigger]
        headers.contains_key(name) ==> exists|i: int|
            0 <= i < fields.len() && (#[trigger] fields[i]).0@ == name
    &&& forall|i: int, j: int|
        0 <= i < j < fields.len() ==> (#[trigger] fields[i]).0@ != (#[trigger] fields[j]).0@
}

/// `azure_core::http::headers::Headers::iter`, each name and each value by its
/// text (`as_str`). Every header comes once; a name has no ASCII capital. The
/// order is that of a hash map, of which nothing is said.
#[verifier::external_body]
pub(crate) fn header_fields(headers: &azure_core::http::headers::Headers) -> (r: Vec<
    (String, String),
>)
    ensures
        lists_headers(r@, sdk_headers(*headers)),
        forall|i: int|
            0 <= i < r@.len() ==> ascii_lower_text((#[trigger] r@[i]).0@) == r@[i].0@,
{
    headers.iter().map(|(name, value)| (name.as_str().to_owned(), value.as_str().to_owned())).collect()
}

/// The header fields of a request that carries `headers`.
pub open spec fn request_fields(headers: TextHeaders) -> Fields {
    Map::new(
        |name: Seq<char>| headers.contains_key(name),
        |name: Seq<char>| seq![vstd::utf8::encode_utf8(headers[name])],
    )
}

/// Every header can stand in a request.
pub open spec fn headers_valid(headers: TextHeaders) -> bool {
    forall|name: Seq<char>| #[trigger]
        headers.contains_key(name) ==> is_field_name(name) && is_field_value(headers[name])
}

/// Fields with distinct lower-case names add up to one value for each.
proof fn lemma_collected_distinct(fields: Seq<(String, String)>)
    requires
        forall|i: int|
            0 <= i < fields.len() ==> ascii_lower_text((#[trigger] fields[i]).0@) == fields[i].0@,
        forall|i: int, j: int|
            0 <= i < j < fields.len() ==> (#[trigger] fields[i]).0@ != (#[trigger] fields[j]).0@,
    ensures
        forall|name: Seq<char>| #[trigger]
            collected(fields).contains_key(name) <==> exists|i: int|
                0 <= i < fields.len() && (#[trigger] fields[i]).0@ == name,
        forall|i: int|
            0 <= i < fields.len() ==> collected(fields)[(#[trigger] fields[i]).0@]
                == seq![vstd::utf8::encode_utf8(fields[i].1@)],
    decreases fields.len(),
{
    if fields.len() > 0 {
        let before = fields.drop_last();
        let last = fields.last();
        assert(forall|i: int| 0 <= i < before.len() ==> before[i] == #[trigger] fields[i]);
        lemma_collected_distinct(before);
        assert(!collected(before).contains_key(last.0@)) by {
            if collected(before).contains_key(last.0@) {
                let i = choose|i: int| 0 <= i < before.len() && (#[trigger] before[i]).0@ == last.0@;
                assert(fields[i].0@ != fields[fields.len() - 1].0@);
            }
        }
        assert forall|name: Seq<char>| #[trigger]
            collected(fields).contains_key(name) <==> exists|i: int|
                0 <= i < fields.len() && (#[trigger] fields[i]).0@ == name by {
            if name == last.0@ {
                assert(fields[fields.len() - 1].0@ == name);
            } else if collected(before).contains_key(name) {
                let i = choose|i: int| 0 <= i < before.len() && (#[trigger] before[i]).0@ == name;
                assert(fields[i].0@ == name);
            } else if exists|i: int| 0 <= i < fields.len() && (#[trigger] fields[i]).0@ == name {
                let i = choose|i: int| 0 <= i < fields.len() && (#[trigger] fields[i]).0@ == name;
                assert(before[i].0@ == name);
            }
        }
        assert forall|i: int| 0 <= i < fields.len() implies collected(fields)[(
        #[trigger] fields[i]).0@] == seq![vstd::utf8::encode_utf8(fields[i].1@)] by {
            if i < before.len() {
                assert(before[i] == fields[i]);
                assert(fields[i].0@ != fields[fields.len() - 1].0@);
            }
        }
    }
}

/// In whatever order the headers of the SDK come, they add up to the same
/// fields, and are valid together or not at all.
pub proof fn listing_order_is_irrelevant(
    fields: Seq<(String, String)>,
    headers: TextHeaders,
)
    requires
        lists_headers(fields, headers),
        forall|i: int|
            0 <= i < fields.len() ==> ascii_lower_text((#[trigger] fields[i]).0@) == fields[i].0@,
    ensures
        collected(fields) == request_fields(headers),
        fields_valid(fields) <==> headers_valid(headers),
        headers.dom().finite(),
        headers.dom().len() == fields.len(),
{
    lemma_collected_distinct(fields);
    assert(collected(fields) =~= request_fields(headers)) by {
        assert forall|name: Seq<char>| collected(fields).contains_key(name) == #[trigger]
            request_fields(headers).contains_key(name) by {
            if headers.contains_key(name) {
                let i = choose|i: int| 0 <= i < fields.len() && (#[trigger] fields[i]).0@ == name;
                assert(collected(fields).contains_key(fields[i].0@));
            }
        }
        assert forall|name: Seq<char>| collected(fields).contains_key(
            name,
        ) implies #[trigger] collected(fields)[name] == request_fields(headers)[name] by {
            let i = choose|i: int| 0 <= i < fields.len() && (#[trigger] fields[i]).0@ == name;
            assert(headers[fields[i].0@] == fields[i].1@);
        }
    }
    if fields_valid(fields) {
        assert forall|name: Seq<char>| #[trigger] headers.contains_key(name) implies is_field_name(
            name,
        ) && is_field_value(headers[name]) by {
            let i = choose|i: int| 0 <= i < fields.len() && (#[trigger] fields[i]).0@ == name;
            assert(is_field_name(fields[i].0@));
        }
    }
    let names = fields.map_values(|f: (String, String)| f.0@);
    assert(names.no_duplicates()) by {
        assert forall|i: int, j: int|
            0 <= i < names.len() && 0 <= j < names.len() && i != j implies names[i]
            != names[j] by {
            if i < j {
                assert(fields[i].0@ != fields[j].0@);
            } else {
                assert(fields[j].0@ != fields[i].0@);
            }
        }
    }
    names.unique_seq_to_set();
    assert(names.to_set() =~= headers.dom()) by {
        assert forall|name: Seq<char>| names.to_set().contains(name) == #[trigger]
            headers.dom().contains(name) by {
            if headers.contains_key(name) {
                let i = choose|i: int| 0 <= i < fields.len() && (#[trigger] fields[i]).0@ == name;
                assert(names[i] == name);
            }
            if names.contains(name) {
                let i = choose|i: int| 0 <= i < names.len() && names[i] == name;
                assert(headers.contains_key(fields[i].0@));
            }
        }
    }
}

} // verus!
