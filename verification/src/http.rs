//! Requests as a test server hands them on, and the answers it gives.

use crate::strmap::StringMap;
use crate::text::text_lists;
use crate::text::text_values;
use crate::text::texts;
use vstd::prelude::*;

verus! {

/// A JSON value, carried through as it is.
#[verifier::external_type_specification]
#[verifier::external_body]
pub struct ExValue(serde_json::Value);

/// `Clone::clone` of a JSON value, which `serde_json` derives: the clone is
/// the same value.
pub assume_specification[ <serde_json::Value as Clone>::clone ](value: &serde_json::Value) -> (r:
    serde_json::Value)
    ensures
        r == *value,
;

/// The headers that are kept of the fields of a request: those that have a
/// name and a value that is text, the later of two with one name.
pub open spec fn kept_headers(fields: Seq<(Option<String>, Option<String>)>) -> Map<
    Seq<char>,
    Seq<char>,
>
    decreases fields.len(),
{
    if fields.len() == 0 {
        Map::empty()
    } else {
        let before = kept_headers(fields.drop_last());
        match fields.last() {
            (Some(name), Some(value)) => before.insert(name@, value@),
            _ => before,
        }
    }
}

/// The query of a request: under each key the values that the pairs give
/// it, in the order of the pairs.
pub open spec fn grouped_query(pairs: Seq<(String, String)>) -> Map<Seq<char>, Seq<Seq<char>>>
    decreases pairs.len(),
{
    if pairs.len() == 0 {
        Map::empty()
    } else {
        let before = grouped_query(pairs.drop_last());
        let key = pairs.last().0@;
        let value = pairs.last().1@;
        if before.contains_key(key) {
            before.insert(key, before[key].push(value))
        } else {
            before.insert(key, seq![value])
        }
    }
}

/// Keeps the fields of a request that have a name and a value that is text.
pub fn collect_headers(fields: &Vec<(Option<String>, Option<String>)>) -> (headers: StringMap<
    String,
>)
    ensures
        text_values(headers@) == kept_headers(fields@),
{
    let mut headers: StringMap<String> = StringMap::new();
    let mut i: usize = 0;
    assert(fields@.take(0) =~= Seq::empty());
    assert(text_values(headers@) =~= Map::empty());
    while i < fields.len()
        invariant
            i <= fields@.len(),
            text_values(headers@) == kept_headers(fields@.take(i as int)),
        decreases fields@.len() - i,
    {
        let ghost before = headers@;
        assert(fields@.take(i + 1).drop_last() =~= fields@.take(i as int));
        assert(fields@.take(i + 1).last() == fields@[i as int]);
        match &fields[i] {
            (Some(name), Some(value)) => {
                let name = name.clone();
                let value = value.clone();
                headers.insert(name, value);
                assert(text_values(headers@) =~= text_values(before).insert(name@, value@));
            },
            _ => {},
        }
        i += 1;
    }
    assert(fields@.take(i as int) =~= fields@);
    headers
}

/// Gathers the values of a query under their keys.
pub fn group_query(pairs: &Vec<(String, String)>) -> (query: StringMap<Vec<String>>)
    ensures
        text_lists(query@) == grouped_query(pairs@),
{
    let mut query: StringMap<Vec<String>> = StringMap::new();
    let mut i: usize = 0;
    assert(pairs@.take(0) =~= Seq::empty());
    assert(text_lists(query@) =~= Map::empty());
    while i < pairs.len()
        invariant
            i <= pairs@.len(),
            text_lists(query@) == grouped_query(pairs@.take(i as int)),
        decreases pairs@.len() - i,
    {
        let ghost before = query@;
        assert(pairs@.take(i + 1).drop_last() =~= pairs@.take(i as int));
        assert(pairs@.take(i + 1).last() == pairs@[i as int]);
        let key = pairs[i].0.clone();
        let value = pairs[i].1.clone();
        assert(text_lists(before).contains_key(key@) == before.contains_key(key@));
        let mut values = match query.remove(key.as_str()) {
            Some(values) => values,
            None => Vec::new(),
        };
        let ghost held = values@;
        values.push(value);
        assert(texts(values@) =~= texts(held).push(value@));
        query.insert(key, values);
        assert(query@ =~= before.insert(key@, values));
        assert(text_lists(query@) =~= text_lists(before).insert(key@, texts(values@)));
        assert(texts(values@) == if before.contains_key(key@) {
            text_lists(before)[key@].push(value@)
        } else {
            seq![value@]
        }) by {
            if before.contains_key(key@) {
                assert(held == before[key@]@);
            } else {
                assert(texts(held) =~= Seq::empty());
                assert(texts(values@) =~= seq![value@]);
            }
        }
        i += 1;
    }
    assert(pairs@.take(i as int) =~= pairs@);
    query
}

/// An HTTP request, as contracts see it.
pub struct HttpRequestView {
    /// The body's bytes.
    pub body: Seq<u8>,
    /// The headers, by name.
    pub headers: Map<Seq<char>, Seq<char>>,
    /// The method.
    pub method: Seq<char>,
    /// The path.
    pub path: Seq<char>,
    /// The values of the query, by key.
    pub query: Map<Seq<char>, Seq<Seq<char>>>,
}

/// HTTP request.
#[derive(Clone, Debug, PartialEq, Eq)]
pub struct HttpRequest {
    pub body: Vec<u8>,
    pub headers: StringMap<String>,
    pub method: String,
    pub path: String,
    pub query: StringMap<Vec<String>>,
}

impl View for HttpRequest {
    type V = HttpRequestView;

    open spec fn view(&self) -> HttpRequestView {
        HttpRequestView {
            body: self.body@,
            headers: text_values(self.headers@),
            method: self.method@,
            path: self.path@,
            query: text_lists(self.query@),
        }
    }
}

impl HttpRequest {
    /// The request that a server hands on for what it received: the method,
    /// the path, the pairs of the query string, the header fields, each
    /// with its name, if it has one, and its value, if that is text, and the
    /// body.
    pub fn received(
        method: String,
        path: String,
        query: &Vec<(String, String)>,
        fields: &Vec<(Option<String>, Option<String>)>,
        body: Vec<u8>,
    ) -> (req: Self)
        ensures
            req@ == (HttpRequestView {
                body: body@,
                headers: kept_headers(fields@),
                method: method@,
                path: path@,
                query: grouped_query(query@),
            }),
    {
        HttpRequest {
            body,
            headers: collect_headers(fields),
            method,
            path,
            query: group_query(query),
        }
    }
}

/// HTTP response.
#[derive(Clone, Debug, PartialEq, Eq)]
pub enum HttpResponse {
    Empty,
    Html(String),
    Json(serde_json::Value),
    Text(String),
}

} // verus!
