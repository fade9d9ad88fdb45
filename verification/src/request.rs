//! The request bridge: from a request as the HTTP layer delivers it to the
//! compact triple that the script's handler is called with.

use vstd::prelude::*;
use crate::text::same_text;
use crate::token_table::{encoded, TokenTable};
use crate::value::{views_of, Value, ValueView};

verus! {

/// One header line: a name and a value.
#[derive(Debug, Clone, PartialEq, Eq)]
pub struct Header {
    pub name: String,
    pub value: String,
}

/// The mathematical content of a [`Header`].
pub struct HeaderView {
    pub name: Seq<char>,
    pub value: Seq<char>,
}

impl View for Header {
    type V = HeaderView;

    open spec fn view(&self) -> HeaderView {
        HeaderView { name: self.name@, value: self.value@ }
    }
}

/// The views of a list of headers, in order.
pub open spec fn headers_of(headers: Seq<Header>) -> Seq<HeaderView> {
    headers.map_values(|header: Header| header@)
}

/// A request as the HTTP layer delivers it. The headers are in the order
/// in which they arrived; a name may occur more than once.
#[derive(Debug, Clone, PartialEq, Eq)]
pub struct WireRequest {
    pub method: String,
    pub path: String,
    pub headers: Vec<Header>,
    pub body: Vec<u8>,
}

/// The mathematical content of a [`WireRequest`].
pub struct WireRequestView {
    pub method: Seq<char>,
    pub path: Seq<char>,
    pub headers: Seq<HeaderView>,
    pub body: Seq<u8>,
}

impl View for WireRequest {
    type V = WireRequestView;

    open spec fn view(&self) -> WireRequestView {
        WireRequestView {
            method: self.method@,
            path: self.path@,
            headers: headers_of(self.headers@),
            body: self.body@,
        }
    }
}

/// The three arguments of the handler: method, path and the headers as
/// one flat list in which a name is followed by its value.
#[derive(Debug, Clone, PartialEq, Eq)]
pub struct EncodedRequest {
    pub method: Value,
    pub path: Value,
    pub header_pairs: Vec<Value>,
}

/// The mathematical content of an [`EncodedRequest`].
pub struct EncodedRequestView {
    pub method: ValueView,
    pub path: ValueView,
    pub header_pairs: Seq<ValueView>,
}

impl View for EncodedRequest {
    type V = EncodedRequestView;

    open spec fn view(&self) -> EncodedRequestView {
        EncodedRequestView {
            method: self.method@,
            path: self.path@,
            header_pairs: views_of(self.header_pairs@),
        }
    }
}

/// The method as the handler gets it: token 0 for `GET`, spelled exactly
/// so, and the method's own text for any other.
pub open spec fn encoded_method(method: Seq<char>) -> ValueView {
    if method == "GET"@ {
        ValueView::SmallInteger(0)
    } else {
        ValueView::Str(method)
    }
}

/// The path as the handler gets it: token 0 for `/`, and the path's own
/// text for any other.
pub open spec fn encoded_path(path: Seq<char>) -> ValueView {
    if path == "/"@ {
        ValueView::SmallInteger(0)
    } else {
        ValueView::Str(path)
    }
}

/// The headers as the handler gets them. Header `i` fills the places
/// `2 * i` and `2 * i + 1`: its name, looked up among the table's names,
/// and then its value, looked up among the table's values.
pub open spec fn encoded_pairs(table: TokenTable, headers: Seq<HeaderView>) -> Seq<ValueView> {
    Seq::new(
        2 * headers.len(),
        |k: int|
            if k % 2 == 0 {
                encoded(table.names(), headers[k / 2].name)
            } else {
                encoded(table.values(), headers[k / 2].value)
            },
    )
}

/// The whole request as the handler gets it. The body plays no part.
pub open spec fn encoded_request(
    table: TokenTable,
    request: WireRequestView,
) -> EncodedRequestView {
    EncodedRequestView {
        method: encoded_method(request.method),
        path: encoded_path(request.path),
        header_pairs: encoded_pairs(table, request.headers),
    }
}

/// Every header has a pair of its own, at the place of the header: a
/// name that occurs twice is encoded twice, and nothing changes places.
pub proof fn law_one_pair_per_header(table: TokenTable, headers: Seq<HeaderView>, i: int)
    requires
        0 <= i < headers.len(),
    ensures
        encoded_pairs(table, headers).len() == 2 * headers.len(),
        encoded_pairs(table, headers)[2 * i] == encoded(table.names(), headers[i].name),
        encoded_pairs(table, headers)[2 * i + 1] == encoded(table.values(), headers[i].value),
{
}

/// The handler is not told of the body: two requests that differ in
/// nothing else are encoded alike.
pub proof fn law_body_is_not_forwarded(
    table: TokenTable,
    one: WireRequestView,
    other: WireRequestView,
)
    requires
        one.method == other.method,
        one.path == other.path,
        one.headers == other.headers,
    ensures
        encoded_request(table, one) == encoded_request(table, other),
{
}

/// Encodes the method of a request.
pub fn encode_method(method: &str) -> (value: Value)
    ensures
        value@ == encoded_method(method@),
{
    if same_text(method, "GET") {
        Value::SmallInteger(0)
    } else {
        Value::Str(method.to_owned())
    }
}

/// Encodes the path of a request.
pub fn encode_path(path: &str) -> (value: Value)
    ensures
        value@ == encoded_path(path@),
{
    if same_text(path, "/") {
        Value::SmallInteger(0)
    } else {
        Value::Str(path.to_owned())
    }
}

/// Encodes the headers of a request, one pair for each header, in the
/// order of the headers.
pub fn encode_headers(table: &TokenTable, headers: &Vec<Header>) -> (pairs: Vec<Value>)
    ensures
        views_of(pairs@) == encoded_pairs(*table, headers_of(headers@)),
{
    let ghost wanted = encoded_pairs(*table, headers_of(headers@));
    let mut pairs: Vec<Value> = Vec::new();
    let mut at: usize = 0;
    while at < headers.len()
        invariant
            at <= headers.len(),
            wanted == encoded_pairs(*table, headers_of(headers@)),
            pairs@.len() == 2 * at,
            forall|k: int| 0 <= k < pairs@.len() ==> (#[trigger] pairs@[k])@ == wanted[k],
        decreases headers.len() - at,
    {
        let header = &headers[at];
        let name = table.encode_name(header.name.as_str());
        let value = table.encode_value(header.value.as_str());
        pairs.push(name);
        pairs.push(value);
        at += 1;
    }
    pairs
}

/// Encodes a request for the handler.
pub fn encode_request(table: &TokenTable, request: &WireRequest) -> (encoded: EncodedRequest)
    ensures
        encoded@ == encoded_request(*table, request@),
{
    EncodedRequest {
        method: encode_method(request.method.as_str()),
        path: encode_path(request.path.as_str()),
        header_pairs: encode_headers(table, &request.headers),
    }
}

} // verus!
