//! The response bridge: from the value that the handler returned to a
//! response that the HTTP layer can send.
//!
//! The work is done in two steps. [`read_response`] holds the returned
//! value against the shape that a handler owes: a triple of status,
//! header list and body. [`decode_response`] then resolves the tokens and
//! checks every name, every value and the status against the rules of the
//! HTTP layer. [`response_from`] does both.

use vstd::prelude::*;
use crate::request::{encoded_pairs, headers_of, Header, HeaderView};
use crate::syntax::{
    accepts_header_value, accepts_status, canonical_name, is_canonical_name, is_header_name,
    is_header_value, is_name_char, is_status_code, lower_case, parse_header_name,
};
use crate::token_table::{encoded, TokenTable};
use crate::value::{views_of, Value, ValueView};

verus! {

/// A value that a script handed back, as far as the host looks into it.
#[derive(Debug, PartialEq, Eq)]
pub enum ScriptValue {
    /// A number that is an unsigned integer of 32 bits.
    Integer(u32),
    /// A string.
    Text(String),
    /// An ordered sequence of values.
    Sequence(Vec<ScriptValue>),
    /// Anything else.
    Other,
}

/// Why a returned value did not become a response.
#[derive(Debug, Clone, Copy, PartialEq, Eq, Structural)]
pub enum ResponseError {
    /// The returned value is no sequence.
    NotASequence,
    /// The sequence does not have exactly three elements.
    WrongArity,
    /// The status is no unsigned integer.
    StatusNotUnsigned,
    /// The status does not fit in 16 bits.
    StatusOutOfRange,
    /// The header list is no sequence.
    HeadersNotASequence,
    /// The header list has a name without a value.
    OddHeaderList,
    /// An entry of the header list is neither an integer nor a string.
    HeaderEntryNotAValue,
    /// The body is no string.
    BodyNotText,
    /// The status is no status code of HTTP.
    InvalidStatus,
    /// A name token that the table does not know.
    UnknownNameToken,
    /// A value token that the table does not know.
    UnknownValueToken,
    /// A string that cannot be sent as a header name.
    InvalidHeaderName,
    /// A string that cannot be sent as a header value.
    InvalidHeaderValue,
}

/// A well-shaped answer of the handler: status, headers as one flat list
/// in which a name is followed by its value, and body.
#[derive(Debug, Clone, PartialEq, Eq)]
pub struct EncodedResponse {
    pub status: u16,
    pub header_pairs: Vec<Value>,
    pub body: String,
}

/// The mathematical content of an [`EncodedResponse`].
pub struct EncodedResponseView {
    pub status: u16,
    pub header_pairs: Seq<ValueView>,
    pub body: Seq<char>,
}

impl View for EncodedResponse {
    type V = EncodedResponseView;

    open spec fn view(&self) -> EncodedResponseView {
        EncodedResponseView {
            status: self.status,
            header_pairs: views_of(self.header_pairs@),
            body: self.body@,
        }
    }
}

/// A response as the HTTP layer sends it.
#[derive(Debug, Clone, PartialEq, Eq)]
pub struct WireResponse {
    pub status: u16,
    pub headers: Vec<Header>,
    pub body: String,
}

/// The mathematical content of a [`WireResponse`].
pub struct WireResponseView {
    pub status: u16,
    pub headers: Seq<HeaderView>,
    pub body: Seq<char>,
}

impl View for WireResponse {
    type V = WireResponseView;

    open spec fn view(&self) -> WireResponseView {
        WireResponseView {
            status: self.status,
            headers: headers_of(self.headers@),
            body: self.body@,
        }
    }
}

/// The view of the outcome of a decoding step.
pub open spec fn outcome_of(outcome: Result<WireResponse, ResponseError>) -> Result<
    WireResponseView,
    ResponseError,
> {
    match outcome {
        Ok(response) => Ok(response@),
        Err(error) => Err(error),
    }
}

/// The view of the outcome of a reading step.
pub open spec fn reading_of(outcome: Result<EncodedResponse, ResponseError>) -> Result<
    EncodedResponseView,
    ResponseError,
> {
    match outcome {
        Ok(encoded) => Ok(encoded@),
        Err(error) => Err(error),
    }
}

// ---------------------------------------------------------------------
// The shape of a returned value
// ---------------------------------------------------------------------

/// An entry of a header list as a tagged value: an integer is a token, a
/// string is carried as it is, and nothing else is an entry.
pub open spec fn entry_value(item: ScriptValue) -> Option<ValueView> {
    match item {
        ScriptValue::Integer(token) => Some(ValueView::SmallInteger(token)),
        ScriptValue::Text(text) => Some(ValueView::Str(text@)),
        _ => None,
    }
}

/// What is wrong with the first element, if anything.
pub open spec fn status_fault(item: ScriptValue) -> Option<ResponseError> {
    match item {
        ScriptValue::Integer(status) => if status <= u16::MAX {
            None
        } else {
            Some(ResponseError::StatusOutOfRange)
        },
        _ => Some(ResponseError::StatusNotUnsigned),
    }
}

/// What is wrong with the second element, if anything.
pub open spec fn header_list_fault(item: ScriptValue) -> Option<ResponseError> {
    match item {
        ScriptValue::Sequence(entries) => if entries@.len() % 2 != 0 {
            Some(ResponseError::OddHeaderList)
        } else if exists|i: int|
            0 <= i < entries@.len() && entry_value(#[trigger] entries@[i]) is None {
            Some(ResponseError::HeaderEntryNotAValue)
        } else {
            None
        },
        _ => Some(ResponseError::HeadersNotASequence),
    }
}

/// What is wrong with the third element, if anything.
pub open spec fn body_fault(item: ScriptValue) -> Option<ResponseError> {
    match item {
        ScriptValue::Text(_) => None,
        _ => Some(ResponseError::BodyNotText),
    }
}

/// The first thing that is wrong with the shape of a returned value, if
/// anything is. The checks run in this order: the value is a sequence, of
/// three elements, the status, the header list, the body.
pub open spec fn shape_fault(value: ScriptValue) -> Option<ResponseError> {
    match value {
        ScriptValue::Sequence(items) => if items@.len() != 3 {
            Some(ResponseError::WrongArity)
        } else if status_fault(items@[0]) is Some {
            status_fault(items@[0])
        } else if header_list_fault(items@[1]) is Some {
            header_list_fault(items@[1])
        } else {
            body_fault(items@[2])
        },
        _ => Some(ResponseError::NotASequence),
    }
}

/// The entries of a faultless header list as tagged values.
pub open spec fn entry_values(entries: Seq<ScriptValue>) -> Seq<ValueView> {
    entries.map_values(|item: ScriptValue| entry_value(item)->0)
}

/// What a well-shaped value says: its three elements, read one by one.
pub open spec fn shape_of(value: ScriptValue) -> EncodedResponseView
    recommends
        shape_fault(value) is None,
{
    let items = value->Sequence_0@;
    EncodedResponseView {
        status: items[0]->Integer_0 as u16,
        header_pairs: entry_values(items[1]->Sequence_0@),
        body: items[2]->Text_0@,
    }
}

/// The reading of a returned value: its content where the shape is right,
/// and the first fault where it is not.
pub open spec fn shape_read(value: ScriptValue) -> Result<EncodedResponseView, ResponseError> {
    match shape_fault(value) {
        Some(fault) => Err(fault),
        None => Ok(shape_of(value)),
    }
}

/// What has been read has the shape of an encoded response: its header
/// list holds names and values in turn, so its length is even.
pub proof fn law_read_is_paired(value: ScriptValue)
    ensures
        shape_read(value) matches Ok(encoded) ==> encoded.header_pairs.len() % 2 == 0,
{
}

/// Reads the entries of a header list.
fn read_entries(entries: &Vec<ScriptValue>) -> (pairs: Option<Vec<Value>>)
    ensures
        pairs is None <==> exists|i: int|
            0 <= i < entries@.len() && entry_value(#[trigger] entries@[i]) is None,
        pairs matches Some(list) ==> views_of(list@) == entry_values(entries@),
{
    let mut list: Vec<Value> = Vec::new();
    let mut at: usize = 0;
    while at < entries.len()
        invariant
            at <= entries.len(),
            list@.len() == at,
            forall|k: int| 0 <= k < at ==> entry_value(#[trigger] entries@[k]) == Some(list@[k]@),
        decreases entries.len() - at,
    {
        match &entries[at] {
            ScriptValue::Integer(token) => {
                list.push(Value::SmallInteger(*token));
            },
            ScriptValue::Text(text) => {
                list.push(Value::Str(text.clone()));
            },
            _ => {
                return None;
            },
        }
        at += 1;
    }
    Some(list)
}

/// Holds the value that a handler returned against the shape it owes.
pub fn read_response(value: &ScriptValue) -> (outcome: Result<EncodedResponse, ResponseError>)
    ensures
        reading_of(outcome) == shape_read(*value),
{
    match value {
        ScriptValue::Sequence(items) => {
            if items.len() != 3 {
                return Err(ResponseError::WrongArity);
            }
            let status: u16 = match &items[0] {
                ScriptValue::Integer(status) => {
                    if *status > 65535 {
                        return Err(ResponseError::StatusOutOfRange);
                    }
                    *status as u16
                },
                _ => {
                    return Err(ResponseError::StatusNotUnsigned);
                },
            };
            let header_pairs = match &items[1] {
                ScriptValue::Sequence(entries) => {
                    if entries.len() % 2 != 0 {
                        return Err(ResponseError::OddHeaderList);
                    }
                    match read_entries(entries) {
                        Some(list) => list,
                        None => {
                            return Err(ResponseError::HeaderEntryNotAValue);
                        },
                    }
                },
                _ => {
                    return Err(ResponseError::HeadersNotASequence);
                },
            };
            let body = match &items[2] {
                ScriptValue::Text(text) => text.clone(),
                _ => {
                    return Err(ResponseError::BodyNotText);
                },
            };
            Ok(EncodedResponse { status, header_pairs, body })
        },
        _ => Err(ResponseError::NotASequence),
    }
}

// ---------------------------------------------------------------------
// From the encoded response to the wire
// ---------------------------------------------------------------------

/// The header name that a tagged value is sent as: the table's entry for
/// a token, and the canonical form of a string that is a header name.
pub open spec fn sent_name(table: TokenTable, name: ValueView) -> Result<Seq<char>, ResponseError> {
    match name {
        ValueView::SmallInteger(token) => if token < table.names().len() {
            Ok(table.names()[token as int])
        } else {
            Err(ResponseError::UnknownNameToken)
        },
        ValueView::Str(text) => if is_header_name(text) {
            Ok(canonical_name(text))
        } else {
            Err(ResponseError::InvalidHeaderName)
        },
    }
}

/// The header value that a tagged value is sent as: the table's entry for
/// a token, and a string that is a header value as it is.
pub open spec fn sent_value(table: TokenTable, value: ValueView) -> Result<
    Seq<char>,
    ResponseError,
> {
    match value {
        ValueView::SmallInteger(token) => if token < table.values().len() {
            Ok(table.values()[token as int])
        } else {
            Err(ResponseError::UnknownValueToken)
        },
        ValueView::Str(text) => if is_header_value(text) {
            Ok(text)
        } else {
            Err(ResponseError::InvalidHeaderValue)
        },
    }
}

/// The header that a pair is sent as. The name is looked at first.
pub open spec fn sent_header(table: TokenTable, name: ValueView, value: ValueView) -> Result<
    HeaderView,
    ResponseError,
> {
    match sent_name(table, name) {
        Err(error) => Err(error),
        Ok(name) => match sent_value(table, value) {
            Err(error) => Err(error),
            Ok(value) => Ok(HeaderView { name, value }),
        },
    }
}

/// The headers that a flat list of pairs is sent as, in the order of the
/// pairs and with nothing merged or dropped. Where a pair cannot be sent,
/// the result is the error of the first such pair.
pub open spec fn sent_headers(table: TokenTable, pairs: Seq<ValueView>) -> Result<
    Seq<HeaderView>,
    ResponseError,
>
    decreases pairs.len(),
{
    if pairs.len() < 2 {
        Ok(Seq::empty())
    } else {
        match sent_header(table, pairs[0], pairs[1]) {
            Err(error) => Err(error),
            Ok(header) => followed_by(seq![header], sent_headers(table, pairs.skip(2))),
        }
    }
}

/// The headers `done` followed by what `rest` gives, where it gives any.
pub open spec fn followed_by(
    done: Seq<HeaderView>,
    rest: Result<Seq<HeaderView>, ResponseError>,
) -> Result<Seq<HeaderView>, ResponseError> {
    match rest {
        Ok(more) => Ok(done + more),
        Err(error) => Err(error),
    }
}

/// The response that an encoded response is sent as. The checks run in
/// this order: the header list has even length, the status is a status
/// code, the pairs from first to last.
pub open spec fn decoded_response(table: TokenTable, encoded: EncodedResponseView) -> Result<
    WireResponseView,
    ResponseError,
> {
    if encoded.header_pairs.len() % 2 != 0 {
        Err(ResponseError::OddHeaderList)
    } else if !is_status_code(encoded.status) {
        Err(ResponseError::InvalidStatus)
    } else {
        match sent_headers(table, encoded.header_pairs) {
            Err(error) => Err(error),
            Ok(headers) => Ok(
                WireResponseView { status: encoded.status, headers, body: encoded.body },
            ),
        }
    }
}

/// The response that a returned value is sent as: read, then decoded.
pub open spec fn response_of(table: TokenTable, value: ScriptValue) -> Result<
    WireResponseView,
    ResponseError,
> {
    match shape_read(value) {
        Err(error) => Err(error),
        Ok(encoded) => decoded_response(table, encoded),
    }
}

/// A response that the HTTP layer accepts: the status is a status code,
/// every name is a header name in canonical form, every value is a header
/// value.
pub open spec fn is_sendable(response: WireResponseView) -> bool {
    &&& is_status_code(response.status)
    &&& forall|i: int|
        0 <= i < response.headers.len() ==> is_canonical_name(
            (#[trigger] response.headers[i]).name,
        ) && is_header_value(response.headers[i].value)
}

/// The header that pair `i` of a flat list is sent as.
pub open spec fn sent_pair(table: TokenTable, pairs: Seq<ValueView>, i: int) -> Result<
    HeaderView,
    ResponseError,
> {
    sent_header(table, pairs[2 * i], pairs[2 * i + 1])
}

/// Headers are decoded pair by pair. Where every pair can be sent, the
/// response has one header for each pair, in the order of the pairs,
/// with repeated names kept apart. Where some pair cannot be sent, the
/// error is that of the first such pair.
pub proof fn law_headers_pair_by_pair(table: TokenTable, pairs: Seq<ValueView>)
    requires
        pairs.len() % 2 == 0,
    ensures
        match sent_headers(table, pairs) {
            Ok(headers) => {
                &&& headers.len() * 2 == pairs.len()
                &&& forall|i: int|
                    0 <= i < headers.len() ==> #[trigger] sent_pair(table, pairs, i) == Ok::<
                        HeaderView,
                        ResponseError,
                    >(headers[i])
            },
            Err(error) => exists|i: int|
                {
                    &&& 0 <= i < pairs.len() / 2
                    &&& #[trigger] sent_pair(table, pairs, i) == Err::<HeaderView, ResponseError>(
                        error,
                    )
                    &&& forall|j: int| 0 <= j < i ==> (#[trigger] sent_pair(table, pairs, j)) is Ok
                },
        },
    decreases pairs.len(),
{
    if pairs.len() >= 2 {
        let rest = pairs.skip(2);
        law_headers_pair_by_pair(table, rest);
        // Pair `i` of the rest is pair `i + 1` of the whole.
        assert forall|i: int| 0 <= i < rest.len() / 2 implies #[trigger] sent_pair(table, rest, i)
            == sent_pair(table, pairs, i + 1) by {}
        if let Ok(first) = sent_pair(table, pairs, 0) {
            match sent_headers(table, rest) {
                Ok(more) => {
                    let headers = seq![first] + more;
                    assert(sent_headers(table, pairs) == Ok::<Seq<HeaderView>, ResponseError>(
                        headers,
                    ));
                    assert forall|i: int| 0 <= i < headers.len() implies #[trigger] sent_pair(
                        table,
                        pairs,
                        i,
                    ) == Ok::<HeaderView, ResponseError>(headers[i]) by {
                        if i > 0 {
                            assert(sent_pair(table, rest, i - 1) == sent_pair(table, pairs, i));
                        }
                    }
                },
                Err(error) => {
                    let at = choose|i: int|
                        {
                            &&& 0 <= i < rest.len() / 2
                            &&& #[trigger] sent_pair(table, rest, i) == Err::<
                                HeaderView,
                                ResponseError,
                            >(error)
                            &&& forall|j: int|
                                0 <= j < i ==> (#[trigger] sent_pair(table, rest, j)) is Ok
                        };
                    assert(sent_pair(table, pairs, at + 1) == Err::<HeaderView, ResponseError>(
                        error,
                    ));
                    assert forall|j: int| 0 <= j < at + 1 implies (#[trigger] sent_pair(
                        table,
                        pairs,
                        j,
                    )) is Ok by {
                        if j > 0 {
                            assert(sent_pair(table, rest, j - 1) == sent_pair(table, pairs, j));
                        }
                    }
                },
            }
        }
    }
}

/// Whatever is decoded can be sent: the status is a status code, every
/// name is a header name in canonical form, and every value is a header
/// value.
pub proof fn law_decoded_is_sendable(table: TokenTable, encoded: EncodedResponseView)
    requires
        table.well_formed(),
    ensures
        decoded_response(table, encoded) matches Ok(response) ==> is_sendable(response),
{
    if let Ok(response) = decoded_response(table, encoded) {
        let pairs = encoded.header_pairs;
        law_headers_pair_by_pair(table, pairs);
        assert forall|i: int| 0 <= i < response.headers.len() implies is_canonical_name(
            (#[trigger] response.headers[i]).name,
        ) && is_header_value(response.headers[i].value) by {
            assert(sent_pair(table, pairs, i) == Ok::<HeaderView, ResponseError>(
                response.headers[i],
            ));
            if let ValueView::Str(text) = pairs[2 * i] {
                lemma_canonical_is_canonical(text);
            }
        }
    }
}

/// The two bridges agree. Headers that can be sent, encoded as a request
/// encodes them, are decoded to the same headers in the same order.
pub proof fn law_headers_round_trip(table: TokenTable, headers: Seq<HeaderView>)
    requires
        table.well_formed(),
        forall|i: int|
            0 <= i < headers.len() ==> is_canonical_name((#[trigger] headers[i]).name)
                && is_header_value(headers[i].value),
    ensures
        sent_headers(table, encoded_pairs(table, headers)) == Ok::<Seq<HeaderView>, ResponseError>(
            headers,
        ),
    decreases headers.len(),
{
    let pairs = encoded_pairs(table, headers);
    if headers.len() == 0 {
        assert(headers =~= Seq::empty());
    } else {
        let first = headers[0];
        let rest = headers.drop_first();
        assert(pairs.skip(2) =~= encoded_pairs(table, rest));
        assert forall|i: int| 0 <= i < rest.len() implies is_canonical_name(
            (#[trigger] rest[i]).name,
        ) && is_header_value(rest[i].value) by {}
        law_headers_round_trip(table, rest);
        assert(seq![first] + rest =~= headers);
    }
}

/// The canonical form of a header name is a header name, and it is its
/// own canonical form.
pub proof fn lemma_canonical_is_canonical(text: Seq<char>)
    ensures
        is_header_name(text) ==> is_canonical_name(canonical_name(text)),
{
    if is_header_name(text) {
        let folded = canonical_name(text);
        assert forall|i: int| 0 <= i < folded.len() implies is_name_char(
            #[trigger] folded[i],
        ) by {}
        assert(canonical_name(folded) =~= folded) by {
            assert forall|i: int| 0 <= i < folded.len() implies lower_case(
                #[trigger] folded[i],
            ) == folded[i] by {}
        }
    }
}

/// A returned value that is a sequence of any length but three is turned
/// down for its arity, whatever it holds and whatever the table knows.
pub proof fn law_arity_is_three(table: TokenTable, items: Vec<ScriptValue>)
    requires
        items@.len() != 3,
    ensures
        response_of(table, ScriptValue::Sequence(items)) == Err::<WireResponseView, ResponseError>(
            ResponseError::WrongArity,
        ),
{
}

/// The view of the outcome of decoding one text.
pub open spec fn text_outcome(outcome: Result<String, ResponseError>) -> Result<
    Seq<char>,
    ResponseError,
> {
    match outcome {
        Ok(text) => Ok(text@),
        Err(error) => Err(error),
    }
}

/// Decodes the name of a response header.
pub fn decode_header_name(table: &TokenTable, name: &Value) -> (outcome: Result<
    String,
    ResponseError,
>)
    ensures
        text_outcome(outcome) == sent_name(*table, name@),
{
    match name {
        Value::SmallInteger(_) => match table.decode_name(name) {
            Some(known) => Ok(known),
            None => Err(ResponseError::UnknownNameToken),
        },
        Value::Str(text) => match parse_header_name(text.as_str()) {
            Some(parsed) => Ok(parsed),
            None => Err(ResponseError::InvalidHeaderName),
        },
    }
}

/// Decodes the value of a response header.
pub fn decode_header_value(table: &TokenTable, value: &Value) -> (outcome: Result<
    String,
    ResponseError,
>)
    ensures
        text_outcome(outcome) == sent_value(*table, value@),
{
    match value {
        Value::SmallInteger(_) => match table.decode_value(value) {
            Some(known) => Ok(known),
            None => Err(ResponseError::UnknownValueToken),
        },
        Value::Str(text) => if accepts_header_value(text.as_str()) {
            Ok(text.clone())
        } else {
            Err(ResponseError::InvalidHeaderValue)
        },
    }
}

/// Decodes a well-shaped answer of the handler.
pub fn decode_response(table: &TokenTable, encoded: &EncodedResponse) -> (outcome: Result<
    WireResponse,
    ResponseError,
>)
    ensures
        outcome_of(outcome) == decoded_response(*table, encoded@),
{
    let pairs = &encoded.header_pairs;
    if pairs.len() % 2 != 0 {
        return Err(ResponseError::OddHeaderList);
    }
    if !accepts_status(encoded.status) {
        return Err(ResponseError::InvalidStatus);
    }
    let ghost all = views_of(pairs@);
    let mut headers: Vec<Header> = Vec::new();
    let mut at: usize = 0;
    assert(all.skip(0) =~= all);
    while at < pairs.len()
        invariant
            at <= pairs.len(),
            at % 2 == 0,
            pairs.len() % 2 == 0,
            *pairs == encoded.header_pairs,
            is_status_code(encoded.status),
            all == views_of(pairs@),
            sent_headers(*table, all) == followed_by(
                headers_of(headers@),
                sent_headers(*table, all.skip(at as int)),
            ),
        decreases pairs.len() - at,
    {
        assert(all.skip(at as int).skip(2) =~= all.skip(at + 2));
        let name = match decode_header_name(table, &pairs[at]) {
            Ok(name) => name,
            Err(error) => {
                return Err(error);
            },
        };
        let value = match decode_header_value(table, &pairs[at + 1]) {
            Ok(value) => value,
            Err(error) => {
                return Err(error);
            },
        };
        let header = Header { name, value };
        proof {
            let next = sent_headers(*table, all.skip(at + 2));
            assert(headers_of(headers@.push(header)) =~= headers_of(headers@) + seq![header@]);
            if let Ok(more) = next {
                let done = headers_of(headers@);
                assert((done + seq![header@]) + more =~= done + (seq![header@] + more));
            }
        }
        headers.push(header);
        at += 2;
    }
    Ok(WireResponse { status: encoded.status, headers, body: encoded.body.clone() })
}

/// Turns the value that a handler returned into a response.
pub fn response_from(table: &TokenTable, value: &ScriptValue) -> (outcome: Result<
    WireResponse,
    ResponseError,
>)
    ensures
        outcome_of(outcome) == response_of(*table, *value),
{
    match read_response(value) {
        Ok(encoded) => decode_response(table, &encoded),
        Err(error) => Err(error),
    }
}

} // verus!
