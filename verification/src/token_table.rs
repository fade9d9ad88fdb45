//! The token table: a fixed list of well-known header names and a fixed
//! list of well-known header values, each entry standing for the small
//! integer that is its position.
//!
//! Names and values are two separate namespaces. A text is looked up in
//! one of them only, and a token is resolved in the namespace of the
//! position it was found at.

use vstd::prelude::*;
use crate::syntax::{canonical_name, is_canonical_name, is_header_value};
use crate::text::{same_text, text_of, texts_of};
use crate::value::{Value, ValueView};

verus! {

/// The compact form of `text` in a namespace: its position where the
/// namespace lists it, and the text itself where it does not.
pub open spec fn encoded(entries: Seq<Seq<char>>, text: Seq<char>) -> ValueView {
    if entries.contains(text) {
        ValueView::SmallInteger(entries.index_of(text) as u32)
    } else {
        ValueView::Str(text)
    }
}

/// The text that a value stands for in a namespace: the entry at a
/// token's position, or the string that the value carries. A token past
/// the end of the namespace stands for nothing.
pub open spec fn decoded(entries: Seq<Seq<char>>, value: ValueView) -> Option<Seq<char>> {
    match value {
        ValueView::SmallInteger(token) => if token < entries.len() {
            Some(entries[token as int])
        } else {
            None
        },
        ValueView::Str(text) => Some(text),
    }
}

/// What makes a list of entries a namespace: no entry occurs twice, and
/// every position fits a token.
pub open spec fn is_namespace(entries: Seq<Seq<char>>) -> bool {
    &&& entries.no_duplicates()
    &&& entries.len() <= u32::MAX
}

/// The header names that the standard table knows, in token order.
pub open spec fn standard_names() -> Seq<Seq<char>> {
    seq!["accept-encoding"@, "content-length"@, "date"@, "host"@]
}

/// The header values that the standard table knows, in token order.
pub open spec fn standard_values() -> Seq<Seq<char>> {
    seq!["0"@, "1"@, "2"@]
}

/// The two namespaces. Built once, never changed afterwards.
pub struct TokenTable {
    names: Vec<String>,
    values: Vec<String>,
}

impl TokenTable {
    /// The name namespace, in token order.
    pub closed spec fn names(&self) -> Seq<Seq<char>> {
        texts_of(self.names@)
    }

    /// The value namespace, in token order.
    pub closed spec fn values(&self) -> Seq<Seq<char>> {
        texts_of(self.values@)
    }

    /// Holds of every table: both lists are namespaces, every known name
    /// is a header name in canonical form, and every known value is a
    /// header value.
    #[verifier::type_invariant]
    pub open spec fn well_formed(&self) -> bool {
        &&& is_namespace(self.names())
        &&& is_namespace(self.values())
        &&& forall|i: int|
            0 <= i < self.names().len() ==> is_canonical_name(#[trigger] self.names()[i])
        &&& forall|i: int|
            0 <= i < self.values().len() ==> is_header_value(#[trigger] self.values()[i])
    }

    /// The standard table.
    pub fn new() -> (table: TokenTable)
        ensures
            table.well_formed(),
            table.names() == standard_names(),
            table.values() == standard_values(),
    {
        let mut names: Vec<String> = Vec::new();
        names.push("accept-encoding".to_owned());
        names.push("content-length".to_owned());
        names.push("date".to_owned());
        names.push("host".to_owned());
        let mut values: Vec<String> = Vec::new();
        values.push("0".to_owned());
        values.push("1".to_owned());
        values.push("2".to_owned());
        proof {
            lemma_standard_table();
        }
        TokenTable { names, values }
    }

    /// How many names the table knows.
    pub fn name_count(&self) -> (count: usize)
        ensures
            count == self.names().len(),
    {
        self.names.len()
    }

    /// How many values the table knows.
    pub fn value_count(&self) -> (count: usize)
        ensures
            count == self.values().len(),
    {
        self.values.len()
    }

    /// The compact form of a header name.
    pub fn encode_name(&self, name: &str) -> (value: Value)
        ensures
            value@ == encoded(self.names(), name@),
    {
        proof {
            use_type_invariant(self);
        }
        encode_in(&self.names, name)
    }

    /// The compact form of a header value.
    pub fn encode_value(&self, text: &str) -> (value: Value)
        ensures
            value@ == encoded(self.values(), text@),
    {
        proof {
            use_type_invariant(self);
        }
        encode_in(&self.values, text)
    }

    /// The header name that a value stands for, if it stands for one.
    pub fn decode_name(&self, value: &Value) -> (name: Option<String>)
        ensures
            text_of(name) == decoded(self.names(), value@),
    {
        decode_in(&self.names, value)
    }

    /// The header value that a value stands for, if it stands for one.
    pub fn decode_value(&self, value: &Value) -> (text: Option<String>)
        ensures
            text_of(text) == decoded(self.values(), value@),
    {
        decode_in(&self.values, value)
    }
}

/// A text that a namespace lists travels as the token of its position, and
/// the token resolves to the same text again. This holds of the names and
/// of the values of every table.
pub proof fn law_listed_round_trip(table: TokenTable, text: Seq<char>)
    requires
        table.well_formed(),
    ensures
        table.names().contains(text) ==> encoded(table.names(), text) is SmallInteger && decoded(
            table.names(),
            encoded(table.names(), text),
        ) == Some(text),
        table.values().contains(text) ==> encoded(table.values(), text) is SmallInteger
            && decoded(table.values(), encoded(table.values(), text)) == Some(text),
{
}

/// A text that a namespace does not list is encoded as itself, character
/// for character, and a string is decoded as itself.
pub proof fn law_unlisted_pass_through(table: TokenTable, text: Seq<char>)
    ensures
        !table.names().contains(text) ==> encoded(table.names(), text) == ValueView::Str(text),
        !table.values().contains(text) ==> encoded(table.values(), text) == ValueView::Str(text),
        decoded(table.names(), ValueView::Str(text)) == Some(text),
        decoded(table.values(), ValueView::Str(text)) == Some(text),
{
}

/// Within a namespace, tokens and texts are inverse to each other: the
/// entry at a position is encoded as that position.
pub proof fn law_token_round_trip(table: TokenTable, token: u32)
    requires
        table.well_formed(),
    ensures
        token < table.names().len() ==> decoded(table.names(), ValueView::SmallInteger(token))
            is Some && encoded(
            table.names(),
            decoded(table.names(), ValueView::SmallInteger(token))->0,
        ) == ValueView::SmallInteger(token),
        token < table.values().len() ==> decoded(table.values(), ValueView::SmallInteger(token))
            is Some && encoded(
            table.values(),
            decoded(table.values(), ValueView::SmallInteger(token))->0,
        ) == ValueView::SmallInteger(token),
{
    if token < table.names().len() {
        lemma_position_is_token(table.names(), token as int);
    }
    if token < table.values().len() {
        lemma_position_is_token(table.values(), token as int);
    }
}

/// What a table decodes is fit to send: a known name is a header name in
/// canonical form, a known value is a header value.
pub proof fn law_entries_are_sendable(table: TokenTable, token: u32)
    requires
        table.well_formed(),
    ensures
        token < table.names().len() ==> is_canonical_name(table.names()[token as int]),
        token < table.values().len() ==> is_header_value(table.values()[token as int]),
{
}

/// In a namespace the entry at a position is encoded as that position.
pub proof fn lemma_position_is_token(entries: Seq<Seq<char>>, at: int)
    requires
        is_namespace(entries),
        0 <= at < entries.len(),
    ensures
        entries.contains(entries[at]),
        encoded(entries, entries[at]) == ValueView::SmallInteger(at as u32),
{
    // The place that the search settles on holds the same entry, and no
    // two places do.
    let found = entries.index_of(entries[at]);
    assert(entries[found] == entries[at]);
    assert(found == at);
}

/// Looks a text up in one namespace.
fn encode_in(entries: &Vec<String>, text: &str) -> (value: Value)
    requires
        is_namespace(texts_of(entries@)),
    ensures
        value@ == encoded(texts_of(entries@), text@),
{
    let ghost listed = texts_of(entries@);
    let mut at: usize = 0;
    while at < entries.len()
        invariant
            at <= entries.len(),
            listed == texts_of(entries@),
            is_namespace(listed),
            forall|k: int| 0 <= k < at ==> listed[k] != text@,
        decreases entries.len() - at,
    {
        if same_text(entries[at].as_str(), text) {
            proof {
                assert(listed[at as int] == text@);
            }
            return Value::SmallInteger(at as u32);
        }
        at += 1;
    }
    Value::Str(text.to_owned())
}

/// Resolves a value in one namespace.
fn decode_in(entries: &Vec<String>, value: &Value) -> (text: Option<String>)
    ensures
        text_of(text) == decoded(texts_of(entries@), value@),
{
    match value {
        Value::SmallInteger(token) => {
            let at = *token as usize;
            if at < entries.len() {
                Some(entries[at].clone())
            } else {
                None
            }
        },
        Value::Str(text) => Some(text.clone()),
    }
}

/// The standard lists meet everything a table asks of its namespaces.
proof fn lemma_standard_table()
    ensures
        is_namespace(standard_names()),
        is_namespace(standard_values()),
        forall|i: int|
            0 <= i < standard_names().len() ==> is_canonical_name(#[trigger] standard_names()[i]),
        forall|i: int|
            0 <= i < standard_values().len() ==> is_header_value(#[trigger] standard_values()[i]),
{
    reveal_strlit("accept-encoding");
    reveal_strlit("content-length");
    reveal_strlit("date");
    reveal_strlit("host");
    reveal_strlit("0");
    reveal_strlit("1");
    reveal_strlit("2");
    let names = standard_names();
    // Entries of one length differ in their first character.
    assert("date"@[0] != "host"@[0]);
    assert("0"@[0] != "1"@[0]);
    assert("0"@[0] != "2"@[0]);
    assert("1"@[0] != "2"@[0]);
    assert(is_canonical_name(names[0])) by {
        assert(canonical_name(names[0]) =~= names[0]);
    }
    assert(is_canonical_name(names[1])) by {
        assert(canonical_name(names[1]) =~= names[1]);
    }
    assert(is_canonical_name(names[2])) by {
        assert(canonical_name(names[2]) =~= names[2]);
    }
    assert(is_canonical_name(names[3])) by {
        assert(canonical_name(names[3]) =~= names[3]);
    }
}

} // verus!
