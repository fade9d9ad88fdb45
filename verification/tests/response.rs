use dyper::request::Header;
use dyper::response::{
    decode_header_name, decode_header_value, decode_response, read_response, response_from,
    EncodedResponse, ResponseError, ScriptValue, WireResponse,
};
use dyper::token_table::TokenTable;
use dyper::value::Value;

fn number(n: u32) -> ScriptValue {
    ScriptValue::Integer(n)
}

fn words_of(s: &str) -> ScriptValue {
    ScriptValue::Text(s.to_string())
}

fn sequence(items: Vec<ScriptValue>) -> ScriptValue {
    ScriptValue::Sequence(items)
}

fn triple(status: u32, headers: Vec<ScriptValue>, body: &str) -> ScriptValue {
    sequence(vec![number(status), sequence(headers), words_of(body)])
}

fn sent(name: &str, value: &str) -> Header {
    Header { name: name.to_string(), value: value.to_string() }
}

fn carried(s: &str) -> Value {
    Value::Str(s.to_string())
}

#[test]
fn ok_without_headers() {
    let table = TokenTable::new();
    let response = response_from(&table, &triple(200, vec![], "ok")).unwrap();
    assert_eq!(response.status, 200);
    assert_eq!(response.headers.len(), 0);
    assert_eq!(response.body, "ok");
}

#[test]
fn two_elements_are_a_contract_violation() {
    let table = TokenTable::new();
    let value = sequence(vec![number(200), sequence(vec![])]);
    assert_eq!(response_from(&table, &value), Err(ResponseError::WrongArity));
    assert_eq!(read_response(&value), Err(ResponseError::WrongArity));
}

#[test]
fn other_arities_are_violations_too() {
    let table = TokenTable::new();
    assert_eq!(response_from(&table, &sequence(vec![])), Err(ResponseError::WrongArity));
    assert_eq!(response_from(&table, &sequence(vec![number(200)])), Err(ResponseError::WrongArity));
    let four = sequence(vec![number(200), sequence(vec![]), words_of("ok"), words_of("more")]);
    assert_eq!(response_from(&table, &four), Err(ResponseError::WrongArity));
}

#[test]
fn what_is_no_sequence_is_no_response() {
    let table = TokenTable::new();
    assert_eq!(response_from(&table, &number(200)), Err(ResponseError::NotASequence));
    assert_eq!(response_from(&table, &words_of("ok")), Err(ResponseError::NotASequence));
    assert_eq!(response_from(&table, &ScriptValue::Other), Err(ResponseError::NotASequence));
}

#[test]
fn the_status_must_be_an_unsigned_integer() {
    let table = TokenTable::new();
    let value = sequence(vec![words_of("200"), sequence(vec![]), words_of("ok")]);
    assert_eq!(response_from(&table, &value), Err(ResponseError::StatusNotUnsigned));
    let value = sequence(vec![ScriptValue::Other, sequence(vec![]), words_of("ok")]);
    assert_eq!(response_from(&table, &value), Err(ResponseError::StatusNotUnsigned));
    let value = sequence(vec![sequence(vec![]), sequence(vec![]), words_of("ok")]);
    assert_eq!(response_from(&table, &value), Err(ResponseError::StatusNotUnsigned));
}

#[test]
fn the_status_must_fit_sixteen_bits() {
    let table = TokenTable::new();
    assert_eq!(
        response_from(&table, &triple(65536, vec![], "ok")),
        Err(ResponseError::StatusOutOfRange)
    );
    assert_eq!(
        response_from(&table, &triple(65536 + 200, vec![], "ok")),
        Err(ResponseError::StatusOutOfRange)
    );
    assert_eq!(
        response_from(&table, &triple(u32::MAX, vec![], "ok")),
        Err(ResponseError::StatusOutOfRange)
    );
    assert_eq!(
        response_from(&table, &triple(65535, vec![], "ok")),
        Err(ResponseError::InvalidStatus)
    );
}

#[test]
fn the_status_must_be_a_status_code() {
    let table = TokenTable::new();
    for status in [0u32, 1, 99, 1000, 1001, 9999] {
        assert_eq!(
            response_from(&table, &triple(status, vec![], "")),
            Err(ResponseError::InvalidStatus)
        );
    }
    for status in [100u32, 101, 200, 404, 500, 599, 600, 999] {
        let response = response_from(&table, &triple(status, vec![], "")).unwrap();
        assert_eq!(u32::from(response.status), status);
    }
}

#[test]
fn the_headers_must_be_a_sequence() {
    let table = TokenTable::new();
    let value = sequence(vec![number(200), words_of("host"), words_of("ok")]);
    assert_eq!(response_from(&table, &value), Err(ResponseError::HeadersNotASequence));
    let value = sequence(vec![number(200), ScriptValue::Other, words_of("ok")]);
    assert_eq!(response_from(&table, &value), Err(ResponseError::HeadersNotASequence));
}

#[test]
fn a_name_without_a_value_is_a_violation() {
    let table = TokenTable::new();
    assert_eq!(
        response_from(&table, &triple(200, vec![number(3)], "ok")),
        Err(ResponseError::OddHeaderList)
    );
    assert_eq!(
        response_from(&table, &triple(200, vec![number(3), words_of("a"), words_of("x-b")], "ok")),
        Err(ResponseError::OddHeaderList)
    );
}

#[test]
fn header_entries_are_integers_or_strings() {
    let table = TokenTable::new();
    assert_eq!(
        response_from(&table, &triple(200, vec![words_of("x-a"), ScriptValue::Other], "ok")),
        Err(ResponseError::HeaderEntryNotAValue)
    );
    assert_eq!(
        response_from(&table, &triple(200, vec![sequence(vec![]), words_of("v")], "ok")),
        Err(ResponseError::HeaderEntryNotAValue)
    );
}

#[test]
fn the_body_must_be_a_string() {
    let table = TokenTable::new();
    let value = sequence(vec![number(200), sequence(vec![]), number(42)]);
    assert_eq!(response_from(&table, &value), Err(ResponseError::BodyNotText));
    let value = sequence(vec![number(200), sequence(vec![]), ScriptValue::Other]);
    assert_eq!(response_from(&table, &value), Err(ResponseError::BodyNotText));
}

#[test]
fn shape_checks_run_in_order() {
    let table = TokenTable::new();
    // Status before headers, headers before body.
    let value = sequence(vec![words_of("x"), number(1), number(2)]);
    assert_eq!(response_from(&table, &value), Err(ResponseError::StatusNotUnsigned));
    let value = sequence(vec![number(200), number(1), number(2)]);
    assert_eq!(response_from(&table, &value), Err(ResponseError::HeadersNotASequence));
    let value = sequence(vec![number(200), sequence(vec![ScriptValue::Other]), number(2)]);
    assert_eq!(response_from(&table, &value), Err(ResponseError::OddHeaderList));
    let value = sequence(vec![number(200), sequence(vec![ScriptValue::Other, number(0)]), number(2)]);
    assert_eq!(response_from(&table, &value), Err(ResponseError::HeaderEntryNotAValue));
    // The shape is judged before any token or text is looked at.
    let value = sequence(vec![number(7), sequence(vec![number(99), words_of("\n")]), number(2)]);
    assert_eq!(response_from(&table, &value), Err(ResponseError::BodyNotText));
    // The status is judged before the headers are decoded.
    assert_eq!(
        response_from(&table, &triple(7, vec![number(99), words_of("\n")], "")),
        Err(ResponseError::InvalidStatus)
    );
}

#[test]
fn reading_keeps_what_the_handler_said() {
    let value = triple(201, vec![number(1), number(2), words_of("X-Custom"), words_of("yes")], "made");
    let encoded = read_response(&value).unwrap();
    assert_eq!(
        encoded,
        EncodedResponse {
            status: 201,
            header_pairs: vec![
                Value::SmallInteger(1),
                Value::SmallInteger(2),
                carried("X-Custom"),
                carried("yes"),
            ],
            body: "made".to_string(),
        }
    );
}

#[test]
fn tokens_become_known_names_and_values() {
    let table = TokenTable::new();
    let value = triple(200, vec![number(1), number(2), number(3), words_of("example.org")], "ok");
    let response = response_from(&table, &value).unwrap();
    assert_eq!(
        response,
        WireResponse {
            status: 200,
            headers: vec![sent("content-length", "2"), sent("host", "example.org")],
            body: "ok".to_string(),
        }
    );
}

#[test]
fn all_tokens_decode() {
    let table = TokenTable::new();
    let names = ["accept-encoding", "content-length", "date", "host"];
    let values = ["0", "1", "2"];
    for (n, name) in names.iter().enumerate() {
        for (v, value) in values.iter().enumerate() {
            let response =
                response_from(&table, &triple(200, vec![number(n as u32), number(v as u32)], "")).unwrap();
            assert_eq!(response.headers, vec![sent(name, value)]);
        }
    }
}

#[test]
fn unknown_tokens_are_errors() {
    let table = TokenTable::new();
    assert_eq!(
        response_from(&table, &triple(200, vec![number(4), words_of("v")], "")),
        Err(ResponseError::UnknownNameToken)
    );
    assert_eq!(
        response_from(&table, &triple(200, vec![words_of("x-a"), number(3)], "")),
        Err(ResponseError::UnknownValueToken)
    );
    // Token 3 is a name and no value.
    assert_eq!(
        response_from(&table, &triple(200, vec![number(3), number(3)], "")),
        Err(ResponseError::UnknownValueToken)
    );
}

#[test]
fn string_names_are_sent_in_lower_case() {
    let table = TokenTable::new();
    let value = triple(200, vec![words_of("X-Powered-By"), words_of("Dyper")], "");
    let response = response_from(&table, &value).unwrap();
    assert_eq!(response.headers, vec![sent("x-powered-by", "Dyper")]);
    assert_eq!(
        decode_header_name(&table, &carried("CONTENT-TYPE")),
        Ok("content-type".to_string())
    );
    assert_eq!(decode_header_name(&table, &carried("Host")), Ok("host".to_string()));
    assert_eq!(decode_header_name(&table, &carried("etag")), Ok("etag".to_string()));
}

#[test]
fn names_with_every_name_character() {
    let table = TokenTable::new();
    let all = "!\"#$%&'*+-.0123456789ABCDEFGHIJKLMNOPQRSTUVWXYZ^_`abcdefghijklmnopqrstuvwxyz|~";
    let lower = "!\"#$%&'*+-.0123456789abcdefghijklmnopqrstuvwxyz^_`abcdefghijklmnopqrstuvwxyz|~";
    assert_eq!(decode_header_name(&table, &carried(all)), Ok(lower.to_string()));
}

#[test]
fn one_character_names_follow_the_rule() {
    let table = TokenTable::new();
    for code in 0u32..=0x2ff {
        let c = char::from_u32(code).unwrap();
        let allowed = c.is_ascii_alphanumeric() || "!\"#$%&'*+-.^_`|~".contains(c);
        let outcome = decode_header_name(&table, &carried(&c.to_string()));
        if allowed {
            assert_eq!(outcome, Ok(c.to_ascii_lowercase().to_string()));
        } else {
            assert_eq!(outcome, Err(ResponseError::InvalidHeaderName));
        }
    }
}

#[test]
fn invalid_names_are_errors() {
    let table = TokenTable::new();
    for name in ["", "x y", "x:y", "x\ny", "caf\u{e9}", "(x)", "a/b", "a=b", "x\0", "[x]", "a,b"] {
        assert_eq!(
            response_from(&table, &triple(200, vec![words_of(name), words_of("v")], "")),
            Err(ResponseError::InvalidHeaderName)
        );
    }
}

#[test]
fn the_longest_name_and_one_beyond() {
    let table = TokenTable::new();
    let longest = "A".repeat(65535);
    assert_eq!(decode_header_name(&table, &carried(&longest)), Ok("a".repeat(65535)));
    let beyond = "a".repeat(65536);
    assert_eq!(
        decode_header_name(&table, &carried(&beyond)),
        Err(ResponseError::InvalidHeaderName)
    );
    let at_the_buffer = "B".repeat(64);
    assert_eq!(decode_header_name(&table, &carried(&at_the_buffer)), Ok("b".repeat(64)));
    let past_the_buffer = "C".repeat(65);
    assert_eq!(decode_header_name(&table, &carried(&past_the_buffer)), Ok("c".repeat(65)));
    let mut spoiled = "d".repeat(70);
    spoiled.push(' ');
    assert_eq!(
        decode_header_name(&table, &carried(&spoiled)),
        Err(ResponseError::InvalidHeaderName)
    );
}

#[test]
fn string_values_are_sent_verbatim() {
    let table = TokenTable::new();
    for value in ["", "gzip, br", "text/html; charset=UTF-8", "a\tb", " lead", "caf\u{e9}", "~", "\u{80}"] {
        assert_eq!(decode_header_value(&table, &carried(value)), Ok(value.to_string()));
    }
}

#[test]
fn one_character_values_follow_the_rule() {
    let table = TokenTable::new();
    for code in 0u32..=0x2ff {
        let c = char::from_u32(code).unwrap();
        let allowed = c == '\t' || (code >= 32 && code != 127);
        let outcome = decode_header_value(&table, &carried(&c.to_string()));
        if allowed {
            assert_eq!(outcome, Ok(c.to_string()));
        } else {
            assert_eq!(outcome, Err(ResponseError::InvalidHeaderValue));
        }
    }
}

#[test]
fn invalid_values_are_errors() {
    let table = TokenTable::new();
    for value in ["\n", "a\r\nb", "x\0", "\u{7f}", "bell\u{7}"] {
        assert_eq!(
            response_from(&table, &triple(200, vec![words_of("x-a"), words_of(value)], "")),
            Err(ResponseError::InvalidHeaderValue)
        );
    }
}

#[test]
fn the_first_bad_pair_decides_the_error() {
    let table = TokenTable::new();
    let value = triple(
        200,
        vec![words_of("x-a"), words_of("fine"), words_of("x-b"), words_of("\n"), words_of("bad name"), number(0)],
        "",
    );
    assert_eq!(response_from(&table, &value), Err(ResponseError::InvalidHeaderValue));
    let value = triple(
        200,
        vec![words_of("x-a"), words_of("fine"), words_of("bad name"), words_of("\n"), number(9), number(9)],
        "",
    );
    assert_eq!(response_from(&table, &value), Err(ResponseError::InvalidHeaderName));
    let value = triple(200, vec![number(9), words_of("\n")], "");
    assert_eq!(response_from(&table, &value), Err(ResponseError::UnknownNameToken));
    let value = triple(200, vec![number(0), number(9), words_of("bad name"), number(0)], "");
    assert_eq!(response_from(&table, &value), Err(ResponseError::UnknownValueToken));
}

#[test]
fn duplicate_response_headers_are_kept() {
    let table = TokenTable::new();
    let value = triple(
        200,
        vec![
            words_of("set-cookie"),
            words_of("a=1"),
            words_of("Set-Cookie"),
            words_of("b=2"),
            number(2),
            words_of("now"),
            words_of("set-cookie"),
            words_of("a=1"),
        ],
        "",
    );
    let response = response_from(&table, &value).unwrap();
    assert_eq!(
        response.headers,
        vec![
            sent("set-cookie", "a=1"),
            sent("set-cookie", "b=2"),
            sent("date", "now"),
            sent("set-cookie", "a=1"),
        ]
    );
}

#[test]
fn the_body_is_sent_verbatim() {
    let table = TokenTable::new();
    for body in ["", "ok", "line one\nline two\n", "\u{1f980} caf\u{e9}", "0"] {
        let response = response_from(&table, &triple(200, vec![], body)).unwrap();
        assert_eq!(response.body, body);
    }
}

#[test]
fn decoding_checks_an_encoded_response_of_odd_length() {
    let table = TokenTable::new();
    let encoded = EncodedResponse {
        status: 200,
        header_pairs: vec![Value::SmallInteger(0)],
        body: String::new(),
    };
    assert_eq!(decode_response(&table, &encoded), Err(ResponseError::OddHeaderList));
}

#[test]
fn decoding_an_encoded_response() {
    let table = TokenTable::new();
    let encoded = EncodedResponse {
        status: 404,
        header_pairs: vec![Value::SmallInteger(1), Value::SmallInteger(0), carried("X-Why"), carried("gone")],
        body: "not here".to_string(),
    };
    assert_eq!(
        decode_response(&table, &encoded),
        Ok(WireResponse {
            status: 404,
            headers: vec![sent("content-length", "0"), sent("x-why", "gone")],
            body: "not here".to_string(),
        })
    );
}

#[test]
fn what_a_request_encodes_a_response_decodes() {
    let table = TokenTable::new();
    let headers = vec![
        sent("host", "example.org"),
        sent("accept-encoding", "gzip"),
        sent("content-length", "0"),
        sent("accept-encoding", "br"),
        sent("x-level", "2"),
    ];
    let pairs = dyper::request::encode_headers(&table, &headers);
    let encoded = EncodedResponse { status: 200, header_pairs: pairs, body: String::new() };
    let response = decode_response(&table, &encoded).unwrap();
    assert_eq!(response.headers, headers);
}
