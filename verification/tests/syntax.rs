use dyper::request::Header;
use dyper::response::{decode_header_name, decode_header_value, response_from, ScriptValue};
use dyper::token_table::TokenTable;
use dyper::value::Value;
use hyper::header::{HeaderName, HeaderValue, ACCEPT_ENCODING, CONTENT_LENGTH, DATE, HOST};
use hyper::{Response, StatusCode};

const SAMPLES: [&str; 24] = [
    "",
    "host",
    "Host",
    "X-Forwarded-For",
    "x_under",
    "a\"b",
    "a b",
    "a:b",
    "a;b",
    "a(b)",
    "{a}",
    "a\tb",
    "a\nb",
    "a\r\nb",
    "a\0b",
    "\u{7f}",
    "caf\u{e9}",
    "\u{1f980}",
    "~tilde~",
    "1234",
    "text/html; charset=utf-8",
    " ",
    "\t",
    "Wed, 27 Jan 2021 10:55:19 GMT",
];

#[test]
fn the_known_names_are_those_of_the_http_library() {
    let table = TokenTable::new();
    let known = [ACCEPT_ENCODING, CONTENT_LENGTH, DATE, HOST];
    for (token, name) in known.iter().enumerate() {
        assert_eq!(table.encode_name(name.as_str()), Value::SmallInteger(token as u32));
        assert_eq!(
            table.decode_name(&Value::SmallInteger(token as u32)),
            Some(name.as_str().to_string())
        );
    }
}

#[test]
fn the_known_values_are_header_values() {
    let table = TokenTable::new();
    for token in 0..3u32 {
        let value = table.decode_value(&Value::SmallInteger(token)).unwrap();
        assert!(HeaderValue::from_str(&value).is_ok());
    }
}

#[test]
fn names_are_judged_as_the_http_library_judges_them() {
    let table = TokenTable::new();
    for sample in SAMPLES {
        let expected = HeaderName::from_bytes(sample.as_bytes())
            .ok()
            .map(|name| name.as_str().to_string());
        let decoded = decode_header_name(&table, &Value::Str(sample.to_string())).ok();
        assert_eq!(decoded, expected);
    }
}

#[test]
fn values_are_judged_as_the_http_library_judges_them() {
    let table = TokenTable::new();
    for sample in SAMPLES {
        let expected = HeaderValue::from_str(sample).ok().map(|_| sample.to_string());
        let decoded = decode_header_value(&table, &Value::Str(sample.to_string())).ok();
        assert_eq!(decoded, expected);
    }
}

#[test]
fn statuses_are_judged_as_the_http_library_judges_them() {
    let table = TokenTable::new();
    for status in 0u32..=1100 {
        let value = ScriptValue::Sequence(vec![
            ScriptValue::Integer(status),
            ScriptValue::Sequence(vec![]),
            ScriptValue::Text(String::new()),
        ]);
        let expected = StatusCode::from_u16(status as u16).is_ok();
        assert_eq!(response_from(&table, &value).is_ok(), expected);
    }
}

#[test]
fn what_is_decoded_can_be_sent() {
    let table = TokenTable::new();
    let mut entries = Vec::new();
    for token in 0..4u32 {
        entries.push(ScriptValue::Integer(token));
        entries.push(ScriptValue::Integer(token % 3));
    }
    for sample in SAMPLES {
        if HeaderName::from_bytes(sample.as_bytes()).is_ok() {
            entries.push(ScriptValue::Text(sample.to_string()));
            entries.push(ScriptValue::Text("value of ".to_string() + sample));
        }
    }
    let value = ScriptValue::Sequence(vec![
        ScriptValue::Integer(207),
        ScriptValue::Sequence(entries),
        ScriptValue::Text("body".to_string()),
    ]);
    let response = response_from(&table, &value).unwrap();
    assert_eq!(response.headers.len(), 4 + 7);
    let mut builder = Response::builder().status(response.status);
    for Header { name, value } in &response.headers {
        assert_eq!(HeaderName::from_bytes(name.as_bytes()).unwrap().as_str(), name);
        builder = builder.header(name.as_str(), value.as_str());
    }
    let built = builder.body(response.body.clone()).unwrap();
    assert_eq!(built.status().as_u16(), 207);
    assert_eq!(built.headers().len(), response.headers.len());
    assert_eq!(built.body(), "body");
}

fn with_one_changed(length: usize, at: usize, changed: char) -> String {
    (0..length).map(|k| if k == at { changed } else { 'a' }).collect()
}

#[test]
fn one_bad_character_anywhere_spoils_a_name() {
    let table = TokenTable::new();
    for length in [1usize, 2, 63, 64, 65, 66, 200] {
        for at in 0..length {
            for bad in [' ', '(', ':', '\n', '\0', '\u{7f}', '\u{e9}'] {
                let name = with_one_changed(length, at, bad);
                assert!(decode_header_name(&table, &Value::Str(name)).is_err());
            }
        }
    }
}

#[test]
fn upper_case_anywhere_is_folded() {
    let table = TokenTable::new();
    for length in [1usize, 2, 63, 64, 65, 66, 200] {
        for at in 0..length {
            for (upper, lower) in [('A', 'a'), ('M', 'm'), ('Z', 'z')] {
                let name = with_one_changed(length, at, upper);
                let folded = with_one_changed(length, at, lower);
                assert_eq!(decode_header_name(&table, &Value::Str(name)), Ok(folded));
            }
            for kept in ['0', '9', '-', '_', '~', '!', '"', '`', '|', 'z'] {
                let name = with_one_changed(length, at, kept);
                assert_eq!(decode_header_name(&table, &Value::Str(name.clone())), Ok(name));
            }
        }
    }
}

#[test]
fn well_known_names_in_any_case() {
    let table = TokenTable::new();
    for (given, sent) in [
        ("Content-Length", "content-length"),
        ("CONTENT-TYPE", "content-type"),
        ("Accept-Encoding", "accept-encoding"),
        ("ETag", "etag"),
        ("WWW-Authenticate", "www-authenticate"),
        ("x-content-type-options", "x-content-type-options"),
    ] {
        assert_eq!(
            decode_header_name(&table, &Value::Str(given.to_string())),
            Ok(sent.to_string())
        );
    }
}

#[test]
fn one_bad_character_anywhere_spoils_a_value() {
    let table = TokenTable::new();
    for length in [1usize, 2, 17, 64, 65] {
        for at in 0..length {
            for bad in ['\n', '\r', '\0', '\u{1}', '\u{1f}', '\u{7f}'] {
                let value = with_one_changed(length, at, bad);
                assert!(decode_header_value(&table, &Value::Str(value)).is_err());
            }
            for kept in ['\t', ' ', '~', '\u{80}', '\u{e9}', '\u{1f980}', '(', ':'] {
                let value = with_one_changed(length, at, kept);
                assert_eq!(decode_header_value(&table, &Value::Str(value.clone())), Ok(value));
            }
        }
    }
}
