use runjs::error::{BridgeError, Field, HeaderPart};
use runjs::headers::Headers;
use runjs::marshal::{
    check_headers, decode_request, decode_response, encode_request, encode_response,
};
use runjs::record::{HttpRequest, HttpResponse};
use runjs::value::{GuestValue, Property};

fn text(s: &str) -> GuestValue {
    GuestValue::Str(s.to_string())
}

fn prop(key: &str, value: GuestValue) -> Property {
    Property { key: key.to_string(), value }
}

fn object(props: Vec<Property>) -> GuestValue {
    GuestValue::Object(props)
}

fn request_value(headers: Vec<Property>, body: GuestValue) -> GuestValue {
    object(vec![
        prop("method", text("GET")),
        prop("uri", text("https://example.com/")),
        prop("headers", object(headers)),
        prop("body", body),
    ])
}

fn malformed(field: Field) -> BridgeError {
    BridgeError::MalformedRequest { field }
}

#[test]
fn decodes_the_plain_get_request() {
    let value = request_value(vec![], GuestValue::Null);
    let request = decode_request(&value).unwrap();
    assert_eq!(request.method, "GET");
    assert_eq!(request.uri, "https://example.com/");
    assert!(request.headers.is_empty());
    assert_eq!(request.body, None);
}

#[test]
fn a_value_that_is_no_object_is_refused() {
    assert_eq!(decode_request(&GuestValue::Null), Err(malformed(Field::Request)));
    assert_eq!(decode_request(&text("GET")), Err(malformed(Field::Request)));
    assert_eq!(decode_request(&GuestValue::Array(vec![])), Err(malformed(Field::Request)));
    assert_eq!(decode_response(&GuestValue::Int(200)), Err(malformed(Field::Request)));
}

#[test]
fn a_missing_method_is_named() {
    let value = object(vec![prop("uri", text("https://example.com/"))]);
    assert_eq!(decode_request(&value), Err(malformed(Field::Method)));
}

#[test]
fn a_method_that_is_no_string_is_named() {
    let value = object(vec![
        prop("method", GuestValue::Int(1)),
        prop("uri", text("https://example.com/")),
    ]);
    assert_eq!(decode_request(&value), Err(malformed(Field::Method)));
}

#[test]
fn a_missing_uri_is_named() {
    let value = object(vec![prop("method", text("GET"))]);
    assert_eq!(decode_request(&value), Err(malformed(Field::Uri)));
}

#[test]
fn a_uri_that_is_no_string_is_named() {
    let value = object(vec![prop("method", text("GET")), prop("uri", GuestValue::Bool(true))]);
    assert_eq!(decode_request(&value), Err(malformed(Field::Uri)));
}

#[test]
fn the_method_is_missed_before_the_uri() {
    assert_eq!(decode_request(&object(vec![])), Err(malformed(Field::Method)));
}

#[test]
fn missing_headers_are_no_headers() {
    let value = object(vec![prop("method", text("POST")), prop("uri", text("http://a/"))]);
    let request = decode_request(&value).unwrap();
    assert_eq!(request.headers.len(), 0);
    assert_eq!(request.body, None);
}

#[test]
fn headers_that_are_no_object_are_named() {
    for wrong in [GuestValue::Null, GuestValue::Int(3), text("a: b"), GuestValue::Array(vec![])] {
        let value = object(vec![
            prop("method", text("GET")),
            prop("uri", text("http://a/")),
            prop("headers", wrong),
        ]);
        assert_eq!(decode_request(&value), Err(malformed(Field::Headers)));
    }
}

#[test]
fn a_header_that_is_no_string_is_named() {
    let value = request_value(vec![prop("accept", GuestValue::Int(1))], GuestValue::Null);
    assert_eq!(decode_request(&value), Err(malformed(Field::Headers)));
}

#[test]
fn unknown_properties_are_passed_over() {
    let value = object(vec![
        prop("extra", GuestValue::Opaque),
        prop("method", text("GET")),
        prop("uri", text("http://a/")),
    ]);
    assert!(decode_request(&value).is_ok());
}

#[test]
fn the_first_property_of_a_key_counts() {
    let value = object(vec![
        prop("method", text("GET")),
        prop("method", GuestValue::Int(0)),
        prop("uri", text("http://a/")),
    ]);
    assert_eq!(decode_request(&value).unwrap().method, "GET");
}

#[test]
fn a_missing_body_is_no_body() {
    let value = object(vec![prop("method", text("GET")), prop("uri", text("http://a/"))]);
    assert_eq!(decode_request(&value).unwrap().body, None);
    let null = request_value(vec![], GuestValue::Null);
    assert_eq!(decode_request(&null).unwrap().body, None);
    let undefined = request_value(vec![], GuestValue::Undefined);
    assert_eq!(decode_request(&undefined).unwrap().body, None);
}

#[test]
fn an_empty_body_is_a_body() {
    let value = request_value(vec![], GuestValue::Bytes(vec![]));
    assert_eq!(decode_request(&value).unwrap().body, Some(vec![]));
}

#[test]
fn a_body_of_bytes_is_kept_as_it_is() {
    let bytes = vec![0u8, 255, 42, 10, 13, 128, 0xC3, 0x28];
    let value = request_value(vec![], GuestValue::Bytes(bytes.clone()));
    assert_eq!(decode_request(&value).unwrap().body, Some(bytes));
}

#[test]
fn a_body_of_text_is_its_utf8_bytes() {
    let value = request_value(vec![], text("h\u{e9}"));
    assert_eq!(decode_request(&value).unwrap().body, Some(vec![b'h', 0xC3, 0xA9]));
}

#[test]
fn a_body_of_numbers_is_their_bytes() {
    let items = vec![GuestValue::Int(1), GuestValue::Int(0), GuestValue::Int(255)];
    let value = request_value(vec![], GuestValue::Array(items));
    assert_eq!(decode_request(&value).unwrap().body, Some(vec![1, 0, 255]));
    let empty = request_value(vec![], GuestValue::Array(vec![]));
    assert_eq!(decode_request(&empty).unwrap().body, Some(vec![]));
}

#[test]
fn a_body_that_stands_for_no_bytes_is_named() {
    let too_large = GuestValue::Array(vec![GuestValue::Int(256)]);
    let negative = GuestValue::Array(vec![GuestValue::Int(-1)]);
    let mixed = GuestValue::Array(vec![GuestValue::Int(1), text("2")]);
    for wrong in [
        GuestValue::Int(7),
        GuestValue::Bool(false),
        object(vec![]),
        GuestValue::Opaque,
        too_large,
        negative,
        mixed,
    ] {
        let value = request_value(vec![], wrong);
        assert_eq!(decode_request(&value), Err(malformed(Field::Body)));
    }
}

#[test]
fn header_names_are_made_small() {
    let value = request_value(vec![prop("Content-Type", text("text/plain"))], GuestValue::Null);
    let request = decode_request(&value).unwrap();
    assert_eq!(request.headers.len(), 1);
    assert_eq!(request.headers.name_at(0), "content-type");
    assert_eq!(request.headers.value_at(0), "text/plain");
}

#[test]
fn names_that_differ_in_case_are_one_header() {
    let value = request_value(
        vec![
            prop("Accept", text("a")),
            prop("x-other", text("o")),
            prop("accept", text("b")),
        ],
        GuestValue::Null,
    );
    let request = decode_request(&value).unwrap();
    assert_eq!(
        request.headers.to_pairs(),
        vec![("accept".to_string(), "b".to_string()), ("x-other".to_string(), "o".to_string())]
    );
}

#[test]
fn a_header_name_with_a_space_is_refused() {
    let value = request_value(vec![prop("bad name", text("v"))], GuestValue::Null);
    assert_eq!(
        decode_request(&value),
        Err(BridgeError::InvalidHeader { name: "bad name".to_string(), part: HeaderPart::Name })
    );
}

#[test]
fn an_empty_header_name_is_refused() {
    let value = request_value(vec![prop("", text("v"))], GuestValue::Null);
    assert_eq!(
        decode_request(&value),
        Err(BridgeError::InvalidHeader { name: String::new(), part: HeaderPart::Name })
    );
}

#[test]
fn a_header_name_beyond_ascii_is_refused() {
    let value = request_value(vec![prop("n\u{e4}me", text("v"))], GuestValue::Null);
    assert_eq!(
        decode_request(&value),
        Err(BridgeError::InvalidHeader { name: "n\u{e4}me".to_string(), part: HeaderPart::Name })
    );
}

#[test]
fn the_longest_header_name_passes_and_one_more_does_not() {
    let longest = "a".repeat(65535);
    let pairs = vec![(longest.clone(), "v".to_string())];
    assert_eq!(check_headers(&pairs).unwrap().name_at(0), &longest);
    let longer = "a".repeat(65536);
    let pairs = vec![(longer.clone(), "v".to_string())];
    assert_eq!(
        check_headers(&pairs),
        Err(BridgeError::InvalidHeader { name: longer, part: HeaderPart::Name })
    );
}

#[test]
fn every_name_character_passes() {
    let name = "!\"#$%&'*+-.^_`|~0123456789abcdefghijklmnopqrstuvwxyz";
    let pairs = vec![(name.to_string(), String::new())];
    assert_eq!(check_headers(&pairs).unwrap().name_at(0), name);
    let capitals = vec![("ABCDEFGHIJKLMNOPQRSTUVWXYZ".to_string(), String::new())];
    assert_eq!(check_headers(&capitals).unwrap().name_at(0), "abcdefghijklmnopqrstuvwxyz");
    for wrong in ["a(b", "a)b", "a,b", "a/b", "a:b", "a;b", "a<b", "a=b", "a>b", "a?b", "a@b",
        "a[b", "a\\b", "a]b", "a{b", "a}b", "a\u{7f}b", "a\tb", "a\0b"] {
        let pairs = vec![(wrong.to_string(), String::new())];
        assert_eq!(
            check_headers(&pairs),
            Err(BridgeError::InvalidHeader { name: wrong.to_string(), part: HeaderPart::Name })
        );
    }
}

#[test]
fn a_header_value_with_a_line_feed_is_refused() {
    let value = request_value(vec![prop("x-a", text("a\nb"))], GuestValue::Null);
    assert_eq!(
        decode_request(&value),
        Err(BridgeError::InvalidHeader { name: "x-a".to_string(), part: HeaderPart::Value })
    );
}

#[test]
fn header_values_may_hold_what_the_wire_permits() {
    for c in 0u8..=127 {
        let permitted = c == 9 || (c >= 32 && c != 127);
        let value = format!("a{}b", c as char);
        let pairs = vec![("x-a".to_string(), value.clone())];
        match check_headers(&pairs) {
            Ok(headers) => {
                assert!(permitted);
                assert_eq!(headers.value_at(0), &value);
            },
            Err(error) => {
                assert!(!permitted);
                assert_eq!(
                    error,
                    BridgeError::InvalidHeader { name: "x-a".to_string(), part: HeaderPart::Value }
                );
            },
        }
    }
    let wide = vec![("x-a".to_string(), "gr\u{fc}n \u{1f600}".to_string())];
    assert_eq!(check_headers(&wide).unwrap().value_at(0), "gr\u{fc}n \u{1f600}");
    let empty = vec![("x-a".to_string(), String::new())];
    assert_eq!(check_headers(&empty).unwrap().value_at(0), "");
}

#[test]
fn the_first_bad_header_is_reported() {
    let value = request_value(
        vec![prop("ok", text("v")), prop("x-a", text("\r")), prop("bad name", text("v"))],
        GuestValue::Null,
    );
    assert_eq!(
        decode_request(&value),
        Err(BridgeError::InvalidHeader { name: "x-a".to_string(), part: HeaderPart::Value })
    );
}

#[test]
fn the_name_is_checked_before_the_value() {
    let pairs = vec![("bad name".to_string(), "bad\nvalue".to_string())];
    assert_eq!(
        check_headers(&pairs),
        Err(BridgeError::InvalidHeader { name: "bad name".to_string(), part: HeaderPart::Name })
    );
}

#[test]
fn the_shape_is_checked_before_the_headers() {
    let value = request_value(vec![prop("bad name", text("v"))], GuestValue::Int(1));
    assert_eq!(decode_request(&value), Err(malformed(Field::Body)));
}

#[test]
fn a_request_is_encoded_as_an_object_of_four_properties() {
    let request = HttpRequest {
        method: "PUT".to_string(),
        uri: "https://example.com/x".to_string(),
        headers: Headers::from_pairs(vec![("a".to_string(), "1".to_string())]),
        body: Some(vec![1, 2]),
    };
    assert_eq!(
        encode_request(&request),
        object(vec![
            prop("method", text("PUT")),
            prop("uri", text("https://example.com/x")),
            prop("headers", object(vec![prop("a", text("1"))])),
            prop("body", GuestValue::Bytes(vec![1, 2])),
        ])
    );
}

#[test]
fn a_response_is_encoded_as_an_object_of_three_properties() {
    let response = HttpResponse {
        status: 204,
        headers: Headers::from_pairs(vec![
            ("content-type".to_string(), "text/html".to_string()),
            ("x-b".to_string(), "2".to_string()),
        ]),
        body: None,
    };
    assert_eq!(
        encode_response(&response),
        object(vec![
            prop("status", GuestValue::Int(204)),
            prop(
                "headers",
                object(vec![prop("content-type", text("text/html")), prop("x-b", text("2"))])
            ),
            prop("body", GuestValue::Null),
        ])
    );
}

#[test]
fn a_request_comes_back_from_its_encoding() {
    let value = request_value(
        vec![prop("Accept", text("*/*")), prop("X-Trace", text("\tid 1"))],
        GuestValue::Bytes(vec![9, 8, 7]),
    );
    let first = decode_request(&value).unwrap();
    let second = decode_request(&encode_request(&first)).unwrap();
    assert_eq!(first, second);
    let third = decode_request(&encode_request(&second)).unwrap();
    assert_eq!(second, third);
}

#[test]
fn a_response_comes_back_from_its_encoding() {
    let response = HttpResponse {
        status: 65535,
        headers: Headers::from_pairs(vec![
            ("Set-Cookie".to_string(), "a=b".to_string()),
            ("etag".to_string(), "\"x\"".to_string()),
        ]),
        body: Some(vec![0, 159, 146, 150]),
    };
    assert_eq!(decode_response(&encode_response(&response)), Ok(response));
}

#[test]
fn an_empty_body_and_no_body_come_back_apart() {
    let with_empty = HttpRequest {
        method: "POST".to_string(),
        uri: "http://a/".to_string(),
        headers: Headers::new(),
        body: Some(vec![]),
    };
    let without = HttpRequest { body: None, ..with_empty.clone() };
    let empty_back = decode_request(&encode_request(&with_empty)).unwrap();
    let none_back = decode_request(&encode_request(&without)).unwrap();
    assert_eq!(empty_back.body, Some(vec![]));
    assert_eq!(none_back.body, None);
    assert_ne!(encode_request(&with_empty), encode_request(&without));

    let response = HttpResponse { status: 200, headers: Headers::new(), body: Some(vec![]) };
    assert_eq!(decode_response(&encode_response(&response)).unwrap().body, Some(vec![]));
    let response = HttpResponse { status: 200, headers: Headers::new(), body: None };
    assert_eq!(decode_response(&encode_response(&response)).unwrap().body, None);
}

#[test]
fn a_response_needs_a_status_of_sixteen_bits() {
    let with = |status: GuestValue| object(vec![prop("status", status)]);
    assert_eq!(decode_response(&with(GuestValue::Int(0))).unwrap().status, 0);
    assert_eq!(decode_response(&with(GuestValue::Int(65535))).unwrap().status, 65535);
    for wrong in [GuestValue::Int(65536), GuestValue::Int(-1), text("200"), GuestValue::Null] {
        assert_eq!(decode_response(&with(wrong)), Err(malformed(Field::Status)));
    }
    assert_eq!(decode_response(&object(vec![])), Err(malformed(Field::Status)));
}

#[test]
fn the_headers_of_a_response_are_taken_as_they_stand() {
    let value = object(vec![
        prop("status", GuestValue::Int(200)),
        prop("headers", object(vec![prop("Bad Name", text("a\nb")), prop("Bad Name", text("c"))])),
    ]);
    let response = decode_response(&value).unwrap();
    assert_eq!(response.headers.to_pairs(), vec![("Bad Name".to_string(), "c".to_string())]);
    let wrong = object(vec![
        prop("status", GuestValue::Int(200)),
        prop("headers", object(vec![prop("a", GuestValue::Int(1))])),
    ]);
    assert_eq!(decode_response(&wrong), Err(malformed(Field::Headers)));
    let wrong = object(vec![prop("status", GuestValue::Int(200)), prop("body", GuestValue::Int(1))]);
    assert_eq!(decode_response(&wrong), Err(malformed(Field::Body)));
}

#[test]
fn a_property_is_found_by_its_key() {
    let value = object(vec![prop("a", GuestValue::Int(1)), prop("b", GuestValue::Int(2))]);
    assert_eq!(value.get("b"), Some(&GuestValue::Int(2)));
    assert_eq!(value.get("c"), None);
    assert_eq!(GuestValue::Null.get("a"), None);
}

#[test]
fn each_ascii_character_is_a_name_character_or_not() {
    for c in 0u8..=127 {
        let expected = matches!(c,
            33..=39 | 42 | 43 | 45 | 46 | 48..=57 | 65..=90 | 94..=122 | 124 | 126);
        let name = format!("x{}y", c as char);
        let pairs = vec![(name.clone(), "v".to_string())];
        match check_headers(&pairs) {
            Ok(headers) => {
                assert!(expected, "{} passed", c);
                assert_eq!(headers.name_at(0), &name.to_ascii_lowercase());
            },
            Err(error) => {
                assert!(!expected, "{} was refused", c);
                assert_eq!(error, BridgeError::InvalidHeader { name, part: HeaderPart::Name });
            },
        }
    }
}
