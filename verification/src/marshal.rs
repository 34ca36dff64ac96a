//! The marshaller: guest values to records and back.
//!
//! A request is an object `{method, uri, headers?, body?}`, a response an
//! object `{status, headers, body}`. Decoding checks the shape of the value
//! and, for a request, the syntax of every header field. A body is a
//! sequence of bytes and is never read as text.

use crate::error::{BridgeError, ErrorView, Field, HeaderPart};
use crate::headers::{collect, put, Headers};
use crate::record::{body_view, HttpRequest, HttpResponse, RequestView, ResponseView};
use crate::value::{
    find_property, items_view, lemma_array_view, lemma_object_view, properties_view, property,
    GuestValue, Property, ValueView,
};
use crate::wire::{header_name, header_value_accepted, is_name, is_value, lowered};
use vstd::prelude::*;
use vstd::string::{StrSliceExecFns, StringExecFns};
use vstd::utf8::encode_utf8;

verus! {

/// The failure for a part that is missing or of the wrong kind.
pub open spec fn malformed(field: Field) -> ErrorView {
    ErrorView::MalformedRequest { field }
}

/// The text of the property `key`; `None` where the property is missing or
/// holds no string.
pub open spec fn text_field(props: Seq<(Seq<char>, ValueView)>, key: Seq<char>) -> Option<Seq<char>> {
    match property(props, key) {
        Some(ValueView::Str(text)) => Some(text),
        _ => None,
    }
}

/// Every property holds a string.
pub open spec fn all_text(entries: Seq<(Seq<char>, ValueView)>) -> bool {
    forall|i: int| 0 <= i < entries.len() ==> (#[trigger] entries[i]).1 is Str
}

/// The properties of a headers object as pairs of name and value; `None`
/// where a property holds no string.
pub open spec fn header_pairs(entries: Seq<(Seq<char>, ValueView)>) -> Option<
    Seq<(Seq<char>, Seq<char>)>,
> {
    if all_text(entries) {
        Some(Seq::new(entries.len(), |i: int| (entries[i].0, entries[i].1->Str_0)))
    } else {
        None
    }
}

/// The header fields that an object names: none where the property
/// `headers` is missing; `None` where it holds no object of strings.
pub open spec fn headers_field(props: Seq<(Seq<char>, ValueView)>) -> Option<
    Seq<(Seq<char>, Seq<char>)>,
> {
    match property(props, "headers"@) {
        None => Some(Seq::empty()),
        Some(ValueView::Object(entries)) => header_pairs(entries),
        Some(_) => None,
    }
}

/// An integral number from 0 to 255.
pub open spec fn is_byte(value: ValueView) -> bool {
    value matches ValueView::Int(n) && 0 <= n <= 255
}

/// Every element is an integral number from 0 to 255.
pub open spec fn all_bytes(items: Seq<ValueView>) -> bool {
    forall|i: int| 0 <= i < items.len() ==> is_byte(#[trigger] items[i])
}

/// The bytes that a value stands for: those of a buffer, those of an array
/// of numbers from 0 to 255, the UTF-8 encoding of a string.
pub open spec fn bytes_of(value: ValueView) -> Option<Seq<u8>> {
    match value {
        ValueView::Bytes(bytes) => Some(bytes),
        ValueView::Str(text) => Some(encode_utf8(text)),
        ValueView::Array(items) => if all_bytes(items) {
            Some(Seq::new(items.len(), |i: int| items[i]->Int_0 as u8))
        } else {
            None
        },
        _ => None,
    }
}

/// The body that an object names: no body where the property `body` is
/// missing, null or undefined; `None` where it stands for no bytes.
pub open spec fn body_field(props: Seq<(Seq<char>, ValueView)>) -> Option<Option<Seq<u8>>> {
    match property(props, "body"@) {
        None => Some(None),
        Some(ValueView::Null) => Some(None),
        Some(ValueView::Undefined) => Some(None),
        Some(value) => match bytes_of(value) {
            Some(bytes) => Some(Some(bytes)),
            None => None,
        },
    }
}

/// The status that an object names; `None` where the property `status` is
/// missing or holds no integral number from 0 to 65535.
pub open spec fn status_field(props: Seq<(Seq<char>, ValueView)>) -> Option<int> {
    match property(props, "status"@) {
        Some(ValueView::Int(n)) => if 0 <= n <= 65535 {
            Some(n)
        } else {
            None
        },
        _ => None,
    }
}

/// The header fields of a request, checked in order: each name must be a
/// header name and each value a header value. A name is kept with its
/// capital letters made small; of two fields whose names are then the same,
/// the first keeps its place and the second gives the value.
pub open spec fn checked_headers(pairs: Seq<(Seq<char>, Seq<char>)>) -> Result<
    Seq<(Seq<char>, Seq<char>)>,
    ErrorView,
>
    decreases pairs.len(),
{
    if pairs.len() == 0 {
        Ok(Seq::empty())
    } else {
        match checked_headers(pairs.drop_last()) {
            Err(error) => Err(error),
            Ok(fields) => {
                let name = pairs.last().0;
                let value = pairs.last().1;
                if !is_name(name) {
                    Err(ErrorView::InvalidHeader { name, part: HeaderPart::Name })
                } else if !is_value(value) {
                    Err(ErrorView::InvalidHeader { name, part: HeaderPart::Value })
                } else {
                    Ok(put(fields, lowered(name), value))
                }
            },
        }
    }
}

/// What decoding a request yields.
pub open spec fn decode_request_spec(value: ValueView) -> Result<RequestView, ErrorView> {
    match value {
        ValueView::Object(props) => {
            let method = text_field(props, "method"@);
            let uri = text_field(props, "uri"@);
            let headers = headers_field(props);
            let body = body_field(props);
            if method is None {
                Err(malformed(Field::Method))
            } else if uri is None {
                Err(malformed(Field::Uri))
            } else if headers is None {
                Err(malformed(Field::Headers))
            } else if body is None {
                Err(malformed(Field::Body))
            } else {
                match checked_headers(headers->Some_0) {
                    Ok(fields) => Ok(
                        RequestView {
                            method: method->Some_0,
                            uri: uri->Some_0,
                            headers: fields,
                            body: body->Some_0,
                        },
                    ),
                    Err(error) => Err(error),
                }
            }
        },
        _ => Err(malformed(Field::Request)),
    }
}

/// What decoding a response yields.
pub open spec fn decode_response_spec(value: ValueView) -> Result<ResponseView, ErrorView> {
    match value {
        ValueView::Object(props) => {
            let status = status_field(props);
            let headers = headers_field(props);
            let body = body_field(props);
            if status is None {
                Err(malformed(Field::Status))
            } else if headers is None {
                Err(malformed(Field::Headers))
            } else if body is None {
                Err(malformed(Field::Body))
            } else {
                Ok(
                    ResponseView {
                        status: status->Some_0,
                        headers: collect(headers->Some_0),
                        body: body->Some_0,
                    },
                )
            }
        },
        _ => Err(malformed(Field::Request)),
    }
}

/// Header fields as an object: one string property for each field.
pub open spec fn encode_headers_spec(fields: Seq<(Seq<char>, Seq<char>)>) -> ValueView {
    ValueView::Object(Seq::new(fields.len(), |i: int| (fields[i].0, ValueView::Str(fields[i].1))))
}

/// A body as a value: a buffer, or null where there is no body.
pub open spec fn encode_body_spec(body: Option<Seq<u8>>) -> ValueView {
    match body {
        Some(bytes) => ValueView::Bytes(bytes),
        None => ValueView::Null,
    }
}

/// A request as a guest value.
pub open spec fn encode_request_spec(request: RequestView) -> ValueView {
    ValueView::Object(
        seq![
            ("method"@, ValueView::Str(request.method)),
            ("uri"@, ValueView::Str(request.uri)),
            ("headers"@, encode_headers_spec(request.headers)),
            ("body"@, encode_body_spec(request.body)),
        ],
    )
}

/// A response as a guest value.
pub open spec fn encode_response_spec(response: ResponseView) -> ValueView {
    ValueView::Object(
        seq![
            ("status"@, ValueView::Int(response.status)),
            ("headers"@, encode_headers_spec(response.headers)),
            ("body"@, encode_body_spec(response.body)),
        ],
    )
}

/// The mathematical value of the outcome of decoding a request.
pub open spec fn request_outcome(r: Result<HttpRequest, BridgeError>) -> Result<
    RequestView,
    ErrorView,
> {
    match r {
        Ok(request) => Ok(request@),
        Err(error) => Err(error@),
    }
}

/// The mathematical value of the outcome of decoding a response.
pub open spec fn response_outcome(r: Result<HttpResponse, BridgeError>) -> Result<
    ResponseView,
    ErrorView,
> {
    match r {
        Ok(response) => Ok(response@),
        Err(error) => Err(error@),
    }
}

/// The texts of pairs of strings.
pub open spec fn pairs_view(pairs: Seq<(String, String)>) -> Seq<(Seq<char>, Seq<char>)> {
    Seq::new(pairs.len(), |i: int| (pairs[i].0@, pairs[i].1@))
}

fn text_of(props: &Vec<Property>, key: &str) -> (r: Option<String>)
    ensures
        match r {
            Some(text) => text_field(properties_view(props@), key@) == Some(text@),
            None => text_field(properties_view(props@), key@) is None,
        },
{
    match find_property(props, key) {
        Some(GuestValue::Str(text)) => Some(text.clone()),
        _ => None,
    }
}

fn header_texts(entries: &Vec<Property>) -> (r: Option<Vec<(String, String)>>)
    ensures
        match r {
            Some(pairs) => header_pairs(properties_view(entries@)) == Some(pairs_view(pairs@)),
            None => header_pairs(properties_view(entries@)) is None,
        },
{
    let ghost all = properties_view(entries@);
    let mut pairs: Vec<(String, String)> = Vec::new();
    let mut i: usize = 0;
    while i < entries.len()
        invariant
            i <= entries.len(),
            pairs@.len() == i,
            all == properties_view(entries@),
            forall|j: int| 0 <= j < i ==> (#[trigger] all[j]).1 is Str,
            forall|j: int|
                0 <= j < i ==> (#[trigger] pairs@[j]).0@ == all[j].0 && pairs@[j].1@
                    == all[j].1->Str_0,
        decreases entries.len() - i,
    {
        match &entries[i].value {
            GuestValue::Str(text) => {
                pairs.push((entries[i].key.clone(), text.clone()));
            },
            _ => {
                assert(!(all[i as int].1 is Str));
                return None;
            },
        }
        i = i + 1;
    }
    assert(pairs_view(pairs@) =~= header_pairs(all)->Some_0);
    Some(pairs)
}

fn headers_of(props: &Vec<Property>) -> (r: Option<Vec<(String, String)>>)
    ensures
        match r {
            Some(pairs) => headers_field(properties_view(props@)) == Some(pairs_view(pairs@)),
            None => headers_field(properties_view(props@)) is None,
        },
{
    match find_property(props, "headers") {
        None => {
            let pairs: Vec<(String, String)> = Vec::new();
            assert(pairs_view(pairs@) =~= Seq::empty());
            Some(pairs)
        },
        Some(GuestValue::Object(entries)) => {
            proof {
                lemma_object_view(*entries);
            }
            header_texts(entries)
        },
        Some(_) => None,
    }
}

fn bytes_of_items(items: &Vec<GuestValue>) -> (r: Option<Vec<u8>>)
    ensures
        match r {
            Some(bytes) => bytes_of(ValueView::Array(items_view(items@))) == Some(bytes@),
            None => bytes_of(ValueView::Array(items_view(items@))) is None,
        },
{
    let ghost all = items_view(items@);
    let mut bytes: Vec<u8> = Vec::new();
    let mut i: usize = 0;
    while i < items.len()
        invariant
            i <= items.len(),
            bytes@.len() == i,
            all == items_view(items@),
            forall|j: int| 0 <= j < i ==> is_byte(#[trigger] all[j]),
            forall|j: int| 0 <= j < i ==> (#[trigger] bytes@[j]) == all[j]->Int_0 as u8,
        decreases items.len() - i,
    {
        match &items[i] {
            GuestValue::Int(n) => {
                if 0 <= *n && *n <= 255 {
                    bytes.push(*n as u8);
                } else {
                    assert(!is_byte(all[i as int]));
                    return None;
                }
            },
            _ => {
                assert(!is_byte(all[i as int]));
                return None;
            },
        }
        i = i + 1;
    }
    assert(bytes@ =~= Seq::new(all.len(), |i: int| all[i]->Int_0 as u8));
    Some(bytes)
}

fn body_of(props: &Vec<Property>) -> (r: Option<Option<Vec<u8>>>)
    ensures
        match r {
            Some(body) => body_field(properties_view(props@)) == Some(body_view(body)),
            None => body_field(properties_view(props@)) is None,
        },
{
    match find_property(props, "body") {
        None => Some(None),
        Some(GuestValue::Null) => Some(None),
        Some(GuestValue::Undefined) => Some(None),
        Some(GuestValue::Bytes(bytes)) => Some(Some(bytes.clone())),
        Some(GuestValue::Str(text)) => Some(Some(text.as_str().as_bytes_vec())),
        Some(GuestValue::Array(items)) => {
            proof {
                lemma_array_view(*items);
            }
            match bytes_of_items(items) {
                Some(bytes) => Some(Some(bytes)),
                None => None,
            }
        },
        Some(_) => None,
    }
}

fn status_of(props: &Vec<Property>) -> (r: Option<u16>)
    ensures
        match r {
            Some(code) => status_field(properties_view(props@)) == Some(code as int),
            None => status_field(properties_view(props@)) is None,
        },
{
    match find_property(props, "status") {
        Some(GuestValue::Int(n)) => {
            if 0 <= *n && *n <= 65535 {
                Some(*n as u16)
            } else {
                None
            }
        },
        _ => None,
    }
}

/// Checks the syntax of header fields and collects them under their
/// names in small letters.
pub fn check_headers(pairs: &Vec<(String, String)>) -> (r: Result<Headers, BridgeError>)
    ensures
        match r {
            Ok(headers) => checked_headers(pairs_view(pairs@)) == Ok::<
                Seq<(Seq<char>, Seq<char>)>,
                ErrorView,
            >(headers@),
            Err(error) => checked_headers(pairs_view(pairs@)) == Err::<
                Seq<(Seq<char>, Seq<char>)>,
                ErrorView,
            >(error@),
        },
{
    let ghost all = pairs_view(pairs@);
    let mut headers = Headers::new();
    let mut i: usize = 0;
    while i < pairs.len()
        invariant
            i <= pairs.len(),
            all == pairs_view(pairs@),
            checked_headers(all.take(i as int)) == Ok::<Seq<(Seq<char>, Seq<char>)>, ErrorView>(
                headers@,
            ),
        decreases pairs.len() - i,
    {
        proof {
            assert(all.take(i + 1).drop_last() =~= all.take(i as int));
            assert(all.take(i + 1).last() == all[i as int]);
        }
        let name = match header_name(pairs[i].0.as_str()) {
            Some(name) => name,
            None => {
                proof {
                    lemma_checked_failure(all, i + 1);
                }
                return Err(
                    BridgeError::InvalidHeader { name: pairs[i].0.clone(), part: HeaderPart::Name },
                );
            },
        };
        if !header_value_accepted(pairs[i].1.as_str()) {
            proof {
                lemma_checked_failure(all, i + 1);
            }
            return Err(
                BridgeError::InvalidHeader { name: pairs[i].0.clone(), part: HeaderPart::Value },
            );
        }
        headers.insert(name, pairs[i].1.clone());
        i = i + 1;
    }
    proof {
        assert(all.take(pairs@.len() as int) =~= all);
    }
    Ok(headers)
}

/// A failure among the first fields is the failure of the whole.
proof fn lemma_checked_failure(pairs: Seq<(Seq<char>, Seq<char>)>, upto: int)
    requires
        0 <= upto <= pairs.len(),
        checked_headers(pairs.take(upto)) is Err,
    ensures
        checked_headers(pairs) == checked_headers(pairs.take(upto)),
    decreases pairs.len(),
{
    if upto == pairs.len() {
        assert(pairs.take(upto) =~= pairs);
    } else {
        assert(pairs.drop_last().take(upto) =~= pairs.take(upto));
        lemma_checked_failure(pairs.drop_last(), upto);
    }
}

/// Decodes a request from a guest value.
///
/// The value must be an object whose `method` and `uri` are strings. Its
/// `headers`, if there are any, are an object of strings; its `body`, if
/// there is one and it is neither null nor undefined, stands for bytes.
/// The first part that fails, in this order, is named by the error. Then
/// the header fields are checked and collected in order.
pub fn decode_request(value: &GuestValue) -> (r: Result<HttpRequest, BridgeError>)
    ensures
        request_outcome(r) == decode_request_spec(value@),
{
    match value {
        GuestValue::Object(props) => {
            proof {
                lemma_object_view(*props);
            }
            let method = match text_of(props, "method") {
                Some(text) => text,
                None => {
                    return Err(BridgeError::MalformedRequest { field: Field::Method });
                },
            };
            let uri = match text_of(props, "uri") {
                Some(text) => text,
                None => {
                    return Err(BridgeError::MalformedRequest { field: Field::Uri });
                },
            };
            let pairs = match headers_of(props) {
                Some(pairs) => pairs,
                None => {
                    return Err(BridgeError::MalformedRequest { field: Field::Headers });
                },
            };
            let body = match body_of(props) {
                Some(body) => body,
                None => {
                    return Err(BridgeError::MalformedRequest { field: Field::Body });
                },
            };
            match check_headers(&pairs) {
                Ok(headers) => Ok(HttpRequest { method, uri, headers, body }),
                Err(error) => Err(error),
            }
        },
        _ => Err(BridgeError::MalformedRequest { field: Field::Request }),
    }
}

/// Decodes a response from a guest value.
///
/// The value must be an object whose `status` is an integral number from 0
/// to 65535; `headers` and `body` are read as for a request, but the header
/// fields are collected as they stand.
pub fn decode_response(value: &GuestValue) -> (r: Result<HttpResponse, BridgeError>)
    ensures
        response_outcome(r) == decode_response_spec(value@),
{
    match value {
        GuestValue::Object(props) => {
            proof {
                lemma_object_view(*props);
            }
            let status = match status_of(props) {
                Some(code) => code,
                None => {
                    return Err(BridgeError::MalformedRequest { field: Field::Status });
                },
            };
            let pairs = match headers_of(props) {
                Some(pairs) => pairs,
                None => {
                    return Err(BridgeError::MalformedRequest { field: Field::Headers });
                },
            };
            let body = match body_of(props) {
                Some(body) => body,
                None => {
                    return Err(BridgeError::MalformedRequest { field: Field::Body });
                },
            };
            let ghost all = pairs_view(pairs@);
            let headers = Headers::from_pairs(pairs);
            assert(headers@ == collect(all));
            Ok(HttpResponse { status, headers, body })
        },
        _ => Err(BridgeError::MalformedRequest { field: Field::Request }),
    }
}

fn encode_headers(headers: &Headers) -> (r: GuestValue)
    ensures
        r@ == encode_headers_spec(headers@),
{
    let mut props: Vec<Property> = Vec::new();
    let mut i: usize = 0;
    while i < headers.len()
        invariant
            i <= headers@.len(),
            props@.len() == i,
            forall|j: int|
                0 <= j < i ==> (#[trigger] props@[j]).key@ == headers@[j].0 && props@[j].value@
                    == ValueView::Str(headers@[j].1),
        decreases headers@.len() - i,
    {
        props.push(
            Property {
                key: headers.name_at(i).clone(),
                value: GuestValue::Str(headers.value_at(i).clone()),
            },
        );
        i = i + 1;
    }
    proof {
        lemma_object_view(props);
        assert(properties_view(props@) =~= encode_headers_spec(headers@)->Object_0);
    }
    GuestValue::Object(props)
}

fn encode_body(body: &Option<Vec<u8>>) -> (r: GuestValue)
    ensures
        r@ == encode_body_spec(body_view(*body)),
{
    match body {
        Some(bytes) => GuestValue::Bytes(bytes.clone()),
        None => GuestValue::Null,
    }
}

/// Encodes a request as a guest value: an object with the properties
/// `method`, `uri`, `headers` and `body`, in this order. A request without
/// a body has the body null.
pub fn encode_request(request: &HttpRequest) -> (r: GuestValue)
    ensures
        r@ == encode_request_spec(request@),
{
    let mut props: Vec<Property> = Vec::new();
    props.push(
        Property { key: String::from_str("method"), value: GuestValue::Str(request.method.clone()) },
    );
    props.push(
        Property { key: String::from_str("uri"), value: GuestValue::Str(request.uri.clone()) },
    );
    props.push(
        Property { key: String::from_str("headers"), value: encode_headers(&request.headers) },
    );
    props.push(Property { key: String::from_str("body"), value: encode_body(&request.body) });
    proof {
        lemma_object_view(props);
        assert(properties_view(props@) =~= encode_request_spec(request@)->Object_0);
    }
    GuestValue::Object(props)
}

/// Encodes a response as a guest value: an object with the properties
/// `status`, `headers` and `body`, in this order. A response without a body
/// has the body null.
pub fn encode_response(response: &HttpResponse) -> (r: GuestValue)
    ensures
        r@ == encode_response_spec(response@),
{
    let mut props: Vec<Property> = Vec::new();
    props.push(
        Property { key: String::from_str("status"), value: GuestValue::Int(response.status as i64) },
    );
    props.push(
        Property { key: String::from_str("headers"), value: encode_headers(&response.headers) },
    );
    props.push(Property { key: String::from_str("body"), value: encode_body(&response.body) });
    proof {
        lemma_object_view(props);
        assert(properties_view(props@) =~= encode_response_spec(response@)->Object_0);
    }
    GuestValue::Object(props)
}

} // verus!
