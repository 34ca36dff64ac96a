//! What holds of the marshaller on every value: decoding what was encoded
//! gives the record back, a body of no bytes is not a missing body, and a
//! header field that breaks the syntax is refused.

use crate::error::ErrorView;
use crate::headers::{
    distinct_names, lemma_collect_distinct, lemma_collect_of_distinct, lemma_position,
    lemma_position_is, lemma_put_distinct, position, put,
};
use crate::marshal::{
    all_text, body_field, checked_headers, decode_request_spec, decode_response_spec,
    encode_body_spec, encode_headers_spec, encode_request_spec, encode_response_spec, header_pairs,
    headers_field, status_field, text_field,
};
use crate::record::{RequestView, ResponseView};
use crate::value::{property, ValueView};
use crate::wire::{is_name, is_value, lemma_lowered_name, lowered};
use vstd::prelude::*;

verus! {

/// Every name is a header name in small letters, and every value a header
/// value.
pub open spec fn canonical(fields: Seq<(Seq<char>, Seq<char>)>) -> bool {
    forall|i: int|
        0 <= i < fields.len() ==> is_name((#[trigger] fields[i]).0) && lowered(fields[i].0)
            == fields[i].0 && is_value(fields[i].1)
}

/// A request as decoding yields it: the header fields are in their
/// canonical form and no name occurs twice.
pub open spec fn request_wf(request: RequestView) -> bool {
    canonical(request.headers) && distinct_names(request.headers)
}

/// A response as decoding yields it: the status fits in sixteen bits and no
/// header name occurs twice.
pub open spec fn response_wf(response: ResponseView) -> bool {
    0 <= response.status <= 65535 && distinct_names(response.headers)
}

/// The first property of a key is the one that `property` finds.
pub proof fn lemma_property_at(props: Seq<(Seq<char>, ValueView)>, key: Seq<char>, at: int)
    requires
        0 <= at < props.len(),
        props[at].0 == key,
        forall|j: int| 0 <= j < at ==> (#[trigger] props[j]).0 != key,
    ensures
        property(props, key) == Some(props[at].1),
    decreases at,
{
    if at > 0 {
        assert(props[0].0 != key);
        let rest = props.skip(1);
        assert(rest[at - 1] == props[at]);
        assert forall|j: int| 0 <= j < at - 1 implies (#[trigger] rest[j]).0 != key by {
            assert(rest[j] == props[j + 1]);
        }
        lemma_property_at(rest, key, at - 1);
    }
}

/// The names of the properties of a record differ from each other.
proof fn lemma_keys_differ()
    ensures
        "method"@.len() == 6,
        "uri"@.len() == 3,
        "headers"@.len() == 7,
        "body"@.len() == 4,
        "status"@.len() == 6,
{
    reveal_strlit("method");
    reveal_strlit("uri");
    reveal_strlit("headers");
    reveal_strlit("body");
    reveal_strlit("status");
}

/// Header fields in canonical form with distinct names pass the check
/// unchanged.
pub proof fn lemma_checked_canonical(fields: Seq<(Seq<char>, Seq<char>)>)
    requires
        canonical(fields),
        distinct_names(fields),
    ensures
        checked_headers(fields) == Ok::<Seq<(Seq<char>, Seq<char>)>, ErrorView>(fields),
    decreases fields.len(),
{
    if fields.len() > 0 {
        let before = fields.drop_last();
        assert forall|i: int| 0 <= i < before.len() implies is_name((#[trigger] before[i]).0)
            && lowered(before[i].0) == before[i].0 && is_value(before[i].1) by {
            assert(before[i] == fields[i]);
        }
        assert forall|i: int, j: int| 0 <= i < j < before.len() implies (#[trigger] before[i]).0
            != (#[trigger] before[j]).0 by {
            assert(before[i] == fields[i]);
            assert(before[j] == fields[j]);
        }
        lemma_checked_canonical(before);
        let last = fields[fields.len() - 1];
        assert(fields.last() == last);
        assert forall|i: int| 0 <= i < before.len() implies (#[trigger] before[i]).0
            != last.0 by {
            assert(before[i] == fields[i]);
        }
        lemma_position_is(before, last.0, before.len() as int);
        assert(put(before, last.0, last.1) =~= fields);
    } else {
        assert(fields =~= Seq::empty());
    }
}

/// Header fields that passed the check are in canonical form, with
/// distinct names.
pub proof fn lemma_checked_is_canonical(pairs: Seq<(Seq<char>, Seq<char>)>)
    requires
        checked_headers(pairs) is Ok,
    ensures
        canonical(checked_headers(pairs)->Ok_0),
        distinct_names(checked_headers(pairs)->Ok_0),
    decreases pairs.len(),
{
    if pairs.len() > 0 {
        lemma_checked_is_canonical(pairs.drop_last());
        let fields = checked_headers(pairs.drop_last())->Ok_0;
        let name = pairs.last().0;
        let value = pairs.last().1;
        lemma_lowered_name(name);
        lemma_put_distinct(fields, lowered(name), value);
        lemma_position(fields, lowered(name));
        let after = put(fields, lowered(name), value);
        let at = position(fields, lowered(name));
        assert forall|i: int| 0 <= i < after.len() implies is_name((#[trigger] after[i]).0)
            && lowered(after[i].0) == after[i].0 && is_value(after[i].1) by {
            if i == at {
                assert(after[i] == (lowered(name), value));
            } else {
                assert(after[i] == fields[i]);
            }
        }
    }
}

/// A header field that breaks the syntax makes the check fail.
pub proof fn lemma_checked_refuses(pairs: Seq<(Seq<char>, Seq<char>)>, at: int)
    requires
        0 <= at < pairs.len(),
        !is_name(pairs[at].0) || !is_value(pairs[at].1),
    ensures
        checked_headers(pairs) is Err,
    decreases pairs.len(),
{
    if at < pairs.len() - 1 {
        assert(pairs.drop_last()[at] == pairs[at]);
        lemma_checked_refuses(pairs.drop_last(), at);
    } else {
        assert(pairs.last() == pairs[at]);
    }
}

/// The check fails with no other error than that of a header field.
pub proof fn lemma_checked_error(pairs: Seq<(Seq<char>, Seq<char>)>)
    requires
        checked_headers(pairs) is Err,
    ensures
        checked_headers(pairs)->Err_0 is InvalidHeader,
    decreases pairs.len(),
{
    if pairs.len() > 0 {
        if checked_headers(pairs.drop_last()) is Err {
            lemma_checked_error(pairs.drop_last());
        }
    }
}

/// The header fields of an encoded record are read back as they were.
proof fn lemma_headers_read_back(fields: Seq<(Seq<char>, Seq<char>)>)
    ensures
        encode_headers_spec(fields) matches ValueView::Object(entries) && header_pairs(entries)
            == Some(fields),
{
    let entries = encode_headers_spec(fields)->Object_0;
    assert(all_text(entries));
    assert(header_pairs(entries)->Some_0 =~= fields);
}

/// Decoding an encoded request gives the request back: for every request
/// whose header fields are in canonical form with distinct names,
/// `decode(encode(r)) == r`.
pub proof fn law_request_round_trip(request: RequestView)
    requires
        request_wf(request),
    ensures
        decode_request_spec(encode_request_spec(request)) == Ok::<RequestView, ErrorView>(request),
{
    lemma_keys_differ();
    let props = encode_request_spec(request)->Object_0;
    lemma_property_at(props, "method"@, 0);
    lemma_property_at(props, "uri"@, 1);
    lemma_property_at(props, "headers"@, 2);
    lemma_property_at(props, "body"@, 3);
    lemma_headers_read_back(request.headers);
    lemma_checked_canonical(request.headers);
    assert(text_field(props, "method"@) == Some(request.method));
    assert(text_field(props, "uri"@) == Some(request.uri));
    assert(headers_field(props) == Some(request.headers));
    assert(body_field(props) == Some(request.body));
}

/// What decoding yields is a request in canonical form.
pub proof fn law_decoded_request_is_canonical(value: ValueView)
    requires
        decode_request_spec(value) is Ok,
    ensures
        request_wf(decode_request_spec(value)->Ok_0),
{
    let props = value->Object_0;
    lemma_checked_is_canonical(headers_field(props)->Some_0);
}

/// The marshaller is stable on requests: for every value `x` that decodes,
/// `decode(encode(decode(x))) == decode(x)`.
pub proof fn law_request_decoding_is_stable(value: ValueView)
    requires
        decode_request_spec(value) is Ok,
    ensures
        decode_request_spec(encode_request_spec(decode_request_spec(value)->Ok_0))
            == decode_request_spec(value),
{
    law_decoded_request_is_canonical(value);
    law_request_round_trip(decode_request_spec(value)->Ok_0);
}

/// Decoding an encoded response gives the response back: for every
/// response whose status fits in sixteen bits and whose header names are
/// distinct, `decode(encode(r)) == r`.
pub proof fn law_response_round_trip(response: ResponseView)
    requires
        response_wf(response),
    ensures
        decode_response_spec(encode_response_spec(response)) == Ok::<ResponseView, ErrorView>(
            response,
        ),
{
    lemma_keys_differ();
    let props = encode_response_spec(response)->Object_0;
    lemma_property_at(props, "status"@, 0);
    lemma_property_at(props, "headers"@, 1);
    lemma_property_at(props, "body"@, 2);
    lemma_headers_read_back(response.headers);
    lemma_collect_of_distinct(response.headers);
    assert(status_field(props) == Some(response.status));
    assert(headers_field(props) == Some(response.headers));
    assert(body_field(props) == Some(response.body));
}

/// The marshaller is stable on responses: for every value `x` that
/// decodes, `decode(encode(decode(x))) == decode(x)`.
pub proof fn law_response_decoding_is_stable(value: ValueView)
    requires
        decode_response_spec(value) is Ok,
    ensures
        decode_response_spec(encode_response_spec(decode_response_spec(value)->Ok_0))
            == decode_response_spec(value),
{
    let props = value->Object_0;
    lemma_collect_distinct(headers_field(props)->Some_0);
    law_response_round_trip(decode_response_spec(value)->Ok_0);
}

/// A body of no bytes is a body: it is encoded as an empty buffer and
/// decoded as an empty body, while a missing body is encoded as null and
/// decoded as missing. Neither is ever taken for the other.
pub proof fn law_empty_body_is_not_absent(request: RequestView)
    requires
        request_wf(request),
    ensures
        encode_body_spec(Some(Seq::<u8>::empty())) == ValueView::Bytes(Seq::<u8>::empty()),
        encode_body_spec(None) == ValueView::Null,
        decode_request_spec(encode_request_spec(request)) is Ok,
        decode_request_spec(encode_request_spec(request))->Ok_0.body == request.body,
        request.body == Some(Seq::<u8>::empty()) ==> decode_request_spec(
            encode_request_spec(request),
        )->Ok_0.body is Some,
        request.body is None ==> decode_request_spec(encode_request_spec(request))->Ok_0.body
            is None,
{
    law_request_round_trip(request);
}

/// The same of a response: a body of no bytes comes back as a body of no
/// bytes, a missing body as missing.
pub proof fn law_empty_response_body_is_not_absent(response: ResponseView)
    requires
        response_wf(response),
    ensures
        decode_response_spec(encode_response_spec(response)) is Ok,
        decode_response_spec(encode_response_spec(response))->Ok_0.body == response.body,
        response.body == Some(Seq::<u8>::empty()) ==> decode_response_spec(
            encode_response_spec(response),
        )->Ok_0.body is Some,
        response.body is None ==> decode_response_spec(encode_response_spec(response))->Ok_0.body
            is None,
{
    law_response_round_trip(response);
}

/// A request with a header field that breaks the syntax is refused: where
/// the value has the shape of a request, and the name of one of its header
/// fields is no header name or its value holds a character that no header
/// value may hold, decoding fails with `InvalidHeader`.
pub proof fn law_bad_header_is_refused(value: ValueView, at: int)
    requires
        value is Object,
        text_field(value->Object_0, "method"@) is Some,
        text_field(value->Object_0, "uri"@) is Some,
        headers_field(value->Object_0) is Some,
        body_field(value->Object_0) is Some,
        0 <= at < headers_field(value->Object_0)->Some_0.len(),
        !is_name(headers_field(value->Object_0)->Some_0[at].0) || !is_value(
            headers_field(value->Object_0)->Some_0[at].1,
        ),
    ensures
        decode_request_spec(value) is Err,
        decode_request_spec(value)->Err_0 is InvalidHeader,
{
    let pairs = headers_field(value->Object_0)->Some_0;
    lemma_checked_refuses(pairs, at);
    lemma_checked_error(pairs);
}

} // verus!
