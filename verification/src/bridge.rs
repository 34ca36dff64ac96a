//! The capability bridge: the one way from the guest to the network.
//!
//! A call has two halves. [`Bridge::begin_call`] takes the arguments of the
//! guest, decodes the request and lets it pass, or refuses it. The embedding
//! hands a request that passed to its network client, and nothing else; with
//! what the client reports, [`finish_call`] makes the value that the guest
//! gets back. The bridge keeps nothing between calls but its allow-list.

use crate::error::{BridgeError, ErrorView, Field, HeaderPart};
use crate::headers::{distinct_names, lemma_put_distinct, put, Headers};
use crate::marshal::{
    decode_request, decode_request_spec, decode_response_spec, encode_response,
    encode_response_spec, malformed, request_outcome,
};
use crate::record::{body_view, HttpRequest, HttpResponse, RequestView, ResponseView};
use crate::stability::{law_decoded_request_is_canonical, law_response_round_trip, request_wf};
use crate::value::{GuestValue, ValueView};
use crate::wire::{
    is_method, is_status, method_accepted, optional_text, parse_uri, status_accepted, uri_parts,
    utf8_text, UriParts,
};
use vstd::prelude::*;
use vstd::string::{StrSliceExecFns, StringExecFns};
use vstd::utf8::{decode_utf8, encode_utf8, valid_utf8};

verus! {

/// The origins that requests may go to, in the order in which they were
/// given, each once.
#[derive(Debug, Clone, PartialEq, Eq)]
pub struct AllowList {
    origins: Vec<String>,
}

/// A sequence without its repetitions: of equal texts the first stays.
pub open spec fn unique(texts: Seq<Seq<char>>) -> Seq<Seq<char>>
    decreases texts.len(),
{
    if texts.len() == 0 {
        Seq::empty()
    } else {
        let before = unique(texts.drop_last());
        if before.contains(texts.last()) {
            before
        } else {
            before.push(texts.last())
        }
    }
}

/// The texts of strings.
pub open spec fn texts_view(strings: Seq<String>) -> Seq<Seq<char>> {
    Seq::new(strings.len(), |i: int| strings[i]@)
}

/// The origin that the host allows when it is told nothing else.
pub open spec fn example_origin() -> Seq<char> {
    "https://example.com"@
}

/// `unique` keeps exactly the texts that were there, each once.
pub proof fn lemma_unique(texts: Seq<Seq<char>>)
    ensures
        unique(texts).no_duplicates(),
        forall|text: Seq<char>| unique(texts).contains(text) <==> texts.contains(text),
    decreases texts.len(),
{
    if texts.len() > 0 {
        let before = texts.drop_last();
        lemma_unique(before);
        let last = texts.last();
        let kept = unique(texts);
        assert forall|text: Seq<char>| kept.contains(text) <==> texts.contains(text) by {
            if kept.contains(text) {
                let i = choose|i: int| 0 <= i < kept.len() && kept[i] == text;
                if unique(before).contains(last) {
                    assert(unique(before).contains(text));
                } else if i == kept.len() - 1 {
                    assert(texts[texts.len() - 1] == text);
                } else {
                    assert(unique(before)[i] == text);
                    assert(unique(before).contains(text));
                }
                if before.contains(text) {
                    let j = choose|j: int| 0 <= j < before.len() && before[j] == text;
                    assert(texts[j] == text);
                }
            }
            if texts.contains(text) {
                let j = choose|j: int| 0 <= j < texts.len() && texts[j] == text;
                if j < texts.len() - 1 {
                    assert(before[j] == text);
                    assert(before.contains(text));
                    assert(unique(before).contains(text));
                    let i = choose|i: int| 0 <= i < unique(before).len() && unique(before)[i]
                        == text;
                    assert(kept[i] == text);
                } else if unique(before).contains(last) {
                } else {
                    assert(kept[kept.len() - 1] == text);
                }
            }
        }
    }
}

impl View for AllowList {
    type V = Seq<Seq<char>>;

    closed spec fn view(&self) -> Seq<Seq<char>> {
        texts_view(self.origins@)
    }
}

impl AllowList {
    /// The allow-list of the given origins. An origin that is given twice
    /// is held once, at its first place.
    pub fn new(origins: Vec<String>) -> (r: AllowList)
        ensures
            r@ == unique(texts_view(origins@)),
            r@.no_duplicates(),
    {
        let ghost all = texts_view(origins@);
        let mut list = AllowList { origins: Vec::new() };
        assert(list@ =~= unique(all.take(0)));
        let mut i: usize = 0;
        while i < origins.len()
            invariant
                i <= origins.len(),
                all == texts_view(origins@),
                list@ == unique(all.take(i as int)),
            decreases origins.len() - i,
        {
            proof {
                assert(all.take(i + 1).drop_last() =~= all.take(i as int));
                assert(all.take(i + 1).last() == origins@[i as int]@);
            }
            if !list.contains(&origins[i]) {
                let ghost before = list@;
                list.origins.push(origins[i].clone());
                assert(list@ =~= before.push(origins@[i as int]@));
            }
            i = i + 1;
        }
        proof {
            assert(all.take(origins@.len() as int) =~= all);
            lemma_unique(all);
        }
        list
    }

    /// The allow-list that a host takes when none is configured: the one
    /// origin `https://example.com`.
    pub fn example() -> (r: AllowList)
        ensures
            r@ == seq![example_origin()],
    {
        let mut origins: Vec<String> = Vec::new();
        origins.push(String::from_str("https://example.com"));
        let list = AllowList { origins };
        assert(list@ =~= seq![example_origin()]);
        list
    }

    /// The configured allow-list, or the example list where none is
    /// configured.
    pub fn configured(origins: Option<Vec<String>>) -> (r: AllowList)
        ensures
            r@ == match origins {
                Some(given) => unique(texts_view(given@)),
                None => seq![example_origin()],
            },
    {
        match origins {
            Some(given) => AllowList::new(given),
            None => AllowList::example(),
        }
    }

    /// The number of origins.
    pub fn len(&self) -> (r: usize)
        ensures
            r == self@.len(),
    {
        self.origins.len()
    }

    /// The origin at `index`.
    pub fn origin_at(&self, index: usize) -> (r: &String)
        requires
            index < self@.len(),
        ensures
            r@ == self@[index as int],
    {
        &self.origins[index]
    }

    /// Whether the list holds the origin.
    pub fn contains(&self, origin: &String) -> (r: bool)
        ensures
            r == self@.contains(origin@),
    {
        let mut i: usize = 0;
        while i < self.origins.len()
            invariant
                i <= self.origins.len(),
                forall|j: int| 0 <= j < i ==> self@[j] != origin@,
            decreases self.origins.len() - i,
        {
            if self.origins[i] == *origin {
                assert(self@[i as int] == origin@);
                return true;
            }
            i = i + 1;
        }
        false
    }
}

/// The origin of a URI: its scheme, `://` and its authority. A URI that
/// lacks either has no origin.
pub open spec fn origin_spec(parts: (Option<Seq<char>>, Option<Seq<char>>)) -> Option<Seq<char>> {
    match parts {
        (Some(scheme), Some(authority)) => Some(scheme + "://"@ + authority),
        _ => None,
    }
}

/// The scheme and the authority of parsed parts, as texts.
pub open spec fn parts_view(parts: UriParts) -> (Option<Seq<char>>, Option<Seq<char>>) {
    (optional_text(parts.scheme), optional_text(parts.authority))
}

/// The parts of a URI that was parsed, if it could be.
pub open spec fn parsed_view(parsed: Option<UriParts>) -> Option<
    (Option<Seq<char>>, Option<Seq<char>>),
> {
    match parsed {
        Some(parts) => Some(parts_view(parts)),
        None => None,
    }
}

/// The origin of a URI, from its parts.
pub fn origin(parts: &UriParts) -> (r: Option<String>)
    ensures
        optional_text(r) == origin_spec(parts_view(*parts)),
{
    match (&parts.scheme, &parts.authority) {
        (Some(scheme), Some(authority)) => {
            let mut text = scheme.clone();
            text.append("://");
            text.append(authority.as_str());
            Some(text)
        },
        _ => None,
    }
}

/// The origin that a request goes to: that of its URI, if the text is a
/// URI and has one.
pub open spec fn destination_spec(parsed: Option<(Option<Seq<char>>, Option<Seq<char>>)>) -> Option<
    Seq<char>,
> {
    match parsed {
        Some(parts) => origin_spec(parts),
        None => None,
    }
}

/// Whether a request may pass. The origin is judged first: a request
/// without an origin, or with one that the allow-list does not hold, is
/// refused as `OriginNotAllowed`, whatever else it holds. Then the method
/// must be a method.
pub open spec fn verdict_spec(
    allowed: Seq<Seq<char>>,
    method: Seq<char>,
    uri: Seq<char>,
    parsed: Option<(Option<Seq<char>>, Option<Seq<char>>)>,
) -> Result<(), ErrorView> {
    match destination_spec(parsed) {
        Some(origin) => if !allowed.contains(origin) {
            Err(ErrorView::OriginNotAllowed { uri })
        } else if !is_method(method) {
            Err(malformed(Field::Method))
        } else {
            Ok(())
        },
        None => Err(ErrorView::OriginNotAllowed { uri }),
    }
}

/// The mathematical value of a verdict.
pub open spec fn verdict_view(r: Result<(), BridgeError>) -> Result<(), ErrorView> {
    match r {
        Ok(_) => Ok(()),
        Err(error) => Err(error@),
    }
}

/// The request that the arguments of a call stand for: there must be one
/// argument, and it must decode.
pub open spec fn decode_call_spec(args: Seq<ValueView>) -> Result<RequestView, ErrorView> {
    if args.len() != 1 {
        Err(ErrorView::ArityError { got: args.len() })
    } else {
        decode_request_spec(args[0])
    }
}

/// What the first half of a call yields: the request to send, or the
/// failure to raise.
pub open spec fn begin_spec(allowed: Seq<Seq<char>>, args: Seq<ValueView>) -> Result<
    RequestView,
    ErrorView,
> {
    match decode_call_spec(args) {
        Err(error) => Err(error),
        Ok(request) => match verdict_spec(
            allowed,
            request.method,
            request.uri,
            uri_parts(request.uri),
        ) {
            Ok(_) => Ok(request),
            Err(error) => Err(error),
        },
    }
}

/// What a network client hands back for a request that it sent.
#[derive(Debug, Clone, PartialEq, Eq)]
pub struct RawResponse {
    pub status: u16,
    /// The header fields as they came: names as text, values as bytes.
    pub headers: Vec<(String, Vec<u8>)>,
    pub body: Option<Vec<u8>>,
}

/// Header fields as they came, as pairs of text and bytes.
pub open spec fn raw_headers_view(headers: Seq<(String, Vec<u8>)>) -> Seq<(Seq<char>, Seq<u8>)> {
    Seq::new(headers.len(), |i: int| (headers[i].0@, headers[i].1@))
}

/// The header fields of a response, read in order: each value must be
/// UTF-8. Of two fields of one name, the first keeps its place and the
/// second gives the value.
pub open spec fn received_headers(raw: Seq<(Seq<char>, Seq<u8>)>) -> Result<
    Seq<(Seq<char>, Seq<char>)>,
    ErrorView,
>
    decreases raw.len(),
{
    if raw.len() == 0 {
        Ok(Seq::empty())
    } else {
        match received_headers(raw.drop_last()) {
            Err(error) => Err(error),
            Ok(fields) => if valid_utf8(raw.last().1) {
                Ok(put(fields, raw.last().0, decode_utf8(raw.last().1)))
            } else {
                Err(ErrorView::InvalidHeader { name: raw.last().0, part: HeaderPart::Value })
            },
        }
    }
}

/// The record of a response that came: its status and body as they are,
/// its header fields read as text.
pub open spec fn capture_spec(
    status: int,
    raw: Seq<(Seq<char>, Seq<u8>)>,
    body: Option<Seq<u8>>,
) -> Result<ResponseView, ErrorView> {
    match received_headers(raw) {
        Ok(fields) => Ok(ResponseView { status, headers: fields, body }),
        Err(error) => Err(error),
    }
}

/// The mathematical value of what a network client reports.
pub open spec fn report_view(report: Result<RawResponse, String>) -> Result<
    (int, Seq<(Seq<char>, Seq<u8>)>, Option<Seq<u8>>),
    Seq<char>,
> {
    match report {
        Ok(raw) => Ok((raw.status as int, raw_headers_view(raw.headers@), body_view(raw.body))),
        Err(cause) => Err(cause@),
    }
}

/// What the second half of a call yields: the value for the guest, or the
/// failure to raise.
pub open spec fn finish_spec(
    report: Result<(int, Seq<(Seq<char>, Seq<u8>)>, Option<Seq<u8>>), Seq<char>>,
) -> Result<ValueView, ErrorView> {
    match report {
        Err(cause) => Err(ErrorView::NetworkError { cause }),
        Ok((status, raw, body)) => match capture_spec(status, raw, body) {
            Ok(response) => Ok(encode_response_spec(response)),
            Err(error) => Err(error),
        },
    }
}

/// A failure among the first fields is the failure of the whole.
proof fn lemma_received_failure(raw: Seq<(Seq<char>, Seq<u8>)>, upto: int)
    requires
        0 <= upto <= raw.len(),
        received_headers(raw.take(upto)) is Err,
    ensures
        received_headers(raw) == received_headers(raw.take(upto)),
    decreases raw.len(),
{
    if upto == raw.len() {
        assert(raw.take(upto) =~= raw);
    } else {
        assert(raw.drop_last().take(upto) =~= raw.take(upto));
        lemma_received_failure(raw.drop_last(), upto);
    }
}

/// Makes the record of a response that came from the network. A header
/// value that is not UTF-8 is an error: it is neither dropped nor patched.
pub fn capture_response(raw: &RawResponse) -> (r: Result<HttpResponse, BridgeError>)
    ensures
        match r {
            Ok(response) => capture_spec(
                raw.status as int,
                raw_headers_view(raw.headers@),
                body_view(raw.body),
            ) == Ok::<ResponseView, ErrorView>(response@),
            Err(error) => capture_spec(
                raw.status as int,
                raw_headers_view(raw.headers@),
                body_view(raw.body),
            ) == Err::<ResponseView, ErrorView>(error@),
        },
{
    let ghost all = raw_headers_view(raw.headers@);
    let mut headers = Headers::new();
    let mut i: usize = 0;
    while i < raw.headers.len()
        invariant
            i <= raw.headers.len(),
            all == raw_headers_view(raw.headers@),
            received_headers(all.take(i as int)) == Ok::<Seq<(Seq<char>, Seq<char>)>, ErrorView>(
                headers@,
            ),
        decreases raw.headers.len() - i,
    {
        proof {
            assert(all.take(i + 1).drop_last() =~= all.take(i as int));
            assert(all.take(i + 1).last() == all[i as int]);
        }
        match utf8_text(raw.headers[i].1.as_slice()) {
            Some(text) => {
                headers.insert(raw.headers[i].0.clone(), text.to_owned());
            },
            None => {
                proof {
                    lemma_received_failure(all, i + 1);
                }
                return Err(
                    BridgeError::InvalidHeader {
                        name: raw.headers[i].0.clone(),
                        part: HeaderPart::Value,
                    },
                );
            },
        }
        i = i + 1;
    }
    proof {
        assert(all.take(raw.headers@.len() as int) =~= all);
    }
    let body = match &raw.body {
        Some(bytes) => Some(bytes.clone()),
        None => None,
    };
    Ok(HttpResponse { status: raw.status, headers, body })
}

/// The second half of a call: from what the network client reports to what
/// the guest gets. A failure of the client is passed on with its cause; a
/// response is captured and encoded.
pub fn finish_call(report: &Result<RawResponse, String>) -> (r: Result<GuestValue, BridgeError>)
    ensures
        match r {
            Ok(value) => finish_spec(report_view(*report)) == Ok::<ValueView, ErrorView>(value@),
            Err(error) => finish_spec(report_view(*report)) == Err::<ValueView, ErrorView>(error@),
        },
{
    match report {
        Err(cause) => Err(BridgeError::NetworkError { cause: cause.clone() }),
        Ok(raw) => match capture_response(raw) {
            Ok(response) => Ok(encode_response(&response)),
            Err(error) => Err(error),
        },
    }
}

/// The host side of the outbound HTTP capability.
#[derive(Debug, Clone, PartialEq, Eq)]
pub struct Bridge {
    allow_list: AllowList,
}

impl View for Bridge {
    type V = Seq<Seq<char>>;

    closed spec fn view(&self) -> Seq<Seq<char>> {
        self.allow_list@
    }
}

impl Bridge {
    /// A bridge that lets requests pass to the origins of the list.
    pub fn new(allow_list: AllowList) -> (r: Bridge)
        ensures
            r@ == allow_list@,
    {
        Bridge { allow_list }
    }

    /// The allow-list, which no call changes.
    pub fn allow_list(&self) -> (r: &AllowList)
        ensures
            r@ == self@,
    {
        &self.allow_list
    }

    /// Decides on a request whose URI has been parsed already.
    pub fn judge_parsed(&self, request: &HttpRequest, parsed: &Option<UriParts>) -> (r: Result<
        (),
        BridgeError,
    >)
        ensures
            verdict_view(r) == verdict_spec(
                self@,
                request.method@,
                request.uri@,
                parsed_view(*parsed),
            ),
    {
        let destination = match parsed {
            Some(parts) => origin(parts),
            None => None,
        };
        match destination {
            Some(text) => if !self.allow_list.contains(&text) {
                Err(BridgeError::OriginNotAllowed { uri: request.uri.clone() })
            } else if !method_accepted(request.method.as_str()) {
                Err(BridgeError::MalformedRequest { field: Field::Method })
            } else {
                Ok(())
            },
            None => Err(BridgeError::OriginNotAllowed { uri: request.uri.clone() }),
        }
    }

    /// Decides on a request: parses its URI and lets it pass if its origin
    /// is on the allow-list and its method is a method.
    pub fn judge(&self, request: &HttpRequest) -> (r: Result<(), BridgeError>)
        ensures
            verdict_view(r) == verdict_spec(
                self@,
                request.method@,
                request.uri@,
                uri_parts(request.uri@),
            ),
    {
        let parsed = parse_uri(request.uri.as_str());
        self.judge_parsed(request, &parsed)
    }

    /// The first half of a call: takes the arguments of the guest and
    /// yields the request to send. Any other number of arguments than one
    /// fails before anything is decoded; a value that does not decode, and
    /// a request that may not pass, fail with their own error. On a
    /// failure there is no request, and so nothing to send.
    pub fn begin_call(&self, args: &Vec<GuestValue>) -> (r: Result<HttpRequest, BridgeError>)
        ensures
            match r {
                Ok(request) => begin_spec(self@, args_view(args@)) == Ok::<RequestView, ErrorView>(
                    request@,
                ),
                Err(error) => begin_spec(self@, args_view(args@)) == Err::<RequestView, ErrorView>(
                    error@,
                ),
            },
    {
        let request = match decode_call(args) {
            Ok(request) => request,
            Err(error) => {
                return Err(error);
            },
        };
        match self.judge(&request) {
            Ok(_) => Ok(request),
            Err(error) => Err(error),
        }
    }
}

/// Reads the arguments of a call of the HTTP entry point. Any other number
/// of arguments than one fails before anything is decoded; then the one
/// argument is decoded as a request.
pub fn decode_call(args: &Vec<GuestValue>) -> (r: Result<HttpRequest, BridgeError>)
    ensures
        request_outcome(r) == decode_call_spec(args_view(args@)),
{
    if args.len() != 1 {
        return Err(BridgeError::ArityError { got: args.len() });
    }
    decode_request(&args[0])
}

/// The arguments of a call, as values.
pub open spec fn args_view(args: Seq<GuestValue>) -> Seq<ValueView> {
    Seq::new(args.len(), |i: int| args[i]@)
}

/// The body of the response for a missing resource.
pub open spec fn not_found_body() -> Seq<u8> {
    encode_utf8("Not Found"@)
}

/// The body of the response for a failure of the server.
pub open spec fn internal_server_error_body() -> Seq<u8> {
    encode_utf8("Internal Server Error"@)
}

fn plain_response(status: u16, text: &str) -> (r: Result<HttpResponse, BridgeError>)
    ensures
        is_status(status as int) ==> r is Ok && r->Ok_0@ == (ResponseView {
            status: status as int,
            headers: Seq::empty(),
            body: Some(encode_utf8(text@)),
        }),
        !is_status(status as int) ==> r is Err && r->Err_0@ == malformed(Field::Status),
{
    if status_accepted(status) {
        Ok(HttpResponse { status, headers: Headers::new(), body: Some(text.as_bytes_vec()) })
    } else {
        Err(BridgeError::MalformedRequest { field: Field::Status })
    }
}

/// The response for a missing resource: status 404, no header fields, the
/// body `Not Found`.
pub fn not_found() -> (r: Result<HttpResponse, BridgeError>)
    ensures
        r is Ok,
        r->Ok_0@ == (ResponseView {
            status: 404,
            headers: Seq::empty(),
            body: Some(not_found_body()),
        }),
{
    plain_response(404, "Not Found")
}

/// The response for a failure of the server: status 500, no header fields,
/// the body `Internal Server Error`.
pub fn internal_server_error() -> (r: Result<HttpResponse, BridgeError>)
    ensures
        r is Ok,
        r->Ok_0@ == (ResponseView {
            status: 500,
            headers: Seq::empty(),
            body: Some(internal_server_error_body()),
        }),
{
    plain_response(500, "Internal Server Error")
}

/// A request to an origin that is not on the allow-list is refused: for
/// every request whose URI has no origin, or one that the list does not
/// hold, the verdict is `OriginNotAllowed`.
pub proof fn law_unlisted_origin_is_refused(
    allowed: Seq<Seq<char>>,
    method: Seq<char>,
    uri: Seq<char>,
    parsed: Option<(Option<Seq<char>>, Option<Seq<char>>)>,
)
    requires
        destination_spec(parsed) matches Some(origin) ==> !allowed.contains(origin),
    ensures
        verdict_spec(allowed, method, uri, parsed) == Err::<(), ErrorView>(
            ErrorView::OriginNotAllowed { uri },
        ),
{
}

/// A call for an origin that is not on the allow-list sends nothing: for
/// every request that decodes and whose URI has no origin, or one that the
/// list does not hold, the first half of the call fails with
/// `OriginNotAllowed`, so that no request is handed out.
pub proof fn law_unlisted_call_sends_nothing(allowed: Seq<Seq<char>>, args: Seq<ValueView>)
    requires
        decode_call_spec(args) is Ok,
        destination_spec(uri_parts(decode_call_spec(args)->Ok_0.uri)) matches Some(origin)
            ==> !allowed.contains(origin),
    ensures
        begin_spec(allowed, args) == Err::<RequestView, ErrorView>(
            ErrorView::OriginNotAllowed { uri: decode_call_spec(args)->Ok_0.uri },
        ),
{
}

/// Nothing is sent to an origin that is not on the allow-list: whenever the
/// first half of a call yields a request, the URI of that request has an
/// origin, and the allow-list holds it.
pub proof fn law_only_listed_origins_are_sent_to(allowed: Seq<Seq<char>>, args: Seq<ValueView>)
    requires
        begin_spec(allowed, args) is Ok,
    ensures
        destination_spec(uri_parts(begin_spec(allowed, args)->Ok_0.uri)) is Some,
        allowed.contains(destination_spec(uri_parts(begin_spec(allowed, args)->Ok_0.uri))->Some_0),
{
}

/// A value that does not decode is not sent: the first half of a call
/// fails with the error of the decoding, so that no request is handed out.
pub proof fn law_undecodable_is_not_sent(allowed: Seq<Seq<char>>, args: Seq<ValueView>)
    requires
        args.len() == 1,
        decode_request_spec(args[0]) is Err,
    ensures
        begin_spec(allowed, args) is Err,
        begin_spec(allowed, args)->Err_0 == decode_request_spec(args[0])->Err_0,
{
}

/// A call with any other number of arguments than one fails with
/// `ArityError`, whatever the arguments are: nothing is decoded.
pub proof fn law_arity_comes_first(allowed: Seq<Seq<char>>, args: Seq<ValueView>)
    requires
        args.len() != 1,
    ensures
        begin_spec(allowed, args) == Err::<RequestView, ErrorView>(
            ErrorView::ArityError { got: args.len() },
        ),
{
}

/// Header fields that were read from a response have distinct names.
proof fn lemma_received_distinct(raw: Seq<(Seq<char>, Seq<u8>)>)
    requires
        received_headers(raw) is Ok,
    ensures
        distinct_names(received_headers(raw)->Ok_0),
    decreases raw.len(),
{
    if raw.len() > 0 {
        lemma_received_distinct(raw.drop_last());
        lemma_put_distinct(
            received_headers(raw.drop_last())->Ok_0,
            raw.last().0,
            decode_utf8(raw.last().1),
        );
    }
}

/// The guest never gets a partial response: whatever the second half of a
/// call hands to the guest decodes as a response, with the status and the
/// body that the network client reported.
pub proof fn law_guest_gets_a_whole_response(
    status: int,
    raw: Seq<(Seq<char>, Seq<u8>)>,
    body: Option<Seq<u8>>,
)
    requires
        0 <= status <= 65535,
        finish_spec(Ok((status, raw, body))) is Ok,
    ensures
        decode_response_spec(finish_spec(Ok((status, raw, body)))->Ok_0) is Ok,
        decode_response_spec(finish_spec(Ok((status, raw, body)))->Ok_0)->Ok_0.status == status,
        decode_response_spec(finish_spec(Ok((status, raw, body)))->Ok_0)->Ok_0.body == body,
{
    lemma_received_distinct(raw);
    law_response_round_trip(capture_spec(status, raw, body)->Ok_0);
}

/// A failure of the network client reaches the guest as `NetworkError`,
/// with the cause as it was reported; it is never turned into a response.
pub proof fn law_network_failure_is_passed_on(cause: Seq<char>)
    ensures
        finish_spec(Err(cause)) == Err::<ValueView, ErrorView>(ErrorView::NetworkError { cause }),
{
}

/// No partial request leaves the bridge: whatever the first half of a call
/// hands out has a method that is a method, header fields in canonical
/// form with distinct names, and a URI whose origin the allow-list holds.
pub proof fn law_sent_requests_are_whole(allowed: Seq<Seq<char>>, args: Seq<ValueView>)
    requires
        begin_spec(allowed, args) is Ok,
    ensures
        args.len() == 1,
        is_method(begin_spec(allowed, args)->Ok_0.method),
        request_wf(begin_spec(allowed, args)->Ok_0),
        begin_spec(allowed, args) == decode_request_spec(args[0]),
{
    law_decoded_request_is_canonical(args[0]);
}

} // verus!
