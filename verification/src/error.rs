//! What can go wrong at the boundary, and how it reads.

use crate::text::{decimal, decimal_text};
use vstd::prelude::*;
use vstd::string::StringExecFns;

verus! {

/// A part of a record that a guest value can get wrong.
#[derive(Clone, Copy, PartialEq, Eq, Structural, Debug)]
pub enum Field {
    /// The value as a whole: it is no object.
    Request,
    Method,
    Uri,
    Headers,
    Body,
    Status,
}

/// The half of a header field that breaks the syntax.
#[derive(Clone, Copy, PartialEq, Eq, Structural, Debug)]
pub enum HeaderPart {
    Name,
    Value,
}

/// A failure of a call across the boundary.
#[derive(Debug, Clone, PartialEq, Eq)]
pub enum BridgeError {
    /// A binding was called with `got` arguments in place of one.
    ArityError { got: usize },
    /// A guest value does not have the shape of the record; `field` names
    /// the part that is missing or of the wrong kind.
    MalformedRequest { field: Field },
    /// The header called `name` breaks the syntax of header fields.
    InvalidHeader { name: String, part: HeaderPart },
    /// The request goes to an origin that the allow-list does not hold.
    OriginNotAllowed { uri: String },
    /// The network client failed; `cause` is what it reported.
    NetworkError { cause: String },
    /// The argument at `index` has no text of its own.
    NotStringifiable { index: usize },
}

/// The mathematical value of a [`BridgeError`].
pub enum ErrorView {
    ArityError { got: nat },
    MalformedRequest { field: Field },
    InvalidHeader { name: Seq<char>, part: HeaderPart },
    OriginNotAllowed { uri: Seq<char> },
    NetworkError { cause: Seq<char> },
    NotStringifiable { index: nat },
}

/// The kinds of failure.
#[derive(Clone, Copy, PartialEq, Eq, Structural, Debug)]
pub enum ErrorKind {
    Arity,
    Malformed,
    Header,
    Origin,
    Network,
    Stringify,
}

impl View for BridgeError {
    type V = ErrorView;

    open spec fn view(&self) -> ErrorView {
        match self {
            BridgeError::ArityError { got } => ErrorView::ArityError { got: *got as nat },
            BridgeError::MalformedRequest { field } => ErrorView::MalformedRequest { field: *field },
            BridgeError::InvalidHeader { name, part } => ErrorView::InvalidHeader {
                name: name@,
                part: *part,
            },
            BridgeError::OriginNotAllowed { uri } => ErrorView::OriginNotAllowed { uri: uri@ },
            BridgeError::NetworkError { cause } => ErrorView::NetworkError { cause: cause@ },
            BridgeError::NotStringifiable { index } => ErrorView::NotStringifiable {
                index: *index as nat,
            },
        }
    }
}

/// The name of a field, as a message gives it.
pub open spec fn field_name_spec(field: Field) -> Seq<char> {
    match field {
        Field::Request => "request"@,
        Field::Method => "method"@,
        Field::Uri => "uri"@,
        Field::Headers => "headers"@,
        Field::Body => "body"@,
        Field::Status => "status"@,
    }
}

/// The kind of a failure.
pub open spec fn kind_spec(error: ErrorView) -> ErrorKind {
    match error {
        ErrorView::ArityError { .. } => ErrorKind::Arity,
        ErrorView::MalformedRequest { .. } => ErrorKind::Malformed,
        ErrorView::InvalidHeader { .. } => ErrorKind::Header,
        ErrorView::OriginNotAllowed { .. } => ErrorKind::Origin,
        ErrorView::NetworkError { .. } => ErrorKind::Network,
        ErrorView::NotStringifiable { .. } => ErrorKind::Stringify,
    }
}

/// The message of a failure.
pub open spec fn message_spec(error: ErrorView) -> Seq<char> {
    match error {
        ErrorView::ArityError { got } => "expected 1 argument, got "@ + decimal(got),
        ErrorView::MalformedRequest { field } => "malformed request: "@ + field_name_spec(field),
        ErrorView::InvalidHeader { name, part: HeaderPart::Name } => "invalid header name: "@ + name,
        ErrorView::InvalidHeader { name, part: HeaderPart::Value } => "invalid header value: "@
            + name,
        ErrorView::OriginNotAllowed { uri } => "origin not allowed: "@ + uri,
        ErrorView::NetworkError { cause } => "network error: "@ + cause,
        ErrorView::NotStringifiable { index } => "argument cannot be converted to a string: "@
            + decimal(index),
    }
}

impl Field {
    /// The name of the field.
    pub fn name(&self) -> (r: &'static str)
        ensures
            r@ == field_name_spec(*self),
    {
        match self {
            Field::Request => "request",
            Field::Method => "method",
            Field::Uri => "uri",
            Field::Headers => "headers",
            Field::Body => "body",
            Field::Status => "status",
        }
    }
}

impl BridgeError {
    /// The kind of the failure.
    pub fn kind(&self) -> (r: ErrorKind)
        ensures
            r == kind_spec(self@),
    {
        match self {
            BridgeError::ArityError { .. } => ErrorKind::Arity,
            BridgeError::MalformedRequest { .. } => ErrorKind::Malformed,
            BridgeError::InvalidHeader { .. } => ErrorKind::Header,
            BridgeError::OriginNotAllowed { .. } => ErrorKind::Origin,
            BridgeError::NetworkError { .. } => ErrorKind::Network,
            BridgeError::NotStringifiable { .. } => ErrorKind::Stringify,
        }
    }

    /// The message that the guest sees in the exception.
    pub fn message(&self) -> (r: String)
        ensures
            r@ == message_spec(self@),
    {
        match self {
            BridgeError::ArityError { got } => {
                let mut text = String::from_str("expected 1 argument, got ");
                let number = decimal_text(*got as u64);
                text.append(number.as_str());
                text
            },
            BridgeError::MalformedRequest { field } => {
                let mut text = String::from_str("malformed request: ");
                text.append(field.name());
                text
            },
            BridgeError::InvalidHeader { name, part } => {
                let mut text = match part {
                    HeaderPart::Name => String::from_str("invalid header name: "),
                    HeaderPart::Value => String::from_str("invalid header value: "),
                };
                text.append(name.as_str());
                text
            },
            BridgeError::OriginNotAllowed { uri } => {
                let mut text = String::from_str("origin not allowed: ");
                text.append(uri.as_str());
                text
            },
            BridgeError::NetworkError { cause } => {
                let mut text = String::from_str("network error: ");
                text.append(cause.as_str());
                text
            },
            BridgeError::NotStringifiable { index } => {
                let mut text = String::from_str("argument cannot be converted to a string: ");
                let number = decimal_text(*index as u64);
                text.append(number.as_str());
                text
            },
        }
    }
}

/// The first character of a message, by the kind of the failure.
pub open spec fn initial_spec(kind: ErrorKind) -> char {
    match kind {
        ErrorKind::Arity => 'e',
        ErrorKind::Malformed => 'm',
        ErrorKind::Header => 'i',
        ErrorKind::Origin => 'o',
        ErrorKind::Network => 'n',
        ErrorKind::Stringify => 'a',
    }
}

/// Every message begins with the letter of its kind.
pub proof fn lemma_message_initial(error: ErrorView)
    ensures
        message_spec(error).len() > 0,
        message_spec(error)[0] == initial_spec(kind_spec(error)),
{
    reveal_strlit("expected 1 argument, got ");
    reveal_strlit("malformed request: ");
    reveal_strlit("invalid header name: ");
    reveal_strlit("invalid header value: ");
    reveal_strlit("origin not allowed: ");
    reveal_strlit("network error: ");
    reveal_strlit("argument cannot be converted to a string: ");
}

/// The message tells the kind: two failures with the same message are of
/// the same kind.
pub proof fn law_message_tells_kind(a: ErrorView, b: ErrorView)
    requires
        message_spec(a) == message_spec(b),
    ensures
        kind_spec(a) == kind_spec(b),
{
    lemma_message_initial(a);
    lemma_message_initial(b);
}

} // verus!
