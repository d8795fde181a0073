//! What can go wrong when a request is made or its answer read.
use hyper::Error as HyperError;
use serde_json::Error as JsonError;
use std::io::Error as IoError;
use vstd::prelude::*;
use vstd::string::to_string_from_display_ensures;

verus! {

#[verifier::external_type_specification]
#[verifier::external_body]
pub struct ExHyperError(HyperError);

#[verifier::external_type_specification]
#[verifier::external_body]
pub struct ExIoError(IoError);

/// Why a response body could not be read as the record that was asked for.
#[derive(Debug)]
pub enum DecodeError {
    /// The body is not one well-formed JSON document.
    Syntax(JsonError),
    /// The document, or a record inside it, is not a JSON object.
    NotAnObject,
    /// A required member is absent; it carries the member's name.
    MissingField(String),
    /// A member holds a value of the wrong type or out of range; it carries
    /// the member's name.
    InvalidField(String),
    /// A table names the same code twice; it carries the code.
    DuplicateField(String),
}

/// The mathematical value of a [`DecodeError`]: which kind, and for which
/// member.
pub enum DecodeErrorView {
    Syntax,
    NotAnObject,
    MissingField(Seq<char>),
    InvalidField(Seq<char>),
    DuplicateField(Seq<char>),
}

impl View for DecodeError {
    type V = DecodeErrorView;

    open spec fn view(&self) -> DecodeErrorView {
        match self {
            DecodeError::Syntax(_) => DecodeErrorView::Syntax,
            DecodeError::NotAnObject => DecodeErrorView::NotAnObject,
            DecodeError::MissingField(name) => DecodeErrorView::MissingField(name@),
            DecodeError::InvalidField(name) => DecodeErrorView::InvalidField(name@),
            DecodeError::DuplicateField(name) => DecodeErrorView::DuplicateField(name@),
        }
    }
}

/// What a shape error says, in words.
pub open spec fn shape_message(e: DecodeErrorView) -> Seq<char> {
    match e {
        DecodeErrorView::Syntax => "malformed JSON"@,
        DecodeErrorView::NotAnObject => "expected a JSON object"@,
        DecodeErrorView::MissingField(name) => "missing field `"@ + name + "`"@,
        DecodeErrorView::InvalidField(name) => "invalid value in field `"@ + name + "`"@,
        DecodeErrorView::DuplicateField(name) => "duplicate field `"@ + name + "`"@,
    }
}

impl DecodeError {
    /// Whether `text` is what [`DecodeError::message`] says of this error.
    pub open spec fn message_spec(&self, text: String) -> bool {
        match self {
            DecodeError::Syntax(cause) => to_string_from_display_ensures::<JsonError>(cause, text),
            _ => text@ == shape_message(self@),
        }
    }

    /// Says what went wrong, in words; a syntax error says what the parser
    /// reported.
    pub fn message(&self) -> (r: String)
        ensures
            self.message_spec(r),
    {
        match self {
            DecodeError::Syntax(cause) => cause.to_string(),
            DecodeError::NotAnObject => String::from_str("expected a JSON object"),
            DecodeError::MissingField(name) => {
                let mut r = String::from_str("missing field `");
                r.append(name.as_str());
                r.append("`");
                r
            },
            DecodeError::InvalidField(name) => {
                let mut r = String::from_str("invalid value in field `");
                r.append(name.as_str());
                r.append("`");
                r
            },
            DecodeError::DuplicateField(name) => {
                let mut r = String::from_str("duplicate field `");
                r.append(name.as_str());
                r.append("`");
                r
            },
        }
    }
}

/// A decoding outcome seen through the views of the record and the error.
pub open spec fn result_view<T: View>(r: Result<T, DecodeError>) -> Result<T::V, DecodeErrorView> {
    match r {
        Ok(x) => Ok(x@),
        Err(e) => Err(e@),
    }
}

/// Why the HTTP exchange of a request failed.
#[derive(Debug)]
pub enum TransportError {
    /// The request could not be completed.
    Hyper(HyperError),
    /// The response body could not be read.
    Io(IoError),
}

/// The error of a request to the API.
#[derive(Debug)]
pub enum Error {
    /// The HTTP exchange failed.
    Hyper(HyperError),
    /// The response body could not be read.
    Io(IoError),
    /// The response body is not the document that was asked for.
    Decode(DecodeError),
}

impl Error {
    /// Says what went wrong, in words: which kind of error, then what its
    /// cause reports.
    pub fn message(&self) -> (r: String)
        ensures
            match self {
                Error::Hyper(cause) => exists|t: String|
                    to_string_from_display_ensures::<HyperError>(cause, t) && r@ == "Hyper error: "@
                        + t@,
                Error::Io(cause) => exists|t: String|
                    to_string_from_display_ensures::<IoError>(cause, t) && r@ == "IO error: "@ + t@,
                Error::Decode(cause) => exists|t: String|
                    #![trigger cause.message_spec(t)]
                    cause.message_spec(t) && r@ == "Serde JSON error: "@ + t@,
            },
    {
        let (mut r, t) = match self {
            Error::Hyper(cause) => (String::from_str("Hyper error: "), cause.to_string()),
            Error::Io(cause) => (String::from_str("IO error: "), cause.to_string()),
            Error::Decode(cause) => (String::from_str("Serde JSON error: "), cause.message()),
        };
        r.append(t.as_str());
        r
    }
}

impl From<TransportError> for Error {
    fn from(e: TransportError) -> (r: Error) {
        match e {
            TransportError::Hyper(cause) => Error::Hyper(cause),
            TransportError::Io(cause) => Error::Io(cause),
        }
    }
}

impl vstd::std_specs::convert::FromSpecImpl<TransportError> for Error {
    open spec fn obeys_from_spec() -> bool {
        true
    }

    open spec fn from_spec(e: TransportError) -> Error {
        match e {
            TransportError::Hyper(cause) => Error::Hyper(cause),
            TransportError::Io(cause) => Error::Io(cause),
        }
    }
}

impl From<HyperError> for Error {
    fn from(e: HyperError) -> (r: Error) {
        Error::Hyper(e)
    }
}

impl vstd::std_specs::convert::FromSpecImpl<HyperError> for Error {
    open spec fn obeys_from_spec() -> bool {
        true
    }

    open spec fn from_spec(e: HyperError) -> Error {
        Error::Hyper(e)
    }
}

impl From<IoError> for Error {
    fn from(e: IoError) -> (r: Error) {
        Error::Io(e)
    }
}

impl vstd::std_specs::convert::FromSpecImpl<IoError> for Error {
    open spec fn obeys_from_spec() -> bool {
        true
    }

    open spec fn from_spec(e: IoError) -> Error {
        Error::Io(e)
    }
}

impl From<JsonError> for Error {
    fn from(e: JsonError) -> (r: Error) {
        Error::Decode(DecodeError::Syntax(e))
    }
}

impl vstd::std_specs::convert::FromSpecImpl<JsonError> for Error {
    open spec fn obeys_from_spec() -> bool {
        true
    }

    open spec fn from_spec(e: JsonError) -> Error {
        Error::Decode(DecodeError::Syntax(e))
    }
}

impl From<DecodeError> for Error {
    fn from(e: DecodeError) -> (r: Error) {
        Error::Decode(e)
    }
}

impl vstd::std_specs::convert::FromSpecImpl<DecodeError> for Error {
    open spec fn obeys_from_spec() -> bool {
        true
    }

    open spec fn from_spec(e: DecodeError) -> Error {
        Error::Decode(e)
    }
}

} // verus!
