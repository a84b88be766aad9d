//! The errors of the ergonomic client, classified from the errors of the
//! generated calls.

use vstd::prelude::*;
use vstd::string::*;

use crate::raw;
use crate::raw::{kind_message, ErrorKindView, ErrorView};
use crate::text::{decimal, to_decimal};

verus! {

/// The status code that says the credential was not accepted.
pub const UNAUTHORIZED: u16 = 401;

/// The status code of success, which a failure without response counts as.
pub const OK: u16 = 200;

/// The text that `reqwest::StatusCode` is displayed as for the status code
/// `code`: the number and the canonical reason.
pub uninterp spec fn status_text(code: u16) -> Seq<char>;

/// Calls `reqwest::StatusCode::from_u16` and displays the status code.
///
/// Trusted: `from_u16` accepts exactly the codes from 100 to 999, and the
/// text of an accepted code depends on the code alone, so it is the value
/// that [`status_text`] names.
#[verifier::external_body]
fn status_line(code: u16) -> (result: Option<String>)
    ensures
        result is Some <==> 100 <= code <= 999,
        result matches Some(text) ==> text@ == status_text(code),
{
    match reqwest::StatusCode::from_u16(code) {
        Ok(status) => Some(status.to_string()),
        Err(_) => None,
    }
}

/// What went wrong, by domain.
#[derive(Debug, Clone, PartialEq, Eq)]
pub enum ErrorKind {
    /// The exchange failed; status code and message.
    NetworkError(u16, String),
    /// The credential was not accepted.
    AuthenticationError,
    /// The body could not be decoded; message and body.
    ParsingError(String, String),
    /// The image data could not be read.
    DecodingError,
    /// The request could not be built; message.
    RequestCreationError(String),
}

/// The mathematical content of an [`ErrorKind`].
pub enum KindView {
    NetworkError(u16, Seq<char>),
    AuthenticationError,
    ParsingError(Seq<char>, Seq<char>),
    DecodingError,
    RequestCreationError(Seq<char>),
}

impl View for ErrorKind {
    type V = KindView;

    open spec fn view(&self) -> KindView {
        match self {
            ErrorKind::NetworkError(status, message) => KindView::NetworkError(*status, message@),
            ErrorKind::AuthenticationError => KindView::AuthenticationError,
            ErrorKind::ParsingError(message, text) => KindView::ParsingError(message@, text@),
            ErrorKind::DecodingError => KindView::DecodingError,
            ErrorKind::RequestCreationError(message) => KindView::RequestCreationError(message@),
        }
    }
}

/// Whether an error of a generated call can be classified: all but a
/// decoding failure that has neither status nor body.
pub open spec fn classifiable(error: ErrorView) -> bool {
    !(error.context.response_text is None && error.context.response_status is None
        && error.kind is DeserializationError)
}

/// The domain kind of an error of a generated call, by the richest context
/// it carries: with a body it is a parsing failure; with a status, a
/// rejected credential for 401 and a network failure otherwise; with
/// neither, a failure to create the request. Nothing is said of an error
/// that is not classifiable.
pub open spec fn classified(error: ErrorView) -> KindView {
    match error.context.response_text {
        Some(text) => KindView::ParsingError(kind_message(error.kind), text),
        None => match error.context.response_status {
            Some(status) => if status == UNAUTHORIZED {
                KindView::AuthenticationError
            } else {
                KindView::NetworkError(status, kind_message(error.kind))
            },
            None => match error.kind {
                ErrorKindView::NetworkError(message) => KindView::RequestCreationError(message),
                ErrorKindView::DeserializationError(_) => arbitrary(),
            },
        },
    }
}

/// The text of a status code in a message: as `reqwest` displays it, or
/// the plain number for a code that is no status code.
pub open spec fn status_display(code: u16) -> Seq<char> {
    if 100 <= code <= 999 {
        status_text(code)
    } else {
        decimal(code as nat)
    }
}

/// The text an error kind is shown as.
pub open spec fn kind_text(kind: KindView) -> Seq<char> {
    match kind {
        KindView::NetworkError(status, message) => "Network error: StatusCode "@ + status_display(
            status,
        ) + ": "@ + message,
        KindView::AuthenticationError => "Problem authenticating, check your api key"@,
        KindView::ParsingError(message, text) =>
            "Problem parsing answer from api, update dependency.\n\nOriginal Error: "@ + message
            + "\nSource text: "@ + text,
        KindView::DecodingError => "Problem reading image data"@,
        KindView::RequestCreationError(message) => "Failed creating a valid reqwest Request: "@
            + message,
    }
}

impl ErrorKind {
    /// Classifies the error of a generated call.
    pub fn from_raw(value: raw::Error) -> (kind: ErrorKind)
        requires
            classifiable(value@),
        ensures
            kind@ == classified(value@),
    {
        let message = value.kind.message();
        match value.context.response_text {
            Some(text) => ErrorKind::ParsingError(message, text),
            None => match value.context.response_status {
                Some(status) => {
                    if status == UNAUTHORIZED {
                        ErrorKind::AuthenticationError
                    } else {
                        ErrorKind::NetworkError(status, message)
                    }
                },
                None => match value.kind {
                    raw::ErrorKind::NetworkError(error) => ErrorKind::RequestCreationError(error),
                    raw::ErrorKind::DeserializationError(_) => vstd::pervasive::unreached(),
                },
            },
        }
    }

    /// The text this kind is shown as.
    pub fn message(&self) -> (result: String)
        ensures
            result@ == kind_text(self@),
    {
        match self {
            ErrorKind::NetworkError(status, message) => {
                let shown = match status_line(*status) {
                    Some(text) => text,
                    None => to_decimal(*status as u64),
                };
                let mut result = "Network error: StatusCode ".to_owned();
                result.append(shown.as_str());
                result.append(": ");
                result.append(message.as_str());
                result
            },
            ErrorKind::AuthenticationError => "Problem authenticating, check your api key".to_owned(
            ),
            ErrorKind::ParsingError(message, text) => {
                let mut result =
                    "Problem parsing answer from api, update dependency.\n\nOriginal Error: ".to_owned();
                result.append(message.as_str());
                result.append("\nSource text: ");
                result.append(text.as_str());
                result
            },
            ErrorKind::DecodingError => "Problem reading image data".to_owned(),
            ErrorKind::RequestCreationError(message) => {
                let mut result = "Failed creating a valid reqwest Request: ".to_owned();
                result.append(message.as_str());
                result
            },
        }
    }
}

/// An error of the ergonomic client.
#[derive(Debug, Clone, PartialEq, Eq)]
pub struct Error {
    /// What the client was doing.
    pub source: String,
    pub error: ErrorKind,
}

/// The mathematical content of an [`Error`].
pub struct ClientErrorView {
    pub source: Seq<char>,
    pub error: KindView,
}

impl View for Error {
    type V = ClientErrorView;

    open spec fn view(&self) -> ClientErrorView {
        ClientErrorView { source: self.source@, error: self.error@ }
    }
}

impl Error {
    /// The error of the client for the error `value` of a generated call
    /// made on behalf of `source`.
    pub fn from_raw(source: &str, value: raw::Error) -> (error: Error)
        requires
            classifiable(value@),
        ensures
            error@ == (ClientErrorView { source: source@, error: classified(value@) }),
    {
        Error { source: source.to_owned(), error: ErrorKind::from_raw(value) }
    }

    /// The text this error is shown as.
    pub fn message(&self) -> (result: String)
        ensures
            result@ == "Error in "@ + self@.source + ": "@ + kind_text(self@.error) + "\n"@,
    {
        let mut result = "Error in ".to_owned();
        result.append(self.source.as_str());
        result.append(": ");
        let kind = self.error.message();
        result.append(kind.as_str());
        result.append("\n");
        result
    }
}

} // verus!
