//! What a request handler answers: the two failures, and the plain success.

use vstd::prelude::*;
use vstd::string::*;
use vstd::std_specs::convert::FromSpecImpl;

verus! {

/// The status that an internal error is answered with.
pub const INTERNAL_SERVER_ERROR: u16 = 500;

/// The status that an unavailable service is answered with.
pub const SERVICE_UNAVAILABLE: u16 = 503;

/// The status of a plain success.
pub const OK: u16 = 200;

/// The status of a success that created something.
pub const CREATED: u16 = 201;

/// A failed request. Every failure of a backend call or of a publish is an
/// `InternalError` with the failure's own message: a refused connection, a
/// malformed body and a "not found" of the backend are not told apart.
/// `ServiceUnavailable` is kept for the health path.
#[derive(Clone, Debug, PartialEq, Eq)]
pub enum ServerError {
    InternalError(String),
    ServiceUnavailable,
}

/// What a [`ServerError`] says.
pub enum ServerErrorView {
    InternalError(Seq<char>),
    ServiceUnavailable,
}

impl View for ServerError {
    type V = ServerErrorView;

    open spec fn view(&self) -> ServerErrorView {
        match self {
            ServerError::InternalError(msg) => ServerErrorView::InternalError(msg@),
            ServerError::ServiceUnavailable => ServerErrorView::ServiceUnavailable,
        }
    }
}

impl ServerErrorView {
    /// The message that the response carries.
    pub open spec fn message(self) -> Seq<char> {
        match self {
            ServerErrorView::InternalError(msg) => msg,
            ServerErrorView::ServiceUnavailable => "service unavailable"@,
        }
    }

    /// The status that the response carries.
    pub open spec fn status(self) -> u16 {
        match self {
            ServerErrorView::InternalError(_) => INTERNAL_SERVER_ERROR,
            ServerErrorView::ServiceUnavailable => SERVICE_UNAVAILABLE,
        }
    }

    /// The error as one line of text.
    pub open spec fn text(self) -> Seq<char> {
        match self {
            ServerErrorView::InternalError(msg) => "internal service error: "@ + msg,
            ServerErrorView::ServiceUnavailable => "service unavailable"@,
        }
    }
}

impl From<String> for ServerError {
    /// The internal error that carries the message of a failure.
    fn from(value: String) -> (e: ServerError) {
        ServerError::InternalError(value)
    }
}

impl FromSpecImpl<String> for ServerError {
    open spec fn obeys_from_spec() -> bool {
        true
    }

    open spec fn from_spec(value: String) -> ServerError {
        ServerError::InternalError(value)
    }
}

impl ServerError {
    /// The message and the status that the response carries.
    pub fn status_code(&self) -> (r: (String, u16))
        ensures
            r.0@ == self@.message(),
            r.1 == self@.status(),
    {
        match self {
            ServerError::InternalError(msg) => (msg.clone(), INTERNAL_SERVER_ERROR),
            ServerError::ServiceUnavailable => (
                String::from_str("service unavailable"),
                SERVICE_UNAVAILABLE,
            ),
        }
    }

    /// The error as one line of text.
    pub fn to_string(&self) -> (r: String)
        ensures
            r@ == self@.text(),
    {
        match self {
            ServerError::InternalError(msg) => String::from_str("internal service error: ").concat(
                msg.as_str(),
            ),
            ServerError::ServiceUnavailable => String::from_str("service unavailable"),
        }
    }
}

/// A type that can show an example of itself in a description of the
/// interface.
pub trait SwaggerExamples {
    type Example;

    fn example(value: Option<String>) -> Self::Example;
}

impl SwaggerExamples for ServerError {
    type Example = Self;

    /// An internal error with the given message, or an unavailable service
    /// where there is none.
    fn example(value: Option<String>) -> (e: ServerError)
        ensures
            e@ == (match value {
                Some(msg) => ServerErrorView::InternalError(msg@),
                None => ServerErrorView::ServiceUnavailable,
            }),
    {
        match value {
            None => ServerError::ServiceUnavailable,
            Some(msg) => ServerError::InternalError(msg),
        }
    }
}

/// The body of a response that carries no entity.
#[derive(Clone, Debug, PartialEq, Eq)]
pub struct Success {
    pub status: u16,
    pub message: String,
}

impl SwaggerExamples for Success {
    type Example = Self;

    /// A success with the given message, or with `Ok` where there is none.
    fn example(value: Option<String>) -> (s: Success)
        ensures
            s.status == OK,
            s.message@ == (match value {
                Some(msg) => msg@,
                None => "Ok"@,
            }),
    {
        Success {
            status: OK,
            message: match value {
                Some(msg) => msg,
                None => String::from_str("Ok"),
            },
        }
    }
}

impl Success {
    /// The plain success.
    pub fn success() -> (s: Success)
        ensures
            s.status == OK,
            s.message@ == "Ok"@,
    {
        Success::example(None)
    }
}

/// What a handler answers to the outcome of an outbound call: the value that
/// came back, or an internal error with the failure's message.
pub fn respond<T>(outcome: Result<T, String>) -> (r: Result<T, ServerError>)
    ensures
        r == (match outcome {
            Ok(value) => Ok::<T, ServerError>(value),
            Err(msg) => Err(ServerError::InternalError(msg)),
        }),
{
    match outcome {
        Ok(value) => Ok(value),
        Err(msg) => Err(ServerError::from(msg)),
    }
}

/// Whether a backend's answer has a status that fails the call: one of the
/// client errors, 400 to 499, or of the server errors, 500 to 599.
pub open spec fn is_failure_status(status: u16) -> bool {
    400 <= status <= 599
}

/// Holds a backend's answer to the status that a call requires. `failure` is
/// the text of the failure that the status is, if it is one. A failing status
/// becomes a failure like any other, known by its text alone: the caller of
/// the gateway cannot tell a backend's "not found" from a refused connection.
pub fn require_success(status: u16, failure: String) -> (r: Result<(), String>)
    ensures
        r == (if is_failure_status(status) {
            Err::<(), String>(failure)
        } else {
            Ok(())
        }),
{
    if status < 400 || status > 599 {
        Ok(())
    } else {
        Err(failure)
    }
}

} // verus!
