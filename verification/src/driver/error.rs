//! WebDriver errors and the bodies of replies.

use crate::json::{object_1, text_value, with_member};
use crate::value::{object, Json, JsonView};
use vstd::prelude::*;

verus! {

/// A WebDriver error: the status of the reply, the error code and a message.
pub struct W3cError {
    pub status: u16,
    pub error: String,
    pub message: String,
}

/// The mathematical value of a [`W3cError`].
#[verifier::ext_equal]
pub struct W3cErrorView {
    pub status: u16,
    pub error: Seq<char>,
    pub message: Seq<char>,
}

impl View for W3cError {
    type V = W3cErrorView;

    open spec fn view(&self) -> W3cErrorView {
        W3cErrorView { status: self.status, error: self.error@, message: self.message@ }
    }
}

/// The error for a command that names no session.
pub open spec fn no_session_error() -> W3cErrorView {
    W3cErrorView {
        status: 404,
        error: "invalid session id"@,
        message: "No active session"@,
    }
}

/// The error for a command that names no element.
pub open spec fn no_element_error(id: Seq<char>) -> W3cErrorView {
    W3cErrorView {
        status: 404,
        error: "no such element"@,
        message: "Element "@ + id + " not found"@,
    }
}

/// The error for a session that could not be opened.
pub open spec fn session_error(message: Seq<char>) -> W3cErrorView {
    W3cErrorView { status: 500, error: "session not created"@, message }
}

/// The error for a command that failed on the way.
pub open spec fn unknown_error(message: Seq<char>) -> W3cErrorView {
    W3cErrorView { status: 500, error: "unknown error"@, message }
}

/// The error for a request that is malformed.
pub open spec fn argument_error(message: Seq<char>) -> W3cErrorView {
    W3cErrorView { status: 400, error: "invalid argument"@, message }
}

/// The error for a script that failed.
pub open spec fn script_error(message: Seq<char>) -> W3cErrorView {
    W3cErrorView { status: 500, error: "javascript error"@, message }
}

/// The body of the reply that reports an error.
pub open spec fn error_body(e: W3cErrorView) -> JsonView {
    object(
        "value"@,
        object("error"@, JsonView::Str(e.error)).with("message"@, JsonView::Str(e.message)).with(
            "stacktrace"@,
            JsonView::Str(""@),
        ),
    )
}

impl W3cError {
    /// An error with a status, a code and a message.
    pub fn new(status: u16, error: &str, message: String) -> (r: W3cError)
        ensures
            r@ == (W3cErrorView { status, error: error@, message: message@ }),
    {
        W3cError { status, error: error.to_owned(), message }
    }

    /// The session that a command names is not open.
    pub fn no_session() -> (r: W3cError)
        ensures
            r@ == no_session_error(),
    {
        W3cError::new(404, "invalid session id", "No active session".to_owned())
    }

    /// The element that a command names is not known.
    pub fn no_element(id: &str) -> (r: W3cError)
        ensures
            r@ == no_element_error(id@),
    {
        let mut message = "Element ".to_owned();
        message.append(id);
        message.append(" not found");
        W3cError::new(404, "no such element", message)
    }

    /// A session could not be opened.
    pub fn session_not_created(message: String) -> (r: W3cError)
        ensures
            r@ == session_error(message@),
    {
        W3cError::new(500, "session not created", message)
    }

    /// A command failed on the way.
    pub fn unknown(message: String) -> (r: W3cError)
        ensures
            r@ == unknown_error(message@),
    {
        W3cError::new(500, "unknown error", message)
    }

    /// A request is malformed.
    pub fn bad_request(message: String) -> (r: W3cError)
        ensures
            r@ == argument_error(message@),
    {
        W3cError::new(400, "invalid argument", message)
    }

    /// A script failed.
    pub fn javascript_error(message: String) -> (r: W3cError)
        ensures
            r@ == script_error(message@),
    {
        W3cError::new(500, "javascript error", message)
    }

    /// The status and the body of the reply that reports this error.
    pub fn into_response(self) -> (r: (u16, Json))
        ensures
            r.0 == self@.status,
            r.1@ == error_body(self@),
    {
        let details = object_1("error", Json::Str(self.error));
        let details = with_member(details, "message", Json::Str(self.message));
        let details = with_member(details, "stacktrace", text_value(""));
        (self.status, object_1("value", details))
    }
}

/// The body of a reply with a value.
pub open spec fn value_body(v: JsonView) -> JsonView {
    object("value"@, v)
}

/// Wraps the value of a reply.
pub fn w3c_value(v: Json) -> (r: Json)
    ensures
        r@ == value_body(v@),
{
    object_1("value", v)
}

/// The value of a result.
pub open spec fn result_view(r: Result<Json, W3cError>) -> Result<JsonView, W3cErrorView> {
    match r {
        Ok(v) => Ok(v@),
        Err(e) => Err(e@),
    }
}

} // verus!
