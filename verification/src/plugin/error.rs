//! Errors of the plugin.

use crate::json::object_1;
use crate::value::{object, Json, JsonView};
use vstd::prelude::*;

verus! {

/// An error of the plugin: something is not there, or something failed.
pub enum ApiError {
    NotFound(String),
    Internal(String),
}

/// The mathematical value of an [`ApiError`].
pub enum ApiErrorView {
    NotFound(Seq<char>),
    Internal(Seq<char>),
}

impl View for ApiError {
    type V = ApiErrorView;

    open spec fn view(&self) -> ApiErrorView {
        match self {
            ApiError::NotFound(m) => ApiErrorView::NotFound(m@),
            ApiError::Internal(m) => ApiErrorView::Internal(m@),
        }
    }
}

impl ApiErrorView {
    /// The status of the reply that reports this error.
    pub open spec fn status(self) -> u16 {
        match self {
            ApiErrorView::NotFound(_) => 404,
            ApiErrorView::Internal(_) => 500,
        }
    }

    /// The message of this error.
    pub open spec fn message(self) -> Seq<char> {
        match self {
            ApiErrorView::NotFound(m) => m,
            ApiErrorView::Internal(m) => m,
        }
    }
}

/// The body of the reply that reports an error.
pub open spec fn api_error_body(e: ApiErrorView) -> JsonView {
    object("error"@, JsonView::Str(e.message()))
}

impl ApiError {
    /// The status and the body of the reply that reports this error.
    pub fn into_response(self) -> (r: (u16, Json))
        ensures
            r.0 == self@.status(),
            r.1@ == api_error_body(self@),
    {
        match self {
            ApiError::NotFound(m) => (404, object_1("error", Json::Str(m))),
            ApiError::Internal(m) => (500, object_1("error", Json::Str(m))),
        }
    }
}

/// The value of a reply.
pub open spec fn api_result(r: Result<Json, ApiError>) -> Result<JsonView, ApiErrorView> {
    match r {
        Ok(v) => Ok(v@),
        Err(e) => Err(e@),
    }
}

} // verus!
