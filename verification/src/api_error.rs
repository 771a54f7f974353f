//! Errors answered to HTTP clients.

use vstd::prelude::*;

verus! {

/// An error answered to an HTTP client, with the message it carries.
#[derive(Debug)]
pub enum ApiError {
    BadRequest(String),
    Unauthorized(String),
    Forbidden(String),
    NotFound(String),
    Internal(String),
}

/// The mathematical value of an [`ApiError`].
pub enum ApiErrorView {
    BadRequest(Seq<char>),
    Unauthorized(Seq<char>),
    Forbidden(Seq<char>),
    NotFound(Seq<char>),
    Internal(Seq<char>),
}

impl View for ApiError {
    type V = ApiErrorView;

    open spec fn view(&self) -> ApiErrorView {
        match self {
            ApiError::BadRequest(m) => ApiErrorView::BadRequest(m@),
            ApiError::Unauthorized(m) => ApiErrorView::Unauthorized(m@),
            ApiError::Forbidden(m) => ApiErrorView::Forbidden(m@),
            ApiError::NotFound(m) => ApiErrorView::NotFound(m@),
            ApiError::Internal(m) => ApiErrorView::Internal(m@),
        }
    }
}

} // verus!
