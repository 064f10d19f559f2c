//! Version 1 of the service: its error type, parameter access and models.
use vstd::prelude::*;

pub mod api;
pub mod model;

verus! {

/// The HTTP statuses that errors of the service carry.
#[derive(Clone, Copy, Debug, PartialEq, Eq, Structural)]
pub enum StatusCode {
    BadRequest,
    Forbidden,
    NotFound,
    InternalServerError,
}

impl StatusCode {
    pub open spec fn spec_code(self) -> u16 {
        match self {
            StatusCode::BadRequest => 400,
            StatusCode::Forbidden => 403,
            StatusCode::NotFound => 404,
            StatusCode::InternalServerError => 500,
        }
    }

    /// The numeric HTTP status.
    pub fn code(&self) -> (r: u16)
        ensures
            r == self.spec_code(),
    {
        match self {
            StatusCode::BadRequest => 400,
            StatusCode::Forbidden => 403,
            StatusCode::NotFound => 404,
            StatusCode::InternalServerError => 500,
        }
    }
}

/// An error answer of the service: a status, a description and, where there
/// is more to say, details.
#[derive(Debug)]
pub struct ApiError {
    pub status: StatusCode,
    pub desc: String,
    pub details: Option<String>,
}

pub struct ApiErrorView {
    pub status: StatusCode,
    pub desc: Seq<char>,
    pub details: Option<Seq<char>>,
}

impl View for ApiError {
    type V = ApiErrorView;

    open spec fn view(&self) -> ApiErrorView {
        ApiErrorView {
            status: self.status,
            desc: self.desc@,
            details: match self.details {
                Some(d) => Some(d@),
                None => None,
            },
        }
    }
}

/// The error that a failed database query is answered with.
pub open spec fn query_failed_error(description: Seq<char>) -> ApiErrorView {
    ApiErrorView {
        status: StatusCode::InternalServerError,
        desc: "Query failed!"@,
        details: Some(description),
    }
}

impl ApiError {
    pub fn new(status: StatusCode, desc: String) -> (r: ApiError)
        ensures
            r@ == (ApiErrorView { status, desc: desc@, details: None }),
    {
        ApiError { status, desc, details: None }
    }

    pub fn detailed(status: StatusCode, desc: String, details: String) -> (r: ApiError)
        ensures
            r@ == (ApiErrorView { status, desc: desc@, details: Some(details@) }),
    {
        ApiError { status, desc, details: Some(details) }
    }

    /// The error for a query that the database refused, with its description.
    pub fn query_failed(description: String) -> (r: ApiError)
        ensures
            r@ == query_failed_error(description@),
    {
        ApiError::detailed(StatusCode::InternalServerError, String::from_str("Query failed!"), description)
    }
}

} // verus!
