//! The failures of a request, and the response that reports each.

use crate::response::{
    Body, BodyView, Response, ResponseView, STATUS_BAD_REQUEST, STATUS_INTERNAL_SERVER_ERROR,
    STATUS_NOT_FOUND,
};
use vstd::prelude::*;

verus! {

/// Why a request could not be answered with a success.
#[derive(Clone, Copy, Debug, PartialEq, Eq, Structural)]
pub enum ApiError {
    /// No record matches the requested identifier.
    NotFound,
    /// The store reported a failure.
    StoreError,
    /// The request is malformed.
    BadRequest,
}

impl ApiError {
    /// The HTTP status that reports this error.
    pub open spec fn spec_status_code(self) -> u16 {
        match self {
            ApiError::NotFound => STATUS_NOT_FOUND,
            ApiError::StoreError => STATUS_INTERNAL_SERVER_ERROR,
            ApiError::BadRequest => STATUS_BAD_REQUEST,
        }
    }

    /// The text shown to the client. It carries no detail from the store.
    pub open spec fn spec_message(self) -> Seq<char> {
        match self {
            ApiError::NotFound => "Student not found"@,
            ApiError::StoreError => "Internal server error"@,
            ApiError::BadRequest => "Bad request"@,
        }
    }

    /// The response that reports this error: its status, and a body with the
    /// message alone.
    pub open spec fn spec_to_response(self) -> ResponseView {
        ResponseView {
            status: self.spec_status_code(),
            body: BodyView::Message(self.spec_message()),
        }
    }

    #[verifier::when_used_as_spec(spec_status_code)]
    pub fn status_code(self) -> (code: u16)
        ensures
            code == self.spec_status_code(),
    {
        match self {
            ApiError::NotFound => STATUS_NOT_FOUND,
            ApiError::StoreError => STATUS_INTERNAL_SERVER_ERROR,
            ApiError::BadRequest => STATUS_BAD_REQUEST,
        }
    }

    pub fn message(self) -> (text: String)
        ensures
            text@ == self.spec_message(),
    {
        match self {
            ApiError::NotFound => "Student not found".to_owned(),
            ApiError::StoreError => "Internal server error".to_owned(),
            ApiError::BadRequest => "Bad request".to_owned(),
        }
    }

    /// The one place where a failure becomes a response.
    pub fn to_response(self) -> (response: Response)
        ensures
            response@ == self.spec_to_response(),
    {
        Response { status: self.status_code(), body: Body::Message(self.message()) }
    }
}

} // verus!
