//! The failures that the backend answers requests with.
use vstd::prelude::*;

verus! {

/// A failed request, with the message for the caller.
#[derive(Debug)]
pub enum ApiError {
    NotFound(String),
    BadRequest(String),
    Conflict(String),
    Validation(String),
    Authorization(String),
    RateLimit(String),
    InternalServerError,
}

/// The mathematical value of a failure.
pub enum ApiErrorModel {
    NotFound(Seq<char>),
    BadRequest(Seq<char>),
    Conflict(Seq<char>),
    Validation(Seq<char>),
    Authorization(Seq<char>),
    RateLimit(Seq<char>),
    InternalServerError,
}

impl View for ApiError {
    type V = ApiErrorModel;

    open spec fn view(&self) -> ApiErrorModel {
        match self {
            ApiError::NotFound(m) => ApiErrorModel::NotFound(m@),
            ApiError::BadRequest(m) => ApiErrorModel::BadRequest(m@),
            ApiError::Conflict(m) => ApiErrorModel::Conflict(m@),
            ApiError::Validation(m) => ApiErrorModel::Validation(m@),
            ApiError::Authorization(m) => ApiErrorModel::Authorization(m@),
            ApiError::RateLimit(m) => ApiErrorModel::RateLimit(m@),
            ApiError::InternalServerError => ApiErrorModel::InternalServerError,
        }
    }
}

/// Whether the result fails exactly when there is an error, and with it.
pub open spec fn fails_with<T>(r: Result<T, ApiError>, error: Option<ApiErrorModel>) -> bool {
    match (r, error) {
        (Ok(_), None) => true,
        (Err(e), Some(model)) => e@ == model,
        _ => false,
    }
}

/// A result meets an error exactly when it fails with it, and no error exactly
/// when it succeeds.
pub proof fn law_failing<T>(r: Result<T, ApiError>, error: Option<ApiErrorModel>)
    ensures
        error is None ==> (fails_with(r, error) <==> r is Ok),
        error is Some ==> (fails_with(r, error) <==> r is Err && r->Err_0@ == error->0),
{
}

} // verus!
