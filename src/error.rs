use vstd::prelude::*;

verus! {

/// The failures a request can end in.
#[derive(Debug, Clone, Copy, PartialEq, Eq, Structural)]
pub enum ApiError {
    /// The request body is missing, malformed, or describes an invalid record.
    Validation,
    /// No record has the identifier named in the path.
    NotFound,
    /// The backing store could not carry out the operation.
    Storage,
    /// No route matches the method and path of the request.
    NoRoute,
}

/// The HTTP status code that each failure is answered with.
pub open spec fn error_status(e: ApiError) -> u16 {
    match e {
        ApiError::Validation => 400,
        ApiError::NotFound => 404,
        ApiError::Storage => 500,
        ApiError::NoRoute => 404,
    }
}

/// The human-readable message carried in the JSON error body.
pub open spec fn error_message(e: ApiError) -> Seq<char> {
    match e {
        ApiError::Validation => "invalid request body"@,
        ApiError::NotFound => "book not found"@,
        ApiError::Storage => "storage failure"@,
        ApiError::NoRoute => "not found"@,
    }
}

impl ApiError {
    pub fn status_code(&self) -> (r: u16)
        ensures
            r == error_status(*self),
    {
        match self {
            ApiError::Validation => 400,
            ApiError::NotFound => 404,
            ApiError::Storage => 500,
            ApiError::NoRoute => 404,
        }
    }

    pub fn message(&self) -> (r: &'static str)
        ensures
            r@ == error_message(*self),
    {
        match self {
            ApiError::Validation => "invalid request body",
            ApiError::NotFound => "book not found",
            ApiError::Storage => "storage failure",
            ApiError::NoRoute => "not found",
        }
    }
}

} // verus!
