//! Error bodies returned at the HTTP boundary.

use vstd::prelude::*;

verus! {

/// A client-facing error: a machine-readable code, a message, and the field
/// at fault when there is one.
#[derive(Clone, Debug)]
pub struct ApiError {
    pub error: String,
    pub message: String,
    pub field: Option<String>,
}

/// The HTTP status for an error code: 400 for a failed validation, 404 for
/// something missing, 401 and 403 for refused access, 500 otherwise.
pub open spec fn status_for(code: Seq<char>) -> u16 {
    if code == "validation_failed"@ {
        400
    } else if code == "not_found"@ {
        404
    } else if code == "unauthorized"@ {
        401
    } else if code == "forbidden"@ {
        403
    } else {
        500
    }
}

impl ApiError {
    /// A failed validation.
    pub fn validation(message: String) -> (r: ApiError)
        ensures
            r.error@ == "validation_failed"@,
            r.message == message,
            r.field is None,
    {
        ApiError { error: String::from_str("validation_failed"), message, field: None }
    }

    /// Something that does not exist.
    pub fn not_found(message: String) -> (r: ApiError)
        ensures
            r.error@ == "not_found"@,
            r.message == message,
            r.field is None,
    {
        ApiError { error: String::from_str("not_found"), message, field: None }
    }

    /// An unexpected failure inside the node.
    pub fn internal(message: String) -> (r: ApiError)
        ensures
            r.error@ == "internal_error"@,
            r.message == message,
            r.field is None,
    {
        ApiError { error: String::from_str("internal_error"), message, field: None }
    }

    /// The HTTP status that answers this error.
    pub fn status_code(&self) -> (r: u16)
        ensures
            r == status_for(self.error@),
    {
        if self.error == String::from_str("validation_failed") {
            400
        } else if self.error == String::from_str("not_found") {
            404
        } else if self.error == String::from_str("unauthorized") {
            401
        } else if self.error == String::from_str("forbidden") {
            403
        } else {
            500
        }
    }
}

} // verus!
