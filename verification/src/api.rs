//! The error taxonomy and the uniform response envelope of the service.

use vstd::prelude::*;
use vstd::string::StringExecFns;
use crate::opt_view;
use crate::users::FetchUserError;

verus! {

/// The four error kinds a request can end in. Components raise the most
/// specific kind they can determine; the pipeline never downgrades one.
///
/// The carried string is an optional human-readable detail. For
/// `InternalServerError` it is internal context that is never returned to a
/// client (see [`ApiError::to_status_response`]).
#[derive(Debug)]
pub enum ApiError {
    InternalServerError(Option<String>),
    BadRequest(Option<String>),
    Conflict(Option<String>),
    Unauthorized(Option<String>),
}

/// The envelope every status or error response carries:
/// a numeric HTTP code, its title line, and an optional detail string.
#[derive(Debug)]
pub struct StatusResponse {
    pub status: u16,
    pub title: String,
    pub detail: Option<String>,
}

/// The title line of an HTTP status code, for the codes this service emits.
pub open spec fn spec_status_title(status: u16) -> Seq<char> {
    if status == 200 {
        "200 OK"@
    } else if status == 201 {
        "201 Created"@
    } else if status == 400 {
        "400 Bad Request"@
    } else if status == 401 {
        "401 Unauthorized"@
    } else if status == 404 {
        "404 Not Found"@
    } else if status == 409 {
        "409 Conflict"@
    } else if status == 500 {
        "500 Internal Server Error"@
    } else {
        "Unknown Status"@
    }
}

/// Renders the title line of an HTTP status code.
pub fn status_title(status: u16) -> (r: String)
    ensures
        r@ == spec_status_title(status),
{
    let t: &str = if status == 200 {
        "200 OK"
    } else if status == 201 {
        "201 Created"
    } else if status == 400 {
        "400 Bad Request"
    } else if status == 401 {
        "401 Unauthorized"
    } else if status == 404 {
        "404 Not Found"
    } else if status == 409 {
        "409 Conflict"
    } else if status == 500 {
        "500 Internal Server Error"
    } else {
        "Unknown Status"
    };
    String::from_str(t)
}

impl StatusResponse {
    /// An envelope for a bare status: the title is derived from the code and
    /// no detail is attached.
    pub fn new(status: u16) -> (r: Self)
        ensures
            r.status == status,
            r.title@ == spec_status_title(status),
            r.detail is None,
    {
        StatusResponse { status, title: status_title(status), detail: Option::None }
    }

    /// An envelope for a status with an optional detail string.
    pub fn with_detail(status: u16, detail: Option<String>) -> (r: Self)
        ensures
            r.status == status,
            r.title@ == spec_status_title(status),
            r.detail == detail,
    {
        StatusResponse { status, title: status_title(status), detail }
    }
}

impl ApiError {
    /// The HTTP status code each error kind maps to.
    pub open spec fn spec_status_code(&self) -> u16 {
        match self {
            ApiError::InternalServerError(_) => 500,
            ApiError::BadRequest(_) => 400,
            ApiError::Conflict(_) => 409,
            ApiError::Unauthorized(_) => 401,
        }
    }

    /// The detail string the client is allowed to see: internal error detail
    /// is withheld, every other kind may carry a short human-readable string.
    pub open spec fn spec_client_detail(&self) -> Option<Seq<char>> {
        match self {
            ApiError::InternalServerError(_) => Option::None,
            ApiError::BadRequest(d) => opt_view(*d),
            ApiError::Conflict(d) => opt_view(*d),
            ApiError::Unauthorized(d) => opt_view(*d),
        }
    }

    /// Translates the error into the uniform response envelope. Internal
    /// detail is dropped here, never returned to the client.
    pub fn to_status_response(self) -> (r: StatusResponse)
        ensures
            r.status == self.spec_status_code(),
            r.title@ == spec_status_title(self.spec_status_code()),
            opt_view(r.detail) == self.spec_client_detail(),
    {
        match self {
            ApiError::InternalServerError(_) => StatusResponse::new(500),
            ApiError::BadRequest(d) => StatusResponse::with_detail(400, d),
            ApiError::Conflict(d) => StatusResponse::with_detail(409, d),
            ApiError::Unauthorized(d) => StatusResponse::with_detail(401, d),
        }
    }
}

impl From<FetchUserError> for ApiError {
    /// An unresolvable credential surfaces as unauthorized; an upstream
    /// transport failure surfaces as a server error.
    fn from(value: FetchUserError) -> Self {
        match value {
            FetchUserError::InvalidAuthorization => ApiError::Unauthorized(Option::None),
            FetchUserError::Unknown(d) => ApiError::InternalServerError(d),
        }
    }
}

impl vstd::std_specs::convert::FromSpecImpl<FetchUserError> for ApiError {
    open spec fn obeys_from_spec() -> bool {
        true
    }

    open spec fn from_spec(value: FetchUserError) -> Self {
        match value {
            FetchUserError::InvalidAuthorization => ApiError::Unauthorized(Option::None),
            FetchUserError::Unknown(d) => ApiError::InternalServerError(d),
        }
    }
}

} // verus!
