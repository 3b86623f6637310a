//! What the service answers where no handler answers: the description of
//! the service itself, and the reply to a request that was turned down.
use crate::response::AppError;
use crate::response::Info;
use crate::SERVICE_NAME;
use vstd::prelude::*;

verus! {

/// Status of a reply to a malformed request and to a request that a handler
/// turned down.
pub const STATUS_BAD_REQUEST: u16 = 400;

/// Status of a reply to a request for an unknown path.
pub const STATUS_NOT_FOUND: u16 = 404;

/// Status of a reply to a request with the wrong method.
pub const STATUS_METHOD_NOT_ALLOWED: u16 = 405;

/// Status of a reply to a request that failed for a reason nobody foresaw.
pub const STATUS_INTERNAL_SERVER_ERROR: u16 = 500;

/// An error of a handler, on its way to becoming a reply.
#[derive(Clone, Copy, Debug, PartialEq, Eq, Structural)]
pub struct AppErrorRejection(pub AppError);

/// Why a request was turned down. More than one reason may hold.
#[derive(Clone, Copy, Debug, PartialEq, Eq, Structural)]
pub struct Rejection {
    /// No route has the path of the request.
    pub not_found: bool,
    /// The body of the request could not be read as what the route expects.
    pub malformed_body: bool,
    /// The route does not take the method of the request.
    pub method_not_allowed: bool,
    /// The handler turned the request down with this error.
    pub app_error: Option<AppErrorRejection>,
}

/// The reply to a request that was turned down: the status, and the error
/// that the body carries.
#[derive(Clone, Copy, Debug, PartialEq, Eq, Structural)]
pub struct ErrorReply {
    pub status: u16,
    pub message: AppError,
}

/// The reply to a rejection. Of the reasons that hold, the first of these
/// decides: an unknown path, a malformed body, a wrong method, an error of
/// the handler. A rejection for none of them is an error nobody foresaw.
pub open spec fn reply_to(rejection: Rejection) -> ErrorReply {
    if rejection.not_found {
        ErrorReply { status: STATUS_NOT_FOUND, message: AppError::NotFound }
    } else if rejection.malformed_body {
        ErrorReply { status: STATUS_BAD_REQUEST, message: AppError::DecodeError }
    } else if rejection.method_not_allowed {
        ErrorReply { status: STATUS_METHOD_NOT_ALLOWED, message: AppError::MethodNotAllowed }
    } else {
        match rejection.app_error {
            Some(AppErrorRejection(app_error)) => ErrorReply {
                status: STATUS_BAD_REQUEST,
                message: app_error,
            },
            None => ErrorReply { status: STATUS_INTERNAL_SERVER_ERROR, message: AppError::Unknown },
        }
    }
}

/// Decides the reply to a request that was turned down.
pub fn handle_rejection(rejection: Rejection) -> (reply: ErrorReply)
    ensures
        reply == reply_to(rejection),
{
    if rejection.not_found {
        ErrorReply { status: STATUS_NOT_FOUND, message: AppError::NotFound }
    } else if rejection.malformed_body {
        ErrorReply { status: STATUS_BAD_REQUEST, message: AppError::DecodeError }
    } else if rejection.method_not_allowed {
        ErrorReply { status: STATUS_METHOD_NOT_ALLOWED, message: AppError::MethodNotAllowed }
    } else {
        match rejection.app_error {
            Some(AppErrorRejection(app_error)) => ErrorReply {
                status: STATUS_BAD_REQUEST,
                message: app_error,
            },
            None => ErrorReply { status: STATUS_INTERNAL_SERVER_ERROR, message: AppError::Unknown },
        }
    }
}

/// What the service says of itself: its name, and version 1.0.0.
pub fn api_info() -> (info: Info)
    ensures
        info.service@ == SERVICE_NAME@,
        info.version_major == 1,
        info.version_minor == 0,
        info.version_rev == 0,
{
    Info {
        service: String::from_str(SERVICE_NAME),
        version_major: 1,
        version_minor: 0,
        version_rev: 0,
    }
}

} // verus!
