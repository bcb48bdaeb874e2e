//! Error types of the service: the internal application error with its
//! user-facing message, and the client-facing API error raised by the core.

use vstd::prelude::*;
use vstd::string::StringExecFns;

verus! {

/// What went wrong inside the application, by origin.
#[derive(Debug, PartialEq, Eq, Structural, Clone, Copy)]
pub enum AppErrorType {
    ActixError,
    DieselError,
    NotFound,
    PoolError,
    InvalidRequest,
    InvalidToken,
    BlockingError,
    ServerError,
    UUIDError,
    SerdeError,
    InvalidJwtError,
    ExpiredJwtError,
    OtherJwtError,
    WalkDirError,
}

/// An application error: a raw message plus the kind it belongs to.
#[derive(Debug, Clone)]
pub struct AppError {
    pub message: String,
    pub error_type: AppErrorType,
}

/// The text shown to a user for an error of kind `t` whose raw message is
/// `message`: a fixed sentence for the kinds a user can act on, the raw
/// message for the rest.
pub open spec fn user_message(t: AppErrorType, message: Seq<char>) -> Seq<char> {
    match t {
        AppErrorType::NotFound => "The requested resource doesn't exists."@,
        AppErrorType::PoolError => "Cannot get a connection from the R2D2's pool"@,
        AppErrorType::InvalidToken => "The token is invalid or has expired"@,
        AppErrorType::InvalidRequest => "Invalid request"@,
        AppErrorType::ServerError => "Server error, try again later"@,
        _ => message,
    }
}

impl AppError {
    /// A fresh server-side error carrying `message`.
    pub fn new(message: String) -> (r: Self)
        ensures
            r.message@ == message@,
            r.error_type == AppErrorType::ServerError,
    {
        Self { message, error_type: AppErrorType::ServerError }
    }

    /// The text shown to a user for this error.
    pub fn message(&self) -> (r: String)
        ensures
            r@ == user_message(self.error_type, self.message@),
    {
        match self.error_type {
            AppErrorType::NotFound => String::from_str("The requested resource doesn't exists."),
            AppErrorType::PoolError => String::from_str(
                "Cannot get a connection from the R2D2's pool",
            ),
            AppErrorType::InvalidToken => String::from_str("The token is invalid or has expired"),
            AppErrorType::InvalidRequest => String::from_str("Invalid request"),
            AppErrorType::ServerError => String::from_str("Server error, try again later"),
            _ => self.message.clone(),
        }
    }
}

/// Client-facing API error. The core raises the request-level variants;
/// wrappers around a store or transport error live with the embedding
/// service, which maps them onto these.
#[derive(Debug, Clone)]
pub enum ApiError {
    ServerError(Option<String>),
    NotFoundError(Option<String>),
    AuthorizationError(Option<String>),
    InvalidRequestError(Option<String>),
    SessionError(Option<String>),
    ExplicitError(String),
}

} // verus!
