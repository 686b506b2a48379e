use vstd::prelude::*;
use vstd::string::StringExecFns;

verus! {

/// An unrecoverable internal failure, carrying only a message for the log.
#[derive(Clone, Debug)]
pub struct FatalError {
    pub message: String,
}

/// The outcome of a storage read that went wrong: the expected row was
/// absent, or the read itself failed (connectivity, timeout), with the
/// driver's message kept for the server-side log.
#[derive(Clone, Debug)]
pub enum StorageError {
    RowNotFound,
    Other(String),
}

/// Field-level validation failures: for each field, the messages reported
/// against it (a single message may be absent).
#[derive(Clone, Debug)]
pub struct ValidationErrors {
    pub field_errors: Vec<(String, Vec<Option<String>>)>,
}

/// Every failure this subsystem reports, one variant per taxonomy kind.
/// No operation aborts the process on an expected failure path.
#[derive(Debug)]
pub enum AppError {
    Argon2Error(String),
    SqlxError(StorageError),
    BlockingError(String),
    JwtError(String),
    ValidationErrors(ValidationErrors),
    SomeFatalError(FatalError),
    HTTPBadRequest(String),
}

/// The outcome class a failure maps to at the boundary. Internal-fault and
/// unauthorized outcomes carry the full cause for the server-side log only:
/// the caller must be shown a generic message, never the detail.
#[derive(Debug)]
pub enum ErrorOutcome {
    InternalFault(String),
    NotFound,
    Unauthorized(String),
    BadRequest(String),
    Unprocessable(ValidationErrors),
}

/// The outcome class of each failure kind: signing, blocking and unexpected
/// storage failures are internal faults; a missing row is not-found; a token
/// that failed verification is unauthorized; a malformed request is a bad
/// request; validation failures are unprocessable, with their field detail.
pub open spec fn spec_error_outcome(e: AppError) -> ErrorOutcome {
    match e {
        AppError::Argon2Error(detail) => ErrorOutcome::InternalFault(detail),
        AppError::SqlxError(StorageError::RowNotFound) => ErrorOutcome::NotFound,
        AppError::SqlxError(StorageError::Other(detail)) => ErrorOutcome::InternalFault(detail),
        AppError::BlockingError(detail) => ErrorOutcome::InternalFault(detail),
        AppError::JwtError(cause) => ErrorOutcome::Unauthorized(cause),
        AppError::ValidationErrors(errs) => ErrorOutcome::Unprocessable(errs),
        AppError::SomeFatalError(fatal) => ErrorOutcome::InternalFault(fatal.message),
        AppError::HTTPBadRequest(message) => ErrorOutcome::BadRequest(message),
    }
}

/// The message a caller is shown for each outcome class: a fixed generic
/// string wherever detail is logged server-side (internal faults,
/// unauthorized, unprocessable), and the carried message for a bad request.
pub open spec fn spec_client_message(o: ErrorOutcome) -> Seq<char> {
    match o {
        ErrorOutcome::InternalFault(_) => "Internal Server Error"@,
        ErrorOutcome::NotFound => "Not found"@,
        ErrorOutcome::Unauthorized(_) => "Unauthorized"@,
        ErrorOutcome::BadRequest(message) => message@,
        ErrorOutcome::Unprocessable(_) => "Unprocessable Entity"@,
    }
}

impl ErrorOutcome {
    /// The caller-visible message for this outcome. The logged cause of an
    /// internal fault or an unauthorized outcome is never part of it.
    pub fn client_message(&self) -> (r: String)
        ensures
            r@ == spec_client_message(*self),
    {
        match self {
            ErrorOutcome::InternalFault(_) => String::from_str("Internal Server Error"),
            ErrorOutcome::NotFound => String::from_str("Not found"),
            ErrorOutcome::Unauthorized(_) => String::from_str("Unauthorized"),
            ErrorOutcome::BadRequest(message) => message.clone(),
            ErrorOutcome::Unprocessable(_) => String::from_str("Unprocessable Entity"),
        }
    }
}

impl AppError {
    /// Classifies this failure into its boundary outcome.
    pub fn error_response(self) -> (r: ErrorOutcome)
        ensures
            r == spec_error_outcome(self),
    {
        match self {
            AppError::Argon2Error(detail) => ErrorOutcome::InternalFault(detail),
            AppError::SqlxError(StorageError::RowNotFound) => ErrorOutcome::NotFound,
            AppError::SqlxError(StorageError::Other(detail)) => ErrorOutcome::InternalFault(
                detail,
            ),
            AppError::BlockingError(detail) => ErrorOutcome::InternalFault(detail),
            AppError::JwtError(cause) => ErrorOutcome::Unauthorized(cause),
            AppError::ValidationErrors(errs) => ErrorOutcome::Unprocessable(errs),
            AppError::SomeFatalError(fatal) => ErrorOutcome::InternalFault(fatal.message),
            AppError::HTTPBadRequest(message) => ErrorOutcome::BadRequest(message),
        }
    }
}

} // verus!
