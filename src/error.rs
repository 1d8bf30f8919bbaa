use vstd::prelude::*;

verus! {

/// Errors at the request boundary.
#[derive(Clone, Debug)]
pub enum AppError {
    /// The broker could not be reached or refused a command; holds its
    /// description of the failure.
    Redis(String),
    /// The registry's lock could not be taken.
    LockError,
    /// The freshly drawn job identifier already names a job.
    IdCollision,
}

/// Message reported to the client for an error.
pub open spec fn error_text(e: AppError) -> Seq<char> {
    match e {
        AppError::Redis(d) => "Redis Error: "@ + d@,
        AppError::LockError => "Internal System Lock Error"@,
        AppError::IdCollision => "Job identifier already in use"@,
    }
}

impl AppError {
    /// The message reported to the client; a lock failure leaks no detail.
    pub fn message(&self) -> (r: String)
        ensures
            r@ == error_text(*self),
    {
        match self {
            AppError::Redis(d) => String::from_str("Redis Error: ").concat(d.as_str()),
            AppError::LockError => String::from_str("Internal System Lock Error"),
            AppError::IdCollision => String::from_str("Job identifier already in use"),
        }
    }
}

} // verus!
