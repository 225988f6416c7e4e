//! The error taxonomy shared by every component.

use vstd::prelude::*;

verus! {

/// What went wrong, with a message for the caller.
#[derive(Debug, Clone)]
pub enum AppError {
    /// The input was malformed or not allowed.
    BadRequest(String),
    /// No task or strategy is known under the given name or id.
    NotFound(String),
    /// A strategy's source did not compile; the message is the compiler's.
    Build(String),
    /// A tick, a probe of the exchange or a write to the store failed.
    Execution(String),
    /// A precondition of the engine itself was violated.
    Internal(String),
}

pub type AppResult<T> = Result<T, AppError>;

impl AppError {
    /// The text carried by the error, whatever its class.
    pub open spec fn message_spec(self) -> Seq<char> {
        match self {
            AppError::BadRequest(m) => m@,
            AppError::NotFound(m) => m@,
            AppError::Build(m) => m@,
            AppError::Execution(m) => m@,
            AppError::Internal(m) => m@,
        }
    }

    /// Whether the error reports bad input.
    pub open spec fn is_validation(self) -> bool {
        self is BadRequest
    }

    /// The text carried by the error.
    pub fn message(&self) -> (r: String)
        ensures
            r@ == self.message_spec(),
    {
        match self {
            AppError::BadRequest(m) => m.clone(),
            AppError::NotFound(m) => m.clone(),
            AppError::Build(m) => m.clone(),
            AppError::Execution(m) => m.clone(),
            AppError::Internal(m) => m.clone(),
        }
    }
}

} // verus!
