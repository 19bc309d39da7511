use vstd::prelude::*;

verus! {

/// The caller-facing error taxonomy. Every operation of the service
/// fails with one of these two kinds: `NotFound` when the requested
/// entity is absent, `DatabaseError` when the underlying store failed,
/// carrying the cause for diagnostics.
#[derive(Debug)]
pub enum AppError {
    NotFound(String),
    DatabaseError(String),
}

/// The mathematical model of an `AppError`: the same two kinds over
/// character sequences.
#[verifier::ext_equal]
pub ghost enum ErrorModel {
    NotFound(Seq<char>),
    DatabaseError(Seq<char>),
}

impl View for AppError {
    type V = ErrorModel;

    open spec fn view(&self) -> ErrorModel {
        match self {
            AppError::NotFound(m) => ErrorModel::NotFound(m@),
            AppError::DatabaseError(c) => ErrorModel::DatabaseError(c@),
        }
    }
}

impl AppError {
    /// The message carried by the error, for display at the API layer.
    pub fn message(&self) -> (r: &String)
        ensures
            r@ == match self@ {
                ErrorModel::NotFound(m) => m,
                ErrorModel::DatabaseError(c) => c,
            },
    {
        match self {
            AppError::NotFound(m) => m,
            AppError::DatabaseError(c) => c,
        }
    }
}

} // verus!
