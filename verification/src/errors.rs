//! The engine's failure taxonomy. Every fallible step of the engine reports
//! one of these; all of them are recovered at the tick or responder boundary
//! and never clear previously cached state.

use vstd::prelude::*;

verus! {

/// A failure of one engine operation.
#[derive(Debug)]
pub enum EngineError {
    /// The outbound call could not be made or did not complete.
    NetworkError,
    /// The provider answered with a non-success status; the payload is the
    /// response body text.
    NonSuccessStatus(String),
    /// A required field was absent from the forecast data; the payload names
    /// the field.
    MissingField(String),
    /// The forecast data has too few daily points for the requested index.
    ArrayIndex,
    /// The provider's response could not be parsed.
    ParseError,
}

/// The mathematical image of an `EngineError`: the same variants over
/// `Seq<char>`, for use in specifications.
pub enum ErrorModel {
    NetworkError,
    NonSuccessStatus(Seq<char>),
    MissingField(Seq<char>),
    ArrayIndex,
    ParseError,
}

impl View for EngineError {
    type V = ErrorModel;

    open spec fn view(&self) -> ErrorModel {
        match self {
            EngineError::NetworkError => ErrorModel::NetworkError,
            EngineError::NonSuccessStatus(body) => ErrorModel::NonSuccessStatus(body@),
            EngineError::MissingField(name) => ErrorModel::MissingField(name@),
            EngineError::ArrayIndex => ErrorModel::ArrayIndex,
            EngineError::ParseError => ErrorModel::ParseError,
        }
    }
}

} // verus!
