//! The failures that the core reports to its callers.

use vstd::prelude::*;

verus! {

/// Every way in which an operation of the core can fail. Failures are values:
/// none of them aborts the process.
#[derive(Debug)]
pub enum CoreError {
    /// The ride may not move from `from` to `to`. `to` is empty where no
    /// target is known: an event that does not apply, or a status code that
    /// names no status (then `from` holds the rejected code).
    InvalidStatusTransition { from: String, to: String },
    /// A coordinate or ride record that cannot be used, with the reason.
    InvalidLocation(String),
    /// The trip is longer than a pilot may ride; carries the distance in
    /// millionths of a mile.
    PilotLimitExceeded(i64),
    /// The pilot index failed, with its diagnostic message.
    Dispatch(String),
    /// The ride store failed, with its diagnostic message.
    Storage(String),
    /// No ride with the given identifier.
    NotFound,
    /// A ride with the given identifier is stored already.
    AlreadyExists,
    /// The request did not prove its origin.
    Unauthorized,
}

pub type CoreResult<T> = Result<T, CoreError>;

/// A failure with its texts as sequences of characters.
pub enum CoreErrorView {
    InvalidStatusTransition { from: Seq<char>, to: Seq<char> },
    InvalidLocation(Seq<char>),
    PilotLimitExceeded(i64),
    Dispatch(Seq<char>),
    Storage(Seq<char>),
    NotFound,
    AlreadyExists,
    Unauthorized,
}

impl View for CoreError {
    type V = CoreErrorView;

    open spec fn view(&self) -> CoreErrorView {
        match self {
            CoreError::InvalidStatusTransition { from, to } => {
                CoreErrorView::InvalidStatusTransition { from: from@, to: to@ }
            },
            CoreError::InvalidLocation(reason) => CoreErrorView::InvalidLocation(reason@),
            CoreError::PilotLimitExceeded(miles) => CoreErrorView::PilotLimitExceeded(*miles),
            CoreError::Dispatch(message) => CoreErrorView::Dispatch(message@),
            CoreError::Storage(message) => CoreErrorView::Storage(message@),
            CoreError::NotFound => CoreErrorView::NotFound,
            CoreError::AlreadyExists => CoreErrorView::AlreadyExists,
            CoreError::Unauthorized => CoreErrorView::Unauthorized,
        }
    }
}

/// An optional text as an optional sequence of characters.
pub open spec fn text_view(text: Option<String>) -> Option<Seq<char>> {
    match text {
        Some(s) => Some(s@),
        None => None,
    }
}

} // verus!
