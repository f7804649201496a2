//! The error taxonomy of the store.
//!
//! Errors never cross the service boundary as failures: the dispatcher
//! converts each of them into a response (see `types::error_response`).

use vstd::prelude::*;

verus! {

/// What can go wrong while serving a command.
#[derive(Debug, Clone, PartialEq, Eq)]
pub enum KvError {
    /// The requested key is absent from the table.
    NotFound(String, String),
    /// The request carries no populated variant, or a required field is missing.
    InvalidCommand(String),
    /// An unimplemented or unexpected code path was reached during dispatch.
    InternalError(String),
}

/// The mathematical image of a [`KvError`].
pub enum KvErrorView {
    NotFound(Seq<char>, Seq<char>),
    InvalidCommand(Seq<char>),
    InternalError(Seq<char>),
}

impl View for KvError {
    type V = KvErrorView;

    open spec fn view(&self) -> KvErrorView {
        match self {
            KvError::NotFound(t, k) => KvErrorView::NotFound(t@, k@),
            KvError::InvalidCommand(d) => KvErrorView::InvalidCommand(d@),
            KvError::InternalError(d) => KvErrorView::InternalError(d@),
        }
    }
}

} // verus!
