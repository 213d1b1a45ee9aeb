//! The ways in which an operation of the store fails.

use crate::identity::{identity_string, identity_text};
use vstd::prelude::*;
use vstd::string::*;

verus! {

/// Why an operation failed. Each failure is fatal to the one call that
/// met it and leaves the index as it was.
#[derive(Debug, PartialEq, Eq)]
pub enum StoreError {
    /// The operating system refused to create, read or write a file or a
    /// directory. The text is the cause.
    IoError(String),
    /// A file of the data directory does not hold a note record. The text
    /// is the cause.
    Corrupt(String),
    /// The index holds no note under the identity that was asked for, or
    /// no identity was given at all.
    NotFound(Option<u128>),
}

/// A `StoreError` with its texts as sequences of characters.
pub enum ErrorView {
    IoError(Seq<char>),
    Corrupt(Seq<char>),
    NotFound(Option<u128>),
}

impl View for StoreError {
    type V = ErrorView;

    open spec fn view(&self) -> ErrorView {
        match self {
            StoreError::IoError(cause) => ErrorView::IoError(cause@),
            StoreError::Corrupt(cause) => ErrorView::Corrupt(cause@),
            StoreError::NotFound(key) => ErrorView::NotFound(*key),
        }
    }
}

/// The one line that describes a failure to the user.
pub open spec fn message_of(error: ErrorView) -> Seq<char> {
    match error {
        ErrorView::IoError(cause) => cause,
        ErrorView::Corrupt(cause) => "Could not parse reminders file: "@ + cause,
        ErrorView::NotFound(Some(id)) => "No note has the identity "@ + identity_text(id),
        ErrorView::NotFound(None) => "No note identity was given"@,
    }
}

impl StoreError {
    /// The one line that describes this failure to the user.
    pub fn message(&self) -> (text: String)
        ensures
            text@ == message_of(self@),
    {
        match self {
            StoreError::IoError(cause) => cause.clone(),
            StoreError::Corrupt(cause) => {
                String::from_str("Could not parse reminders file: ").concat(cause.as_str())
            },
            StoreError::NotFound(Some(id)) => {
                let name = identity_string(*id);
                String::from_str("No note has the identity ").concat(name.as_str())
            },
            StoreError::NotFound(None) => String::from_str("No note identity was given"),
        }
    }
}

} // verus!
