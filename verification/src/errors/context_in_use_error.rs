use super::error_handling::ErrorMessage;
use vstd::prelude::*;

verus! {

/// A shared access was refused: the data is being changed.
#[derive(Debug, Clone, Copy, PartialEq, Eq, Structural)]
pub struct BorrowError;

/// An exclusive access was refused: the data is being read or changed.
#[derive(Debug, Clone, Copy, PartialEq, Eq, Structural)]
pub struct BorrowMutError;

/// An access to the data of a context was refused, because an access that
/// rules it out was still open.
#[derive(Debug, Clone, Copy, PartialEq, Eq, Structural)]
pub enum ContextInUseError {
    Borrowed(BorrowError),
    BorrowedMut(BorrowMutError),
}

impl ErrorMessage for ContextInUseError {
    open spec fn says(&self, text: Seq<char>) -> bool {
        text == "context is already in use"@
    }

    fn message(&self) -> (text: String) {
        String::from_str("context is already in use")
    }
}

} // verus!
