//! The error type that flows through advice.

use vstd::prelude::*;

verus! {

/// An error raised while executing an advised function.
#[derive(Debug)]
pub enum AspectError {
    /// The advised function itself failed; the text describes its error.
    Execution(String),
}

impl AspectError {
    /// An execution error carrying `message`.
    pub fn execution(message: String) -> (e: Self)
        ensures
            e == AspectError::Execution(message),
    {
        AspectError::Execution(message)
    }
}

} // verus!
