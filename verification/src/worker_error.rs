//! Failures of the worker registration client.

use vstd::prelude::*;

verus! {

/// What can go wrong while a worker registers itself on chain.
#[derive(Debug)]
pub enum Error {
    BlockHashNotFound,
    BlockNotFound,
    FailedToCallRegisterWorker,
}

impl Error {
    /// The text shown to the operator, as a sequence of characters.
    pub open spec fn message_text(self) -> Seq<char> {
        match self {
            Error::BlockHashNotFound => "block hash not found"@,
            Error::BlockNotFound => "block not found"@,
            Error::FailedToCallRegisterWorker => "failed to call register_worker"@,
        }
    }

    /// The text shown to the operator.
    pub fn message(&self) -> (text: String)
        ensures
            text@ == self.message_text(),
    {
        match self {
            Error::BlockHashNotFound => "block hash not found".to_string(),
            Error::BlockNotFound => "block not found".to_string(),
            Error::FailedToCallRegisterWorker => "failed to call register_worker".to_string(),
        }
    }
}

} // verus!
