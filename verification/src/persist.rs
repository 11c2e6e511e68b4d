//! How a write to disk can fail, and what the caller is told.
//!
//! A ledger reaches the disk in three steps: the file is opened, the ledger
//! is turned into bytes, the bytes are written. When a step fails the caller
//! learns which one and why. The ledger in memory is not touched by the
//! outcome: nothing here can reach it.

use vstd::prelude::*;
use vstd::string::*;

verus! {

/// The step at which a write to disk failed, with the cause in words.
#[derive(Debug, PartialEq, Eq)]
pub enum PersistError {
    /// The file could not be opened.
    Open(String),
    /// The ledger could not be turned into bytes.
    Serialize(String),
    /// The bytes could not be written.
    Write(String),
}

impl PersistError {
    /// The text that tells the caller of this failure: the step, then the
    /// cause.
    pub open spec fn message(self) -> Seq<char> {
        match self {
            PersistError::Open(cause) => "failed to open file: "@ + cause@,
            PersistError::Serialize(cause) => "failed to serialize: "@ + cause@,
            PersistError::Write(cause) => "failed to write to file: "@ + cause@,
        }
    }

    /// The text that tells the caller of this failure.
    pub fn describe(&self) -> (r: String)
        ensures
            r@ == self.message(),
    {
        match self {
            PersistError::Open(cause) => String::from_str("failed to open file: ").concat(
                cause.as_str(),
            ),
            PersistError::Serialize(cause) => String::from_str("failed to serialize: ").concat(
                cause.as_str(),
            ),
            PersistError::Write(cause) => String::from_str("failed to write to file: ").concat(
                cause.as_str(),
            ),
        }
    }
}

/// What the caller of a write is told once the disk has been tried.
pub open spec fn settled(written: Result<(), PersistError>) -> Result<(), Seq<char>> {
    match written {
        Ok(_) => Ok(()),
        Err(failure) => Err(failure.message()),
    }
}

/// Answers the caller of a write from what became of the ledger on its way
/// to disk: success, or the failure in words.
pub fn settle(written: Result<(), PersistError>) -> (r: Result<(), String>)
    ensures
        match r {
            Ok(_) => settled(written) == Ok::<(), Seq<char>>(()),
            Err(message) => settled(written) == Err::<(), Seq<char>>(message@),
        },
{
    match written {
        Ok(_) => Ok(()),
        Err(failure) => Err(failure.describe()),
    }
}

} // verus!
