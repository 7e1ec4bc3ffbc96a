//! The error value returned by the fallible operations of this crate.

use vstd::prelude::*;

verus! {

/// The failure taxonomy: an I/O failure carries a human-readable message and
/// the underlying operating-system error code when one was reported; a
/// descriptive failure carries a message alone and is reserved for non-I/O
/// error conditions.
#[derive(Debug)]
pub enum ErrorInfo {
    /// A filesystem operation failed.
    IOError(String, Option<i32>),
    /// A failure that did not come from the operating system.
    Descriptive(String),
}

/// The error type of this crate.
#[derive(Debug)]
pub struct FsIOError {
    /// What failed and why.
    pub info: ErrorInfo,
}

} // verus!
