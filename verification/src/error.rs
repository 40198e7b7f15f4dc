//! Failures of the two operations.

use vstd::prelude::*;

verus! {

/// The failures that this library detects by itself.
#[derive(Clone, Copy, Debug, PartialEq, Eq)]
pub enum CustomError {
    /// The signer is not the recorded owner of the fee account.
    Unauthorized,
}

impl CustomError {
    /// The text shown to the caller.
    pub fn message(&self) -> (text: String)
        ensures
            text@ == "Unauthorized access."@,
    {
        match self {
            CustomError::Unauthorized => "Unauthorized access.".to_string(),
        }
    }
}

/// Why a withdrawal did not go through.
///
/// `E` is whatever the host's token service reports when it fails. Such a
/// report is handed on exactly as it came.
#[derive(Debug, PartialEq, Eq)]
pub enum WithdrawError<E> {
    /// Refused by the ownership check, before anything was asked of the
    /// service.
    Rejected(CustomError),
    /// The service failed.
    Service(E),
}

} // verus!
