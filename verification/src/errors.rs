//! The error taxonomy: every rejected precondition surfaces a distinct,
//! caller-attributable reason, and every error leaves state unchanged.

use vstd::prelude::*;

verus! {

/// Why an escrow operation was rejected. No operation mutates anything when
/// it returns one of these.
#[derive(Clone, Copy, Debug, PartialEq, Eq, Structural)]
pub enum ErrorCode {
    /// `amount + fee` does not fit in the value type.
    NumericalOverflow,
    /// The record is not in the source state the operation requires.
    InvalidState,
    /// The caller is not the required party, or the presented custody
    /// authority does not match the one registered for the vault.
    Unauthorized,
    /// A refund was requested at or before the grace-period deadline.
    TimeoutNotReached,
    /// The debited custody location holds less than the requested amount.
    InsufficientFunds,
}

impl ErrorCode {
    /// A human-readable description of the error.
    pub fn message(&self) -> (s: &'static str)
        ensures
            self is NumericalOverflow ==> s@ == "Numerical Overflow"@,
            self is InvalidState ==> s@ == "Invalid Escrow State"@,
            self is Unauthorized ==> s@ == "Unauthorized"@,
            self is TimeoutNotReached ==> s@ == "Timeout Not Reached"@,
            self is InsufficientFunds ==> s@ == "Insufficient Funds"@,
    {
        match self {
            ErrorCode::NumericalOverflow => "Numerical Overflow",
            ErrorCode::InvalidState => "Invalid Escrow State",
            ErrorCode::Unauthorized => "Unauthorized",
            ErrorCode::TimeoutNotReached => "Timeout Not Reached",
            ErrorCode::InsufficientFunds => "Insufficient Funds",
        }
    }
}

} // verus!
