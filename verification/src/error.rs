//! Why an operation was refused.

use vstd::prelude::*;

verus! {

/// The ways in which creating a challenge or submitting a guess fails.
///
/// A failed operation changes nothing. A guess that merely does not match is
/// no error: it is reported as a rejected outcome.
#[derive(Clone, Copy, Debug, PartialEq, Eq)]
pub enum CtfError {
    /// A guess was submitted to a challenge that has been solved.
    AlreadySolved,
    /// The address derived from the creator and the id already holds a record.
    DuplicateChallenge,
    /// The creator cannot pay the deposit together with the record's reserve.
    InsufficientFunds,
    /// The creator did not sign.
    Unauthorized,
    /// The account handed in is not the one that the derivation names, or
    /// holds no record.
    InvalidAccountState,
}

} // verus!
