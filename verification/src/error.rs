//! The ways an instruction can fail.

use vstd::prelude::*;

verus! {

/// Why an instruction was refused. A refused instruction changes nothing.
#[derive(Clone, Copy, Debug, PartialEq, Eq, Structural)]
pub enum CustomError {
    /// The caller of `initialize_global` is not the designated authority.
    UnauthorizedCaller,
    /// The address at which a record was to be created already holds one.
    AlreadyInitialized,
    /// The record to change is absent, is of another kind, or does not sit
    /// at the address derived for the caller.
    NotFound,
    /// A counter to increment is already at its largest value.
    ArithmeticOverflow,
}

impl CustomError {
    /// The text shown to the invoker.
    pub open spec fn spec_message(self) -> Seq<char> {
        match self {
            CustomError::UnauthorizedCaller => "Caller is not authorized."@,
            CustomError::AlreadyInitialized => "Account is already initialized."@,
            CustomError::NotFound => "Account was not found."@,
            CustomError::ArithmeticOverflow => "Counter is at its maximum."@,
        }
    }

    /// The text shown to the invoker.
    pub fn message(&self) -> (text: &'static str)
        ensures
            text@ == self.spec_message(),
    {
        match self {
            CustomError::UnauthorizedCaller => "Caller is not authorized.",
            CustomError::AlreadyInitialized => "Account is already initialized.",
            CustomError::NotFound => "Account was not found.",
            CustomError::ArithmeticOverflow => "Counter is at its maximum.",
        }
    }
}

} // verus!
