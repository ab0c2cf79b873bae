use vstd::prelude::*;

verus! {

/// The errors that the wallet program itself raises.
#[derive(Clone, Copy, Debug, PartialEq, Eq, Structural)]
pub enum CustomError {
    /// The receiver given at execution differs from the one recorded at creation.
    InvalidReceiver,
    /// An amount of zero was given to an operation that moves value.
    InvalidAmount,
    /// The transfer record has already been marked executed.
    TransactionAlreadyExecuted,
}

/// Every way an operation on the ledger can fail.
#[derive(Clone, Copy, Debug, PartialEq, Eq, Structural)]
pub enum LedgerError {
    /// A precondition of the wallet program failed.
    Program(CustomError),
    /// No valid derived address exists for the given seeds.
    InvalidSeeds,
    /// A required account does not exist.
    AccountNotInitialized,
    /// An account to be created already exists.
    AccountAlreadyInUse,
    /// An account exists but holds a different kind of data.
    WrongAccountKind,
    /// The payer's external balance is smaller than the amount to move.
    InsufficientFunds,
    /// A credit would exceed the largest representable balance.
    ArithmeticOverflow,
    /// A debit would take a balance below zero.
    ArithmeticUnderflow,
}

impl CustomError {
    /// The message that accompanies the error.
    pub fn message(&self) -> (r: &'static str)
        ensures
            r@ == custom_error_message(*self),
    {
        match self {
            CustomError::InvalidReceiver => "Invalid receiver",
            CustomError::InvalidAmount => "Invalid amount, must be greater than 0",
            CustomError::TransactionAlreadyExecuted => "The provided transaction was already executed",
        }
    }
}

pub open spec fn custom_error_message(e: CustomError) -> Seq<char> {
    match e {
        CustomError::InvalidReceiver => "Invalid receiver"@,
        CustomError::InvalidAmount => "Invalid amount, must be greater than 0"@,
        CustomError::TransactionAlreadyExecuted => "The provided transaction was already executed"@,
    }
}

} // verus!
