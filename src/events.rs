use vstd::prelude::*;
use crate::key::Key;

verus! {

/// Emitted when an owner moves funds into their vault.
#[derive(Clone, Copy, Debug, PartialEq, Eq)]
pub struct Deposit {
    pub sender: Key,
    pub amount: u64,
    /// The vault's balance after the deposit.
    pub balance: u64,
}

/// Emitted when an owner moves funds out of their vault.
#[derive(Clone, Copy, Debug, PartialEq, Eq)]
pub struct Withdraw {
    pub sender: Key,
    pub amount: u64,
    /// The vault's balance after the withdrawal.
    pub balance: u64,
}

/// Emitted when a transfer is staged.
#[derive(Clone, Copy, Debug, PartialEq, Eq)]
pub struct SubmitTransaction {
    pub owner: Key,
    pub to: Key,
    pub value: u64,
}

/// Emitted when a staged transfer is carried out.
#[derive(Clone, Copy, Debug, PartialEq, Eq)]
pub struct ExecuteTransaction {
    pub owner: Key,
}

} // verus!
