//! A custodial ledger: each owner has one derived vault holding a balance,
//! and may stage transfers out of it that are executed at most once.

pub mod address;
pub mod error;
pub mod events;
pub mod key;
pub mod ledger;
pub mod simple_wallet;
pub mod theorems;

pub use address::{id, transaction_address, wallet_address};
pub use error::{CustomError, LedgerError};
pub use events::{Deposit, ExecuteTransaction, SubmitTransaction, Withdraw};
pub use key::Key;
pub use ledger::{Account, AccountData, Ledger, UserTransaction, UserWallet};
pub use simple_wallet::{
    create_transaction, create_transaction_at, deposit, deposit_to_vault, execute_transaction,
    execute_transaction_at, withdraw, withdraw_from_vault, CreateTransactionCtx,
    DepositOrWithdrawCtx, ExecuteTransactionCtx,
};
