use vstd::prelude::*;
use crate::address::{
    transaction_address, transaction_address_of, wallet_address, wallet_address_of,
};
use crate::error::{CustomError, LedgerError};
use crate::events::{Deposit, ExecuteTransaction, SubmitTransaction, Withdraw};
use crate::key::Key;
use crate::ledger::{
    lamports_of, system_or_absent, Account, AccountData, Ledger, UserTransaction, UserWallet,
};
use vstd::string::StringSliceAdditionalSpecFns;

verus! {

/// The identities that a deposit or a withdrawal names. The owner has been
/// authenticated by the host; the vault is derived from it.
#[derive(Clone, Copy, Debug, PartialEq, Eq)]
pub struct DepositOrWithdrawCtx {
    pub owner: Key,
}

/// The identities that staging a transfer names.
#[derive(Clone, Copy, Debug, PartialEq, Eq)]
pub struct CreateTransactionCtx {
    pub owner: Key,
    pub receiver: Key,
}

/// The identities that carrying out a staged transfer names.
#[derive(Clone, Copy, Debug, PartialEq, Eq)]
pub struct ExecuteTransactionCtx {
    pub owner: Key,
    pub receiver: Key,
}

/// The accounts of a ledger, by address.
pub type Accounts = Map<Seq<u8>, Account>;

/// The vault account holding `lamports`.
pub open spec fn wallet_account(lamports: u64) -> Account {
    Account { lamports, data: AccountData::Wallet(UserWallet {}) }
}

/// An identity's own account holding `lamports`.
pub open spec fn system_account(lamports: u64) -> Account {
    Account { lamports, data: AccountData::System }
}

/// No account at `k`, or a vault.
pub open spec fn wallet_or_absent(m: Accounts, k: Seq<u8>) -> bool {
    !m.contains_key(k) || m[k].data is Wallet
}

/// The accounts after a deposit from `owner` into the vault at `w`, with the
/// vault's new balance, or the error. The vault is created, empty, if it does
/// not exist yet.
pub open spec fn deposit_into(m: Accounts, owner: Seq<u8>, w: Seq<u8>, amount: u64) -> Result<(Accounts, u64), LedgerError> {
    if amount == 0 {
        Err(LedgerError::Program(CustomError::InvalidAmount))
    } else if !wallet_or_absent(m, w) || !system_or_absent(m, owner) {
        Err(LedgerError::WrongAccountKind)
    } else if lamports_of(m, owner) < amount {
        Err(LedgerError::InsufficientFunds)
    } else if lamports_of(m, w) + amount > u64::MAX {
        Err(LedgerError::ArithmeticOverflow)
    } else {
        let balance = (lamports_of(m, w) + amount) as u64;
        Ok((
            m.insert(owner, system_account((lamports_of(m, owner) - amount) as u64)).insert(w, wallet_account(balance)),
            balance,
        ))
    }
}

/// The outcome of a deposit by `owner`, whose vault is derived under `program`.
pub open spec fn deposit_outcome(m: Accounts, program: Seq<u8>, owner: Seq<u8>, amount: u64) -> Result<(Accounts, u64), LedgerError> {
    if amount == 0 {
        Err(LedgerError::Program(CustomError::InvalidAmount))
    } else {
        match wallet_address_of(program, owner) {
            None => Err(LedgerError::InvalidSeeds),
            Some(w) => deposit_into(m, owner, w, amount),
        }
    }
}

/// The accounts after a withdrawal by `owner` from the vault at `w`, with the
/// vault's new balance, or the error.
pub open spec fn withdraw_from(m: Accounts, owner: Seq<u8>, w: Seq<u8>, amount: u64) -> Result<(Accounts, u64), LedgerError> {
    if amount == 0 {
        Err(LedgerError::Program(CustomError::InvalidAmount))
    } else if !wallet_or_absent(m, w) || !system_or_absent(m, owner) {
        Err(LedgerError::WrongAccountKind)
    } else if lamports_of(m, w) < amount {
        Err(LedgerError::ArithmeticUnderflow)
    } else if lamports_of(m, owner) + amount > u64::MAX {
        Err(LedgerError::ArithmeticOverflow)
    } else {
        let balance = (lamports_of(m, w) - amount) as u64;
        Ok((
            m.insert(w, wallet_account(balance)).insert(owner, system_account((lamports_of(m, owner) + amount) as u64)),
            balance,
        ))
    }
}

/// The outcome of a withdrawal by `owner`, whose vault is derived under `program`.
pub open spec fn withdraw_outcome(m: Accounts, program: Seq<u8>, owner: Seq<u8>, amount: u64) -> Result<(Accounts, u64), LedgerError> {
    if amount == 0 {
        Err(LedgerError::Program(CustomError::InvalidAmount))
    } else {
        match wallet_address_of(program, owner) {
            None => Err(LedgerError::InvalidSeeds),
            Some(w) => withdraw_from(m, owner, w, amount),
        }
    }
}

/// The record of a new, not yet executed transfer.
pub open spec fn pending_record(receiver: Key, amount: u64) -> Account {
    Account {
        lamports: 0,
        data: AccountData::Transaction(UserTransaction { receiver, amount_in_lamports: amount, executed: false }),
    }
}

/// The accounts after staging, at `t`, a transfer out of the vault at `w`, or
/// the error. A record that already lives at `t` makes the allocation fail.
pub open spec fn create_at(m: Accounts, owner: Seq<u8>, w: Seq<u8>, t: Seq<u8>, receiver: Key, amount: u64) -> Result<Accounts, LedgerError> {
    if amount == 0 {
        Err(LedgerError::Program(CustomError::InvalidAmount))
    } else if !m.contains_key(w) {
        Err(LedgerError::AccountNotInitialized)
    } else if !(m[w].data is Wallet) {
        Err(LedgerError::WrongAccountKind)
    } else if m.contains_key(t) {
        Err(LedgerError::AccountAlreadyInUse)
    } else if !system_or_absent(m, owner) || !system_or_absent(m, receiver@) {
        Err(LedgerError::WrongAccountKind)
    } else {
        Ok(m.insert(t, pending_record(receiver, amount)))
    }
}

/// The outcome of staging a transfer named `seed`; the vault and the record
/// addresses are derived under `program`.
pub open spec fn create_outcome(m: Accounts, program: Seq<u8>, owner: Seq<u8>, seed: Seq<u8>, receiver: Key, amount: u64) -> Result<Accounts, LedgerError> {
    if amount == 0 {
        Err(LedgerError::Program(CustomError::InvalidAmount))
    } else {
        match wallet_address_of(program, owner) {
            None => Err(LedgerError::InvalidSeeds),
            Some(w) => if !m.contains_key(w) {
                Err(LedgerError::AccountNotInitialized)
            } else if !(m[w].data is Wallet) {
                Err(LedgerError::WrongAccountKind)
            } else {
                match transaction_address_of(program, w, seed) {
                    None => Err(LedgerError::InvalidSeeds),
                    Some(t) => create_at(m, owner, w, t, receiver, amount),
                }
            },
        }
    }
}

/// The record at `t` with its replay guard set.
pub open spec fn flagged(m: Accounts, t: Seq<u8>) -> Accounts {
    let rec = m[t].data->Transaction_0;
    m.insert(
        t,
        Account {
            lamports: m[t].lamports,
            data: AccountData::Transaction(UserTransaction { receiver: rec.receiver, amount_in_lamports: rec.amount_in_lamports, executed: true }),
        },
    )
}

/// The accounts after carrying out the transfer recorded at `t` out of the
/// vault at `w`, and the result. The replay guard is set before the funds
/// move, so a failed debit or credit leaves the record in place, marked
/// executed. On success the amount moves from the vault to the receiver and
/// the record is closed.
pub open spec fn execute_at(m: Accounts, w: Seq<u8>, t: Seq<u8>, receiver: Seq<u8>) -> (Accounts, Result<(), LedgerError>) {
    if !m.contains_key(w) || !m.contains_key(t) {
        (m, Err(LedgerError::AccountNotInitialized))
    } else if !(m[w].data is Wallet) {
        (m, Err(LedgerError::WrongAccountKind))
    } else {
        match m[t].data {
            AccountData::Transaction(rec) => if !system_or_absent(m, receiver) {
                (m, Err(LedgerError::WrongAccountKind))
            } else if rec.receiver@ != receiver {
                (m, Err(LedgerError::Program(CustomError::InvalidReceiver)))
            } else if rec.executed {
                (m, Err(LedgerError::Program(CustomError::TransactionAlreadyExecuted)))
            } else if lamports_of(m, w) < rec.amount_in_lamports {
                (flagged(m, t), Err(LedgerError::ArithmeticUnderflow))
            } else if lamports_of(m, receiver) + rec.amount_in_lamports > u64::MAX {
                (flagged(m, t), Err(LedgerError::ArithmeticOverflow))
            } else {
                (
                    m.insert(w, wallet_account((lamports_of(m, w) - rec.amount_in_lamports) as u64))
                        .insert(receiver, system_account((lamports_of(m, receiver) + rec.amount_in_lamports) as u64))
                        .remove(t),
                    Ok(()),
                )
            },
            _ => (m, Err(LedgerError::WrongAccountKind)),
        }
    }
}

/// The outcome of carrying out the transfer named `seed`; the vault and the
/// record addresses are derived under `program`.
pub open spec fn execute_outcome(m: Accounts, program: Seq<u8>, owner: Seq<u8>, seed: Seq<u8>, receiver: Seq<u8>) -> (Accounts, Result<(), LedgerError>) {
    match wallet_address_of(program, owner) {
        None => (m, Err(LedgerError::InvalidSeeds)),
        Some(w) => if !m.contains_key(w) {
            (m, Err(LedgerError::AccountNotInitialized))
        } else if !(m[w].data is Wallet) {
            (m, Err(LedgerError::WrongAccountKind))
        } else {
            match transaction_address_of(program, w, seed) {
                None => (m, Err(LedgerError::InvalidSeeds)),
                Some(t) => execute_at(m, w, t, receiver),
            }
        },
    }
}

fn is_system_or_absent(ledger: &Ledger, k: &Key) -> (r: bool)
    requires
        ledger.wf(),
    ensures
        r == system_or_absent(ledger@, k@),
{
    match ledger.get(k) {
        Some(a) => match a.data {
            AccountData::System => true,
            _ => false,
        },
        None => true,
    }
}

/// The vault at `vault`, which must hold a vault if it exists, and its balance.
fn vault_lamports(ledger: &Ledger, vault: &Key) -> (r: Result<u64, LedgerError>)
    requires
        ledger.wf(),
    ensures
        wallet_or_absent(ledger@, vault@) ==> r == Ok::<u64, LedgerError>(lamports_of(ledger@, vault@)),
        !wallet_or_absent(ledger@, vault@) ==> r == Err::<u64, LedgerError>(LedgerError::WrongAccountKind),
{
    match ledger.get(vault) {
        Some(a) => match a.data {
            AccountData::Wallet(_) => Ok(a.lamports),
            _ => Err(LedgerError::WrongAccountKind),
        },
        None => Ok(0),
    }
}

/// Moves `amount` from the account of `owner` into the vault at `vault`,
/// creating the vault first if it does not exist.
pub fn deposit_to_vault(ledger: &mut Ledger, owner: &Key, vault: &Key, amount: u64) -> (r: Result<Deposit, LedgerError>)
    requires
        old(ledger).wf(),
    ensures
        final(ledger).wf(),
        final(ledger).program_key() == old(ledger).program_key(),
        match deposit_into(old(ledger)@, owner@, vault@, amount) {
            Ok((m, balance)) => {
                &&& final(ledger)@ == m
                &&& r is Ok
                &&& r->Ok_0.sender == *owner
                &&& r->Ok_0.amount == amount
                &&& r->Ok_0.balance == balance
            },
            Err(e) => final(ledger)@ == old(ledger)@ && r == Err::<Deposit, LedgerError>(e),
        },
{
    if amount == 0 {
        return Err(LedgerError::Program(CustomError::InvalidAmount));
    }
    let vault_before = match vault_lamports(ledger, vault) {
        Ok(v) => v,
        Err(e) => return Err(e),
    };
    if !is_system_or_absent(ledger, owner) {
        return Err(LedgerError::WrongAccountKind);
    }
    let owner_before = ledger.lamports(owner);
    if owner_before < amount {
        return Err(LedgerError::InsufficientFunds);
    }
    let balance = match vault_before.checked_add(amount) {
        Some(b) => b,
        None => return Err(LedgerError::ArithmeticOverflow),
    };
    ledger.set(owner, Account { lamports: owner_before - amount, data: AccountData::System });
    ledger.set(vault, Account { lamports: balance, data: AccountData::Wallet(UserWallet {}) });
    Ok(Deposit { sender: *owner, amount, balance })
}

/// Moves `amount_to_deposit` from the owner's own account into their vault,
/// creating the vault first if it does not exist.
pub fn deposit(ledger: &mut Ledger, ctx: &DepositOrWithdrawCtx, amount_to_deposit: u64) -> (r: Result<Deposit, LedgerError>)
    requires
        old(ledger).wf(),
    ensures
        final(ledger).wf(),
        final(ledger).program_key() == old(ledger).program_key(),
        match deposit_outcome(old(ledger)@, old(ledger).program_key()@, ctx.owner@, amount_to_deposit) {
            Ok((m, balance)) => {
                &&& final(ledger)@ == m
                &&& r is Ok
                &&& r->Ok_0.sender == ctx.owner
                &&& r->Ok_0.amount == amount_to_deposit
                &&& r->Ok_0.balance == balance
            },
            Err(e) => final(ledger)@ == old(ledger)@ && r == Err::<Deposit, LedgerError>(e),
        },
        amount_to_deposit == 0 ==> r == Err::<Deposit, LedgerError>(LedgerError::Program(CustomError::InvalidAmount)),
        r is Err ==> final(ledger)@ == old(ledger)@,
{
    if amount_to_deposit == 0 {
        return Err(LedgerError::Program(CustomError::InvalidAmount));
    }
    let program = ledger.program_id();
    match wallet_address(&program, &ctx.owner) {
        Some(w) => deposit_to_vault(ledger, &ctx.owner, &w, amount_to_deposit),
        None => Err(LedgerError::InvalidSeeds),
    }
}

/// Moves `amount` from the vault at `vault` back to the account of `owner`.
pub fn withdraw_from_vault(ledger: &mut Ledger, owner: &Key, vault: &Key, amount: u64) -> (r: Result<Withdraw, LedgerError>)
    requires
        old(ledger).wf(),
    ensures
        final(ledger).wf(),
        final(ledger).program_key() == old(ledger).program_key(),
        match withdraw_from(old(ledger)@, owner@, vault@, amount) {
            Ok((m, balance)) => {
                &&& final(ledger)@ == m
                &&& r is Ok
                &&& r->Ok_0.sender == *owner
                &&& r->Ok_0.amount == amount
                &&& r->Ok_0.balance == balance
            },
            Err(e) => final(ledger)@ == old(ledger)@ && r == Err::<Withdraw, LedgerError>(e),
        },
{
    if amount == 0 {
        return Err(LedgerError::Program(CustomError::InvalidAmount));
    }
    let vault_before = match vault_lamports(ledger, vault) {
        Ok(v) => v,
        Err(e) => return Err(e),
    };
    if !is_system_or_absent(ledger, owner) {
        return Err(LedgerError::WrongAccountKind);
    }
    if vault_before < amount {
        return Err(LedgerError::ArithmeticUnderflow);
    }
    let owner_after = match ledger.lamports(owner).checked_add(amount) {
        Some(b) => b,
        None => return Err(LedgerError::ArithmeticOverflow),
    };
    let balance = vault_before - amount;
    ledger.set(vault, Account { lamports: balance, data: AccountData::Wallet(UserWallet {}) });
    ledger.set(owner, Account { lamports: owner_after, data: AccountData::System });
    Ok(Withdraw { sender: *owner, amount, balance })
}

/// Moves `amount_to_withdraw` from the owner's vault back to their own account.
pub fn withdraw(ledger: &mut Ledger, ctx: &DepositOrWithdrawCtx, amount_to_withdraw: u64) -> (r: Result<Withdraw, LedgerError>)
    requires
        old(ledger).wf(),
    ensures
        final(ledger).wf(),
        final(ledger).program_key() == old(ledger).program_key(),
        match withdraw_outcome(old(ledger)@, old(ledger).program_key()@, ctx.owner@, amount_to_withdraw) {
            Ok((m, balance)) => {
                &&& final(ledger)@ == m
                &&& r is Ok
                &&& r->Ok_0.sender == ctx.owner
                &&& r->Ok_0.amount == amount_to_withdraw
                &&& r->Ok_0.balance == balance
            },
            Err(e) => final(ledger)@ == old(ledger)@ && r == Err::<Withdraw, LedgerError>(e),
        },
        amount_to_withdraw == 0 ==> r == Err::<Withdraw, LedgerError>(LedgerError::Program(CustomError::InvalidAmount)),
        r is Err ==> final(ledger)@ == old(ledger)@,
{
    if amount_to_withdraw == 0 {
        return Err(LedgerError::Program(CustomError::InvalidAmount));
    }
    let program = ledger.program_id();
    match wallet_address(&program, &ctx.owner) {
        Some(w) => withdraw_from_vault(ledger, &ctx.owner, &w, amount_to_withdraw),
        None => Err(LedgerError::InvalidSeeds),
    }
}

/// Records at `record` a transfer of `amount` out of the vault at `vault` to
/// `receiver`. No funds move yet.
pub fn create_transaction_at(ledger: &mut Ledger, owner: &Key, vault: &Key, record: &Key, receiver: &Key, amount: u64) -> (r: Result<SubmitTransaction, LedgerError>)
    requires
        old(ledger).wf(),
    ensures
        final(ledger).wf(),
        final(ledger).program_key() == old(ledger).program_key(),
        match create_at(old(ledger)@, owner@, vault@, record@, *receiver, amount) {
            Ok(m) => {
                &&& final(ledger)@ == m
                &&& r is Ok
                &&& r->Ok_0.owner == *owner
                &&& r->Ok_0.to == *receiver
                &&& r->Ok_0.value == amount
            },
            Err(e) => final(ledger)@ == old(ledger)@ && r == Err::<SubmitTransaction, LedgerError>(e),
        },
{
    if amount == 0 {
        return Err(LedgerError::Program(CustomError::InvalidAmount));
    }
    match ledger.get(vault) {
        Some(a) => match a.data {
            AccountData::Wallet(_) => {},
            _ => return Err(LedgerError::WrongAccountKind),
        },
        None => return Err(LedgerError::AccountNotInitialized),
    }
    if ledger.get(record).is_some() {
        return Err(LedgerError::AccountAlreadyInUse);
    }
    if !is_system_or_absent(ledger, owner) || !is_system_or_absent(ledger, receiver) {
        return Err(LedgerError::WrongAccountKind);
    }
    let pending = UserTransaction { receiver: *receiver, amount_in_lamports: amount, executed: false };
    ledger.set(record, Account { lamports: 0, data: AccountData::Transaction(pending) });
    Ok(SubmitTransaction { owner: *owner, to: *receiver, value: amount })
}

/// Stages a transfer of `transaction_lamports_amount` from the owner's vault to
/// the receiver, recorded under `transaction_seed`. No funds move yet.
pub fn create_transaction(ledger: &mut Ledger, ctx: &CreateTransactionCtx, transaction_seed: &str, transaction_lamports_amount: u64) -> (r: Result<SubmitTransaction, LedgerError>)
    requires
        old(ledger).wf(),
    ensures
        final(ledger).wf(),
        final(ledger).program_key() == old(ledger).program_key(),
        match create_outcome(old(ledger)@, old(ledger).program_key()@, ctx.owner@, transaction_seed.spec_bytes(), ctx.receiver, transaction_lamports_amount) {
            Ok(m) => {
                &&& final(ledger)@ == m
                &&& r is Ok
                &&& r->Ok_0.owner == ctx.owner
                &&& r->Ok_0.to == ctx.receiver
                &&& r->Ok_0.value == transaction_lamports_amount
            },
            Err(e) => final(ledger)@ == old(ledger)@ && r == Err::<SubmitTransaction, LedgerError>(e),
        },
        transaction_lamports_amount == 0 ==> r == Err::<SubmitTransaction, LedgerError>(LedgerError::Program(CustomError::InvalidAmount)),
        r is Err ==> final(ledger)@ == old(ledger)@,
{
    if transaction_lamports_amount == 0 {
        return Err(LedgerError::Program(CustomError::InvalidAmount));
    }
    let program = ledger.program_id();
    let w = match wallet_address(&program, &ctx.owner) {
        Some(w) => w,
        None => return Err(LedgerError::InvalidSeeds),
    };
    match ledger.get(&w) {
        Some(a) => match a.data {
            AccountData::Wallet(_) => {},
            _ => return Err(LedgerError::WrongAccountKind),
        },
        None => return Err(LedgerError::AccountNotInitialized),
    }
    match transaction_address(&program, &w, transaction_seed) {
        Some(t) => create_transaction_at(ledger, &ctx.owner, &w, &t, &ctx.receiver, transaction_lamports_amount),
        None => Err(LedgerError::InvalidSeeds),
    }
}

/// Carries out the transfer recorded at `record` out of the vault at `vault`:
/// sets its replay guard, moves its amount to the receiver, and closes the
/// record.
pub fn execute_transaction_at(ledger: &mut Ledger, owner: &Key, vault: &Key, record: &Key, receiver: &Key) -> (r: Result<ExecuteTransaction, LedgerError>)
    requires
        old(ledger).wf(),
    ensures
        final(ledger).wf(),
        final(ledger).program_key() == old(ledger).program_key(),
        ({
            let (m, res) = execute_at(old(ledger)@, vault@, record@, receiver@);
            &&& final(ledger)@ == m
            &&& match res {
                Ok(_) => r is Ok && r->Ok_0.owner == *owner,
                Err(e) => r == Err::<ExecuteTransaction, LedgerError>(e),
            }
        }),
{
    let vault_account = match ledger.get(vault) {
        Some(a) => a,
        None => return Err(LedgerError::AccountNotInitialized),
    };
    let record_account = match ledger.get(record) {
        Some(a) => a,
        None => return Err(LedgerError::AccountNotInitialized),
    };
    match vault_account.data {
        AccountData::Wallet(_) => {},
        _ => return Err(LedgerError::WrongAccountKind),
    }
    let staged = match record_account.data {
        AccountData::Transaction(rec) => rec,
        _ => return Err(LedgerError::WrongAccountKind),
    };
    if !is_system_or_absent(ledger, receiver) {
        return Err(LedgerError::WrongAccountKind);
    }
    if !staged.receiver.same_as(receiver) {
        return Err(LedgerError::Program(CustomError::InvalidReceiver));
    }
    if staged.executed {
        return Err(LedgerError::Program(CustomError::TransactionAlreadyExecuted));
    }
    let guarded = UserTransaction { receiver: staged.receiver, amount_in_lamports: staged.amount_in_lamports, executed: true };
    ledger.set(record, Account { lamports: record_account.lamports, data: AccountData::Transaction(guarded) });
    let amount = staged.amount_in_lamports;
    if vault_account.lamports < amount {
        return Err(LedgerError::ArithmeticUnderflow);
    }
    let receiver_after = match ledger.lamports(receiver).checked_add(amount) {
        Some(b) => b,
        None => return Err(LedgerError::ArithmeticOverflow),
    };
    ledger.set(vault, Account { lamports: vault_account.lamports - amount, data: AccountData::Wallet(UserWallet {}) });
    ledger.set(receiver, Account { lamports: receiver_after, data: AccountData::System });
    ledger.remove(record);
    proof {
        let m0 = old(ledger)@;
        assert(ledger@ =~= m0.insert(vault@, wallet_account((lamports_of(m0, vault@) - amount) as u64))
            .insert(receiver@, system_account((lamports_of(m0, receiver@) + amount) as u64))
            .remove(record@));
    }
    Ok(ExecuteTransaction { owner: *owner })
}

/// Carries out the transfer staged under `transaction_seed`: sets its replay
/// guard, moves its amount from the owner's vault to the receiver, and closes
/// the record. Once closed, the record is gone: a second execution of the same
/// transfer fails with `AccountNotInitialized`, while
/// `TransactionAlreadyExecuted` answers a record whose guard was set by an
/// execution that could not move the funds.
pub fn execute_transaction(ledger: &mut Ledger, ctx: &ExecuteTransactionCtx, transaction_seed: &str) -> (r: Result<ExecuteTransaction, LedgerError>)
    requires
        old(ledger).wf(),
    ensures
        final(ledger).wf(),
        final(ledger).program_key() == old(ledger).program_key(),
        ({
            let (m, res) = execute_outcome(old(ledger)@, old(ledger).program_key()@, ctx.owner@, transaction_seed.spec_bytes(), ctx.receiver@);
            &&& final(ledger)@ == m
            &&& match res {
                Ok(_) => r is Ok && r->Ok_0.owner == ctx.owner,
                Err(e) => r == Err::<ExecuteTransaction, LedgerError>(e),
            }
        }),
{
    let program = ledger.program_id();
    let w = match wallet_address(&program, &ctx.owner) {
        Some(w) => w,
        None => return Err(LedgerError::InvalidSeeds),
    };
    match ledger.get(&w) {
        Some(a) => match a.data {
            AccountData::Wallet(_) => {},
            _ => return Err(LedgerError::WrongAccountKind),
        },
        None => return Err(LedgerError::AccountNotInitialized),
    }
    match transaction_address(&program, &w, transaction_seed) {
        Some(t) => execute_transaction_at(ledger, &ctx.owner, &w, &t, &ctx.receiver),
        None => Err(LedgerError::InvalidSeeds),
    }
}

} // verus!
