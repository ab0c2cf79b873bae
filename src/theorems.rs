use vstd::prelude::*;
use crate::address::{transaction_address_of, wallet_address_of};
use crate::error::{CustomError, LedgerError};
use crate::key::Key;
use crate::ledger::{lamports_of, system_or_absent, AccountData, UserTransaction};
use crate::simple_wallet::{
    create_outcome, deposit_outcome, execute_outcome, system_account, wallet_account,
    wallet_or_absent, withdraw_outcome, Accounts,
};

verus! {

/// The record that a transfer named `seed` of `owner` refers to, if the
/// vault and the record both exist.
pub open spec fn staged_record(m: Accounts, program: Seq<u8>, owner: Seq<u8>, seed: Seq<u8>) -> Option<UserTransaction> {
    match wallet_address_of(program, owner) {
        Some(w) => if m.contains_key(w) && m[w].data is Wallet {
            match transaction_address_of(program, w, seed) {
                Some(t) => if m.contains_key(t) {
                    match m[t].data {
                        AccountData::Transaction(rec) => Some(rec),
                        _ => None,
                    }
                } else {
                    None
                },
                None => None,
            }
        } else {
            None
        },
        None => None,
    }
}

/// Depositing an amount and then withdrawing the same amount succeeds and
/// leaves the vault balance and the owner's own balance exactly as they were.
pub proof fn deposit_then_withdraw_restores(m: Accounts, program: Seq<u8>, owner: Seq<u8>, amount: u64)
    requires
        deposit_outcome(m, program, owner, amount) is Ok,
    ensures
        ({
            let m1 = deposit_outcome(m, program, owner, amount)->Ok_0.0;
            let w = wallet_address_of(program, owner)->Some_0;
            let back = withdraw_outcome(m1, program, owner, amount);
            &&& back is Ok
            &&& back->Ok_0.1 == lamports_of(m, w)
            &&& lamports_of(back->Ok_0.0, w) == lamports_of(m, w)
            &&& lamports_of(back->Ok_0.0, owner) == lamports_of(m, owner)
            &&& back->Ok_0.0 == m.insert(w, wallet_account(lamports_of(m, w))).insert(owner, system_account(lamports_of(m, owner)))
        }),
{
    let m1 = deposit_outcome(m, program, owner, amount)->Ok_0.0;
    let w = wallet_address_of(program, owner)->Some_0;
    assert(w != owner);
    let m2 = withdraw_outcome(m1, program, owner, amount)->Ok_0.0;
    assert(m2 =~= m.insert(w, wallet_account(lamports_of(m, w))).insert(owner, system_account(lamports_of(m, owner))));
}

/// A withdrawal of more than the vault holds always fails; where the vault
/// and the owner's account are of the right kinds, it fails as an underflow.
pub proof fn withdraw_beyond_balance_fails(m: Accounts, program: Seq<u8>, owner: Seq<u8>, amount: u64)
    ensures
        match wallet_address_of(program, owner) {
            Some(w) => amount > lamports_of(m, w) ==> {
                &&& withdraw_outcome(m, program, owner, amount) is Err
                &&& wallet_or_absent(m, w) && system_or_absent(m, owner) ==>
                    withdraw_outcome(m, program, owner, amount) == Err::<(Accounts, u64), LedgerError>(LedgerError::ArithmeticUnderflow)
            },
            None => withdraw_outcome(m, program, owner, amount) is Err,
        },
{
}

/// Once a transfer has been staged under a seed, staging another under the
/// same owner and seed fails for as long as the first record lives.
pub proof fn create_twice_collides(m: Accounts, program: Seq<u8>, owner: Seq<u8>, seed: Seq<u8>, receiver: Key, amount: u64, receiver2: Key, amount2: u64)
    requires
        create_outcome(m, program, owner, seed, receiver, amount) is Ok,
    ensures
        ({
            let m1 = create_outcome(m, program, owner, seed, receiver, amount)->Ok_0;
            &&& create_outcome(m1, program, owner, seed, receiver2, amount2) is Err
            &&& amount2 > 0 ==> create_outcome(m1, program, owner, seed, receiver2, amount2)
                == Err::<Accounts, LedgerError>(LedgerError::AccountAlreadyInUse)
        }),
{
    let m1 = create_outcome(m, program, owner, seed, receiver, amount)->Ok_0;
    let w = wallet_address_of(program, owner)->Some_0;
    let t = transaction_address_of(program, w, seed)->Some_0;
    assert(m1.contains_key(w) && m1[w] == m[w]);
    assert(m1.contains_key(t));
}

/// A successful execution moves the recorded amount from the vault to the
/// receiver and closes the record; executing the same transfer again finds no
/// record and changes nothing.
pub proof fn execute_at_most_once(m: Accounts, program: Seq<u8>, owner: Seq<u8>, seed: Seq<u8>, receiver: Seq<u8>, receiver2: Seq<u8>)
    requires
        execute_outcome(m, program, owner, seed, receiver).1 is Ok,
    ensures
        ({
            let m1 = execute_outcome(m, program, owner, seed, receiver).0;
            let w = wallet_address_of(program, owner)->Some_0;
            let t = transaction_address_of(program, w, seed)->Some_0;
            let amount = staged_record(m, program, owner, seed)->Some_0.amount_in_lamports;
            &&& staged_record(m, program, owner, seed) is Some
            &&& lamports_of(m1, w) == lamports_of(m, w) - amount
            &&& lamports_of(m1, receiver) == lamports_of(m, receiver) + amount
            &&& !m1.contains_key(t)
            &&& staged_record(m1, program, owner, seed) is None
            &&& execute_outcome(m1, program, owner, seed, receiver2)
                == (m1, Err::<(), LedgerError>(LedgerError::AccountNotInitialized))
        }),
{
    let m1 = execute_outcome(m, program, owner, seed, receiver).0;
    let w = wallet_address_of(program, owner)->Some_0;
    let t = transaction_address_of(program, w, seed)->Some_0;
    assert(w != t && receiver != t && receiver != w);
    assert(m1.contains_key(w) && m1[w].data is Wallet);
}

/// A transfer whose replay guard was set by an execution that failed to move
/// the funds is never carried out by a later execution.
pub proof fn execute_after_failed_move_is_refused(m: Accounts, program: Seq<u8>, owner: Seq<u8>, seed: Seq<u8>, receiver: Seq<u8>)
    requires
        staged_record(m, program, owner, seed) is Some,
        execute_outcome(m, program, owner, seed, receiver).0 != m,
        execute_outcome(m, program, owner, seed, receiver).1 is Err,
    ensures
        ({
            let m1 = execute_outcome(m, program, owner, seed, receiver).0;
            &&& staged_record(m1, program, owner, seed)->Some_0.executed
            &&& execute_outcome(m1, program, owner, seed, receiver)
                == (m1, Err::<(), LedgerError>(LedgerError::Program(CustomError::TransactionAlreadyExecuted)))
        }),
{
    let m1 = execute_outcome(m, program, owner, seed, receiver).0;
    let w = wallet_address_of(program, owner)->Some_0;
    let t = transaction_address_of(program, w, seed)->Some_0;
    assert(w != t);
    assert(m1.contains_key(w) && m1[w] == m[w]);
}

/// Executing with a receiver other than the recorded one fails and changes
/// nothing; where the receiver's account is of the right kind, the error is
/// the receiver mismatch.
pub proof fn execute_wrong_receiver_fails(m: Accounts, program: Seq<u8>, owner: Seq<u8>, seed: Seq<u8>, receiver: Seq<u8>)
    requires
        staged_record(m, program, owner, seed) is Some,
        staged_record(m, program, owner, seed)->Some_0.receiver@ != receiver,
    ensures
        execute_outcome(m, program, owner, seed, receiver).0 == m,
        execute_outcome(m, program, owner, seed, receiver).1 is Err,
        system_or_absent(m, receiver) ==> execute_outcome(m, program, owner, seed, receiver).1
            == Err::<(), LedgerError>(LedgerError::Program(CustomError::InvalidReceiver)),
{
}

} // verus!
