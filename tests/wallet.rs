use simple_wallet::{
    create_transaction, create_transaction_at, deposit, deposit_to_vault, execute_transaction_at,
    withdraw_from_vault, execute_transaction, id, transaction_address, wallet_address,
    withdraw, AccountData, CreateTransactionCtx, CustomError, DepositOrWithdrawCtx,
    ExecuteTransactionCtx, Key, Ledger, LedgerError, UserTransaction,
};

fn key(n: u8) -> Key {
    Key::new([n; 32])
}

fn funded(owner: Key, lamports: u64) -> Ledger {
    let mut ledger = Ledger::new(id());
    assert_eq!(ledger.fund(&owner, lamports), Ok(lamports));
    ledger
}

fn vault_of(owner: &Key) -> Key {
    wallet_address(&id(), owner).unwrap()
}

fn record_at(owner: &Key, seed: &str) -> Key {
    transaction_address(&id(), &vault_of(owner), seed).unwrap()
}

fn dw(owner: Key) -> DepositOrWithdrawCtx {
    DepositOrWithdrawCtx { owner }
}

fn ct(owner: Key, receiver: Key) -> CreateTransactionCtx {
    CreateTransactionCtx { owner, receiver }
}

fn et(owner: Key, receiver: Key) -> ExecuteTransactionCtx {
    ExecuteTransactionCtx { owner, receiver }
}

#[test]
fn end_to_end_deposit_stage_execute() {
    let owner = key(1);
    let r = key(2);
    let mut ledger = funded(owner, 5000);
    ledger.fund(&r, 50).unwrap();
    let vault = vault_of(&owner);

    let ev = deposit(&mut ledger, &dw(owner), 1000).unwrap();
    assert_eq!(ev.sender, owner);
    assert_eq!(ev.amount, 1000);
    assert_eq!(ev.balance, 1000);
    assert_eq!(ledger.lamports(&vault), 1000);
    assert_eq!(ledger.lamports(&owner), 4000);

    let ev = create_transaction(&mut ledger, &ct(owner, r), "tx1", 300).unwrap();
    assert_eq!((ev.owner, ev.to, ev.value), (owner, r, 300));
    let t = record_at(&owner, "tx1");
    let rec = ledger.get(&t).unwrap();
    assert_eq!(
        rec.data,
        AccountData::Transaction(UserTransaction { receiver: r, amount_in_lamports: 300, executed: false })
    );
    assert_eq!(ledger.lamports(&vault), 1000);

    let ev = execute_transaction(&mut ledger, &et(owner, r), "tx1").unwrap();
    assert_eq!(ev.owner, owner);
    assert_eq!(ledger.lamports(&vault), 700);
    assert_eq!(ledger.lamports(&r), 350);
    assert!(ledger.get(&t).is_none());
}

#[test]
fn deposit_then_withdraw_round_trip() {
    let owner = key(3);
    let mut ledger = funded(owner, 900);
    deposit(&mut ledger, &dw(owner), 250).unwrap();
    let vault = vault_of(&owner);
    let before_vault = ledger.lamports(&vault);
    let before_owner = ledger.lamports(&owner);
    deposit(&mut ledger, &dw(owner), 123).unwrap();
    assert_eq!(ledger.lamports(&vault), before_vault + 123);
    let ev = withdraw(&mut ledger, &dw(owner), 123).unwrap();
    assert_eq!(ev.balance, before_vault);
    assert_eq!(ev.amount, 123);
    assert_eq!(ledger.lamports(&vault), before_vault);
    assert_eq!(ledger.lamports(&owner), before_owner);
}

#[test]
fn zero_amounts_are_rejected() {
    let owner = key(4);
    let mut ledger = funded(owner, 100);
    deposit(&mut ledger, &dw(owner), 40).unwrap();
    let vault = vault_of(&owner);
    let invalid = LedgerError::Program(CustomError::InvalidAmount);
    assert_eq!(deposit(&mut ledger, &dw(owner), 0), Err(invalid));
    assert_eq!(withdraw(&mut ledger, &dw(owner), 0), Err(invalid));
    assert_eq!(
        create_transaction(&mut ledger, &ct(owner, key(5)), "s", 0),
        Err(LedgerError::Program(CustomError::InvalidAmount))
    );
    assert_eq!(ledger.lamports(&vault), 40);
    assert_eq!(ledger.lamports(&owner), 60);
    assert!(ledger.get(&record_at(&owner, "s")).is_none());
}

#[test]
fn withdraw_beyond_balance_underflows() {
    let owner = key(6);
    let mut ledger = funded(owner, 100);
    deposit(&mut ledger, &dw(owner), 30).unwrap();
    assert_eq!(withdraw(&mut ledger, &dw(owner), 31), Err(LedgerError::ArithmeticUnderflow));
    assert_eq!(ledger.lamports(&vault_of(&owner)), 30);
    assert_eq!(ledger.lamports(&owner), 70);
}

#[test]
fn withdraw_without_vault_underflows_and_creates_nothing() {
    let owner = key(7);
    let mut ledger = funded(owner, 100);
    assert_eq!(withdraw(&mut ledger, &dw(owner), 1), Err(LedgerError::ArithmeticUnderflow));
    assert!(ledger.get(&vault_of(&owner)).is_none());
}

#[test]
fn staging_the_same_seed_twice_collides() {
    let owner = key(8);
    let r = key(9);
    let mut ledger = funded(owner, 1000);
    deposit(&mut ledger, &dw(owner), 500).unwrap();
    create_transaction(&mut ledger, &ct(owner, r), "pay", 100).unwrap();
    assert_eq!(
        create_transaction(&mut ledger, &ct(owner, key(10)), "pay", 7),
        Err(LedgerError::AccountAlreadyInUse)
    );
    // The first record is untouched.
    let rec = ledger.get(&record_at(&owner, "pay")).unwrap();
    assert_eq!(
        rec.data,
        AccountData::Transaction(UserTransaction { receiver: r, amount_in_lamports: 100, executed: false })
    );
    // Once executed and closed, the seed can be used again.
    execute_transaction(&mut ledger, &et(owner, r), "pay").unwrap();
    assert!(create_transaction(&mut ledger, &ct(owner, r), "pay", 5).is_ok());
}

#[test]
fn same_seed_for_different_owners_does_not_collide() {
    let a = key(11);
    let b = key(12);
    let mut ledger = funded(a, 100);
    ledger.fund(&b, 100).unwrap();
    deposit(&mut ledger, &dw(a), 10).unwrap();
    deposit(&mut ledger, &dw(b), 10).unwrap();
    assert!(create_transaction(&mut ledger, &ct(a, key(13)), "same", 1).is_ok());
    assert!(create_transaction(&mut ledger, &ct(b, key(13)), "same", 1).is_ok());
    assert_ne!(record_at(&a, "same"), record_at(&b, "same"));
}

#[test]
fn executing_twice_finds_no_record() {
    let owner = key(14);
    let r = key(15);
    let mut ledger = funded(owner, 1000);
    deposit(&mut ledger, &dw(owner), 400).unwrap();
    create_transaction(&mut ledger, &ct(owner, r), "once", 150).unwrap();
    assert!(execute_transaction(&mut ledger, &et(owner, r), "once").is_ok());
    assert_eq!(ledger.lamports(&vault_of(&owner)), 250);
    assert_eq!(ledger.lamports(&r), 150);
    assert_eq!(
        execute_transaction(&mut ledger, &et(owner, r), "once"),
        Err(LedgerError::AccountNotInitialized)
    );
    assert_eq!(ledger.lamports(&vault_of(&owner)), 250);
    assert_eq!(ledger.lamports(&r), 150);
}

#[test]
fn executing_with_another_receiver_is_refused() {
    let owner = key(16);
    let r = key(17);
    let other = key(18);
    let mut ledger = funded(owner, 1000);
    deposit(&mut ledger, &dw(owner), 400).unwrap();
    create_transaction(&mut ledger, &ct(owner, r), "x", 100).unwrap();
    assert_eq!(
        execute_transaction(&mut ledger, &et(owner, other), "x"),
        Err(LedgerError::Program(CustomError::InvalidReceiver))
    );
    assert_eq!(ledger.lamports(&vault_of(&owner)), 400);
    assert_eq!(ledger.lamports(&other), 0);
    assert!(ledger.get(&record_at(&owner, "x")).is_some());
}

#[test]
fn failed_move_leaves_guard_set() {
    let owner = key(19);
    let r = key(20);
    let mut ledger = funded(owner, 1000);
    deposit(&mut ledger, &dw(owner), 100).unwrap();
    create_transaction(&mut ledger, &ct(owner, r), "big", 500).unwrap();
    assert_eq!(
        execute_transaction(&mut ledger, &et(owner, r), "big"),
        Err(LedgerError::ArithmeticUnderflow)
    );
    let rec = ledger.get(&record_at(&owner, "big")).unwrap();
    assert_eq!(
        rec.data,
        AccountData::Transaction(UserTransaction { receiver: r, amount_in_lamports: 500, executed: true })
    );
    assert_eq!(ledger.lamports(&vault_of(&owner)), 100);
    deposit(&mut ledger, &dw(owner), 900).unwrap();
    assert_eq!(
        execute_transaction(&mut ledger, &et(owner, r), "big"),
        Err(LedgerError::Program(CustomError::TransactionAlreadyExecuted))
    );
    assert_eq!(ledger.lamports(&vault_of(&owner)), 1000);
    assert_eq!(ledger.lamports(&r), 0);
}

#[test]
fn deposit_needs_external_funds() {
    let owner = key(21);
    let mut ledger = funded(owner, 10);
    assert_eq!(deposit(&mut ledger, &dw(owner), 11), Err(LedgerError::InsufficientFunds));
    assert!(ledger.get(&vault_of(&owner)).is_none());
    assert_eq!(deposit(&mut Ledger::new(id()), &dw(key(22)), 1), Err(LedgerError::InsufficientFunds));
}

#[test]
fn deposit_overflow_is_reported() {
    let owner = key(23);
    let mut ledger = funded(owner, u64::MAX);
    assert_eq!(deposit(&mut ledger, &dw(owner), u64::MAX).unwrap().balance, u64::MAX);
    ledger.fund(&owner, 1).unwrap();
    assert_eq!(deposit(&mut ledger, &dw(owner), 1), Err(LedgerError::ArithmeticOverflow));
    assert_eq!(ledger.lamports(&owner), 1);
}

#[test]
fn withdraw_overflow_is_reported() {
    let owner = key(24);
    let mut ledger = funded(owner, u64::MAX);
    deposit(&mut ledger, &dw(owner), 10).unwrap();
    ledger.fund(&owner, 10).unwrap();
    assert_eq!(withdraw(&mut ledger, &dw(owner), 5), Err(LedgerError::ArithmeticOverflow));
    assert_eq!(ledger.lamports(&vault_of(&owner)), 10);
}

#[test]
fn staging_needs_a_vault() {
    let owner = key(25);
    let mut ledger = funded(owner, 10);
    assert_eq!(
        create_transaction(&mut ledger, &ct(owner, key(26)), "a", 1),
        Err(LedgerError::AccountNotInitialized)
    );
    assert_eq!(
        execute_transaction(&mut ledger, &et(owner, key(26)), "a"),
        Err(LedgerError::AccountNotInitialized)
    );
}

#[test]
fn long_seeds_have_no_address() {
    let owner = key(27);
    let mut ledger = funded(owner, 10);
    deposit(&mut ledger, &dw(owner), 5).unwrap();
    let long = "s".repeat(33);
    assert_eq!(
        create_transaction(&mut ledger, &ct(owner, key(28)), &long, 1),
        Err(LedgerError::InvalidSeeds)
    );
    assert_eq!(
        execute_transaction(&mut ledger, &et(owner, key(28)), &long),
        Err(LedgerError::InvalidSeeds)
    );
    let longest = "s".repeat(32);
    assert!(create_transaction(&mut ledger, &ct(owner, key(28)), &longest, 1).is_ok());
}

#[test]
fn accounts_of_the_wrong_kind_are_refused() {
    let owner = key(29);
    let mut ledger = funded(owner, 100);
    deposit(&mut ledger, &dw(owner), 50).unwrap();
    let vault = vault_of(&owner);
    // A vault cannot act as an identity.
    assert_eq!(deposit(&mut ledger, &dw(vault), 1), Err(LedgerError::WrongAccountKind));
    assert_eq!(ledger.fund(&vault, 1), Err(LedgerError::WrongAccountKind));
    assert_eq!(
        create_transaction(&mut ledger, &ct(owner, vault), "k", 1),
        Err(LedgerError::WrongAccountKind)
    );
    create_transaction(&mut ledger, &ct(owner, key(30)), "k", 1).unwrap();
    assert_eq!(
        execute_transaction(&mut ledger, &et(owner, vault), "k"),
        Err(LedgerError::WrongAccountKind)
    );
}

#[test]
fn derived_addresses_are_deterministic_and_distinct() {
    let program = id();
    let a = key(31);
    let b = key(32);
    let va = wallet_address(&program, &a).unwrap();
    assert_eq!(wallet_address(&program, &a), Some(va));
    assert_ne!(va, a);
    assert_ne!(va, program);
    assert_ne!(va, wallet_address(&program, &b).unwrap());
    assert_ne!(va, wallet_address(&key(33), &a).unwrap());
    let t1 = transaction_address(&program, &va, "one").unwrap();
    assert_ne!(t1, va);
    assert_ne!(t1, transaction_address(&program, &va, "two").unwrap());
    assert_eq!(transaction_address(&program, &va, "one"), Some(t1));
    assert_eq!(transaction_address(&program, &va, &"z".repeat(33)), None);
}

#[test]
fn program_identity_bytes() {
    let p = id();
    assert_eq!(p.bytes[0], 255);
    assert_eq!(p.bytes[31], 100);
    assert!(p.same_as(&p));
    assert!(!p.same_as(&key(0)));
}

#[test]
fn custom_error_messages() {
    assert_eq!(CustomError::InvalidReceiver.message(), "Invalid receiver");
    assert_eq!(CustomError::InvalidAmount.message(), "Invalid amount, must be greater than 0");
    assert_eq!(
        CustomError::TransactionAlreadyExecuted.message(),
        "The provided transaction was already executed"
    );
}

#[test]
fn operations_at_given_addresses() {
    let owner = key(40);
    let vault = key(41);
    let record = key(42);
    let r = key(43);
    let mut ledger = funded(owner, 5000);
    assert_eq!(deposit_to_vault(&mut ledger, &owner, &vault, 1000).unwrap().balance, 1000);
    assert_eq!(ledger.get(&vault).unwrap().data, AccountData::Wallet(simple_wallet::UserWallet {}));
    let ev = create_transaction_at(&mut ledger, &owner, &vault, &record, &r, 300).unwrap();
    assert_eq!((ev.owner, ev.to, ev.value), (owner, r, 300));
    assert_eq!(
        create_transaction_at(&mut ledger, &owner, &vault, &record, &r, 300),
        Err(LedgerError::AccountAlreadyInUse)
    );
    assert_eq!(
        withdraw_from_vault(&mut ledger, &owner, &vault, 1001),
        Err(LedgerError::ArithmeticUnderflow)
    );
    assert_eq!(
        execute_transaction_at(&mut ledger, &owner, &vault, &record, &owner),
        Err(LedgerError::Program(CustomError::InvalidReceiver))
    );
    assert_eq!(execute_transaction_at(&mut ledger, &owner, &vault, &record, &r).unwrap().owner, owner);
    assert_eq!(ledger.lamports(&vault), 700);
    assert_eq!(ledger.lamports(&r), 300);
    assert_eq!(
        execute_transaction_at(&mut ledger, &owner, &vault, &record, &r),
        Err(LedgerError::AccountNotInitialized)
    );
    let ev = withdraw_from_vault(&mut ledger, &owner, &vault, 700).unwrap();
    assert_eq!(ev.balance, 0);
    assert_eq!(ledger.lamports(&owner), 4700);
}
