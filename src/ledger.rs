use vstd::prelude::*;
use crate::key::Key;
use crate::error::LedgerError;

verus! {

/// The data of a vault account; its balance is the account's lamports.
#[derive(Clone, Copy, Debug, PartialEq, Eq)]
pub struct UserWallet {}

/// A staged transfer out of a vault.
#[derive(Clone, Copy, Debug, PartialEq, Eq)]
pub struct UserTransaction {
    pub receiver: Key,
    pub amount_in_lamports: u64,
    pub executed: bool,
}

/// What an account holds besides its balance.
#[derive(Clone, Copy, Debug, PartialEq, Eq)]
pub enum AccountData {
    /// An identity's own account: its lamports are its external balance.
    System,
    /// A vault.
    Wallet(UserWallet),
    /// A pending transfer record.
    Transaction(UserTransaction),
}

/// An account: its balance in lamports and what it holds.
#[derive(Clone, Copy, Debug, PartialEq, Eq)]
pub struct Account {
    pub lamports: u64,
    pub data: AccountData,
}

#[derive(Clone, Copy, Debug)]
struct Entry {
    key: Key,
    account: Account,
}

/// The accounts that the program can see, each at a distinct address.
pub struct Ledger {
    program_id: Key,
    entries: Vec<Entry>,
}

/// The balance held at `k`; an address with no account holds nothing.
pub open spec fn lamports_of(m: Map<Seq<u8>, Account>, k: Seq<u8>) -> u64 {
    if m.contains_key(k) {
        m[k].lamports
    } else {
        0
    }
}

/// No account at `k`, or an identity's own account.
pub open spec fn system_or_absent(m: Map<Seq<u8>, Account>, k: Seq<u8>) -> bool {
    !m.contains_key(k) || m[k].data is System
}

impl View for Ledger {
    type V = Map<Seq<u8>, Account>;

    closed spec fn view(&self) -> Map<Seq<u8>, Account> {
        Map::new(
            |k: Seq<u8>| exists|i: int| 0 <= i < self.entries.len() && (#[trigger] self.entries[i]).key@ == k,
            |k: Seq<u8>|
                self.entries[choose|i: int| 0 <= i < self.entries.len() && (#[trigger] self.entries[i]).key@ == k].account,
        )
    }
}

impl Ledger {
    /// Addresses are distinct.
    pub closed spec fn wf(&self) -> bool {
        forall|i: int, j: int|
            0 <= i < self.entries.len() && 0 <= j < self.entries.len() && i != j
                ==> (#[trigger] self.entries[i]).key@ != (#[trigger] self.entries[j]).key@
    }

    /// The program whose accounts these are.
    pub closed spec fn program_key(&self) -> Key {
        self.program_id
    }

    pub fn program_id(&self) -> (r: Key)
        ensures
            r == self.program_key(),
    {
        self.program_id
    }

    proof fn lemma_view_at(&self, i: int)
        requires
            self.wf(),
            0 <= i < self.entries.len(),
        ensures
            self@.contains_key(self.entries[i].key@),
            self@[self.entries[i].key@] == self.entries[i].account,
    {
        let k = self.entries[i].key@;
        assert(self.entries[i].key@ == k);
        let j = choose|j: int| 0 <= j < self.entries.len() && (#[trigger] self.entries[j]).key@ == k;
        assert(j == i);
    }

    /// An empty ledger for the program `program_id`.
    pub fn new(program_id: Key) -> (r: Ledger)
        ensures
            r.wf(),
            r.program_key() == program_id,
            r@ == Map::<Seq<u8>, Account>::empty(),
    {
        let r = Ledger { program_id, entries: Vec::new() };
        assert(r@ =~= Map::<Seq<u8>, Account>::empty());
        r
    }

    fn find(&self, k: &Key) -> (r: Option<usize>)
        requires
            self.wf(),
        ensures
            match r {
                Some(i) => i < self.entries.len() && self.entries[i as int].key@ == k@,
                None => !self@.contains_key(k@),
            },
    {
        let mut i: usize = 0;
        while i < self.entries.len()
            invariant
                i <= self.entries.len(),
                forall|j: int| 0 <= j < i ==> (#[trigger] self.entries[j]).key@ != k@,
            decreases self.entries.len() - i,
        {
            if self.entries[i].key.same_as(k) {
                return Some(i);
            }
            i = i + 1;
        }
        None
    }

    /// The account at `k`, if there is one.
    pub fn get(&self, k: &Key) -> (r: Option<Account>)
        requires
            self.wf(),
        ensures
            r == (if self@.contains_key(k@) { Some(self@[k@]) } else { None::<Account> }),
    {
        match self.find(k) {
            Some(i) => {
                proof { self.lemma_view_at(i as int); }
                Some(self.entries[i].account)
            },
            None => None,
        }
    }

    /// The balance held at `k`.
    pub fn lamports(&self, k: &Key) -> (r: u64)
        requires
            self.wf(),
        ensures
            r == lamports_of(self@, k@),
    {
        match self.get(k) {
            Some(a) => a.lamports,
            None => 0,
        }
    }

    /// Puts `account` at `k`, replacing what was there.
    pub fn set(&mut self, k: &Key, account: Account)
        requires
            old(self).wf(),
        ensures
            final(self).wf(),
            final(self).program_key() == old(self).program_key(),
            final(self)@ == old(self)@.insert(k@, account),
    {
        let ghost pre = *self;
        match self.find(k) {
            Some(i) => {
                self.entries.set(i, Entry { key: *k, account });
                assert forall|q: Seq<u8>|
                    #[trigger] self@.contains_key(q) == pre@.insert(k@, account).contains_key(q)
                        && (self@.contains_key(q) ==> self@[q] == pre@.insert(k@, account)[q]) by {
                    if q == k@ {
                        self.lemma_view_at(i as int);
                    } else if pre@.contains_key(q) {
                        let j = choose|j: int| 0 <= j < pre.entries.len() && (#[trigger] pre.entries[j]).key@ == q;
                        pre.lemma_view_at(j);
                        self.lemma_view_at(j);
                    } else {
                        if self@.contains_key(q) {
                            let j = choose|j: int| 0 <= j < self.entries.len() && (#[trigger] self.entries[j]).key@ == q;
                            assert(pre.entries[j].key@ == q);
                        }
                    }
                }
                assert(self@ =~= pre@.insert(k@, account));
            },
            None => {
                self.entries.push(Entry { key: *k, account });
                let ghost n = pre.entries.len() as int;
                assert(self.entries[n].key@ == k@);
                assert forall|q: Seq<u8>|
                    #[trigger] self@.contains_key(q) == pre@.insert(k@, account).contains_key(q)
                        && (self@.contains_key(q) ==> self@[q] == pre@.insert(k@, account)[q]) by {
                    if q == k@ {
                        self.lemma_view_at(n);
                    } else if pre@.contains_key(q) {
                        let j = choose|j: int| 0 <= j < pre.entries.len() && (#[trigger] pre.entries[j]).key@ == q;
                        pre.lemma_view_at(j);
                        assert(self.entries[j] == pre.entries[j]);
                        self.lemma_view_at(j);
                    } else {
                        if self@.contains_key(q) {
                            let j = choose|j: int| 0 <= j < self.entries.len() && (#[trigger] self.entries[j]).key@ == q;
                            assert(j != n);
                            assert(pre.entries[j].key@ == q);
                        }
                    }
                }
                assert(self@ =~= pre@.insert(k@, account));
            },
        }
    }

    /// Removes the account at `k`, if there is one.
    pub fn remove(&mut self, k: &Key)
        requires
            old(self).wf(),
        ensures
            final(self).wf(),
            final(self).program_key() == old(self).program_key(),
            final(self)@ == old(self)@.remove(k@),
    {
        let ghost pre = *self;
        match self.find(k) {
            Some(i) => {
                self.entries.remove(i);
                assert forall|a: int, b: int|
                    0 <= a < self.entries.len() && 0 <= b < self.entries.len() && a != b
                        implies (#[trigger] self.entries[a]).key@ != (#[trigger] self.entries[b]).key@ by {
                    let a0 = if a < i { a } else { a + 1 };
                    let b0 = if b < i { b } else { b + 1 };
                    assert(self.entries[a] == pre.entries[a0]);
                    assert(self.entries[b] == pre.entries[b0]);
                }
                assert forall|q: Seq<u8>|
                    #[trigger] self@.contains_key(q) == pre@.remove(k@).contains_key(q)
                        && (self@.contains_key(q) ==> self@[q] == pre@.remove(k@)[q]) by {
                    if self@.contains_key(q) {
                        let j = choose|j: int| 0 <= j < self.entries.len() && (#[trigger] self.entries[j]).key@ == q;
                        let j0 = if j < i { j } else { j + 1 };
                        assert(self.entries[j] == pre.entries[j0]);
                        assert(j0 != i);
                        pre.lemma_view_at(j0);
                        self.lemma_view_at(j);
                    } else if q != k@ && pre@.contains_key(q) {
                        let j0 = choose|j: int| 0 <= j < pre.entries.len() && (#[trigger] pre.entries[j]).key@ == q;
                        assert(j0 != i);
                        let j = if j0 < i { j0 } else { j0 - 1 };
                        assert(self.entries[j] == pre.entries[j0]);
                    }
                }
                assert(self@ =~= pre@.remove(k@));
            },
            None => {
                assert(self@ =~= pre@.remove(k@));
            },
        }
    }
    /// Credits `lamports` to the identity `who`, as a native transfer into its
    /// own account by the host does.
    pub fn fund(&mut self, who: &Key, lamports: u64) -> (r: Result<u64, LedgerError>)
        requires
            old(self).wf(),
        ensures
            final(self).wf(),
            final(self).program_key() == old(self).program_key(),
            !system_or_absent(old(self)@, who@) ==> r == Err::<u64, LedgerError>(LedgerError::WrongAccountKind),
            system_or_absent(old(self)@, who@) && lamports_of(old(self)@, who@) + lamports > u64::MAX
                ==> r == Err::<u64, LedgerError>(LedgerError::ArithmeticOverflow),
            system_or_absent(old(self)@, who@) && lamports_of(old(self)@, who@) + lamports <= u64::MAX ==> r is Ok,
            r is Err ==> final(self)@ == old(self)@,
            r is Ok ==> {
                &&& r->Ok_0 == lamports_of(old(self)@, who@) + lamports
                &&& final(self)@ == old(self)@.insert(who@, (Account { lamports: r->Ok_0, data: AccountData::System }))
            },
    {
        let before: u64 = match self.get(who) {
            Some(a) => match a.data {
                AccountData::System => a.lamports,
                _ => return Err(LedgerError::WrongAccountKind),
            },
            None => 0,
        };
        let after = match before.checked_add(lamports) {
            Some(v) => v,
            None => return Err(LedgerError::ArithmeticOverflow),
        };
        self.set(who, Account { lamports: after, data: AccountData::System });
        Ok(after)
    }
}

} // verus!
