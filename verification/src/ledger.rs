use crate::error::CommitError;
use crate::pubkey::Pubkey;
use crate::state::Record;
use vstd::prelude::*;

verus! {

/// What the ledger holds at one address: a balance in minimal value units and
/// a record. A vacant address holds balance zero and `Record::Empty`.
pub struct AccountView {
    pub lamports: nat,
    pub record: Record,
}

/// The ledger as a mathematical value: the program whose records it keeps,
/// the registry program it trusts, and what every address holds.
pub struct LedgerView {
    pub program_id: Seq<u8>,
    pub metadata_program: Seq<u8>,
    pub accounts: Map<Seq<u8>, AccountView>,
}

impl LedgerView {
    /// The balance at `address`.
    pub open spec fn balance(self, address: Seq<u8>) -> nat {
        self.accounts[address].lamports
    }

    /// The record at `address`.
    pub open spec fn record(self, address: Seq<u8>) -> Record {
        self.accounts[address].record
    }

    /// The ledger with the balance at `address` replaced.
    pub open spec fn with_balance(self, address: Seq<u8>, lamports: nat) -> LedgerView {
        LedgerView {
            accounts: self.accounts.insert(
                address,
                AccountView { lamports, record: self.record(address) },
            ),
            ..self
        }
    }

    /// The ledger with the record at `address` replaced.
    pub open spec fn with_record(self, address: Seq<u8>, record: Record) -> LedgerView {
        LedgerView {
            accounts: self.accounts.insert(
                address,
                AccountView { lamports: self.balance(address), record },
            ),
            ..self
        }
    }

    /// The ledger after `amount` has left `from` and arrived at `to`.
    pub open spec fn transfer(self, from: Seq<u8>, to: Seq<u8>, amount: nat) -> LedgerView {
        let debited = self.with_balance(from, (self.balance(from) - amount) as nat);
        debited.with_balance(to, debited.balance(to) + amount)
    }
}

struct Entry {
    address: Pubkey,
    lamports: u64,
    record: Record,
}

/// The accounts of a program and the value they hold.
///
/// Addresses are listed once each, and the balances sum to the supply, which
/// fits in 64 bits: no credit can overflow.
pub struct Ledger {
    program_id: Pubkey,
    metadata_program: Pubkey,
    entries: Vec<Entry>,
    supply: u64,
}

spec fn listed(entries: Seq<Entry>, address: Seq<u8>, i: int) -> bool {
    0 <= i < entries.len() && entries[i].address@ == address
}

spec fn entry_view(entry: Entry) -> AccountView {
    AccountView { lamports: entry.lamports as nat, record: entry.record }
}

spec fn vacant() -> AccountView {
    AccountView { lamports: 0, record: Record::Empty }
}

spec fn account_at(entries: Seq<Entry>, address: Seq<u8>) -> AccountView {
    if exists|i: int| listed(entries, address, i) {
        entry_view(entries[choose|i: int| listed(entries, address, i)])
    } else {
        vacant()
    }
}

spec fn accounts_of(entries: Seq<Entry>) -> Map<Seq<u8>, AccountView> {
    Map::total(|address: Seq<u8>| account_at(entries, address))
}

spec fn distinct(entries: Seq<Entry>) -> bool {
    forall|i: int, j: int|
        0 <= i < j < entries.len() ==> #[trigger] entries[i].address@
            != #[trigger] entries[j].address@
}

spec fn total(entries: Seq<Entry>) -> nat
    decreases entries.len(),
{
    if entries.len() == 0 {
        0
    } else {
        total(entries.drop_last()) + entries.last().lamports as nat
    }
}

proof fn lemma_account_listed(entries: Seq<Entry>, i: int)
    requires
        distinct(entries),
        0 <= i < entries.len(),
    ensures
        account_at(entries, entries[i].address@) == entry_view(entries[i]),
{
    let address = entries[i].address@;
    assert(listed(entries, address, i));
    let j = choose|j: int| listed(entries, address, j);
    assert(listed(entries, address, j));
    if i < j {
        assert(entries[i].address@ != entries[j].address@);
    } else if j < i {
        assert(entries[j].address@ != entries[i].address@);
    }
}

proof fn lemma_account_unlisted(entries: Seq<Entry>, address: Seq<u8>)
    requires
        forall|i: int| 0 <= i < entries.len() ==> entries[i].address@ != address,
    ensures
        account_at(entries, address) == vacant(),
{
    assert forall|i: int| !listed(entries, address, i) by {}
}

proof fn lemma_total_bounds(entries: Seq<Entry>, i: int)
    requires
        0 <= i < entries.len(),
    ensures
        entries[i].lamports <= total(entries),
    decreases entries.len(),
{
    if i < entries.len() - 1 {
        lemma_total_bounds(entries.drop_last(), i);
    }
}

proof fn lemma_total_push(entries: Seq<Entry>, entry: Entry)
    ensures
        total(entries.push(entry)) == total(entries) + entry.lamports,
{
    assert(entries.push(entry).drop_last() =~= entries);
}

proof fn lemma_total_update(entries: Seq<Entry>, i: int, entry: Entry)
    requires
        0 <= i < entries.len(),
    ensures
        total(entries.update(i, entry)) == total(entries) - entries[i].lamports + entry.lamports,
    decreases entries.len(),
{
    if i == entries.len() - 1 {
        assert(entries.update(i, entry).drop_last() =~= entries.drop_last());
    } else {
        lemma_total_update(entries.drop_last(), i, entry);
        assert(entries.update(i, entry).drop_last() =~= entries.drop_last().update(i, entry));
    }
}

proof fn lemma_accounts_update(entries: Seq<Entry>, i: int, entry: Entry)
    requires
        distinct(entries),
        0 <= i < entries.len(),
        entry.address@ == entries[i].address@,
    ensures
        distinct(entries.update(i, entry)),
        accounts_of(entries.update(i, entry)) == accounts_of(entries).insert(
            entry.address@,
            entry_view(entry),
        ),
{
    let after = entries.update(i, entry);
    assert(distinct(after)) by {
        assert forall|a: int, b: int| 0 <= a < b < after.len() implies #[trigger] after[a].address@
            != #[trigger] after[b].address@ by {
            assert(entries[a].address@ != entries[b].address@);
        }
    }
    assert forall|address: Seq<u8>| #[trigger]
        account_at(after, address) == accounts_of(entries).insert(
            entry.address@,
            entry_view(entry),
        )[address] by {
        if address == entry.address@ {
            lemma_account_listed(after, i);
        } else if exists|j: int| listed(entries, address, j) {
            let j = choose|j: int| listed(entries, address, j);
            assert(listed(entries, address, j));
            lemma_account_listed(entries, j);
            assert(after[j] == entries[j]);
            lemma_account_listed(after, j);
        } else {
            assert forall|j: int| 0 <= j < after.len() implies after[j].address@ != address by {
                assert(!listed(entries, address, j));
            }
            lemma_account_unlisted(after, address);
        }
    }
    assert(accounts_of(after) =~= accounts_of(entries).insert(entry.address@, entry_view(entry)));
}

proof fn lemma_accounts_push(entries: Seq<Entry>, entry: Entry)
    requires
        distinct(entries),
        forall|i: int| 0 <= i < entries.len() ==> entries[i].address@ != entry.address@,
    ensures
        distinct(entries.push(entry)),
        accounts_of(entries.push(entry)) == accounts_of(entries).insert(
            entry.address@,
            entry_view(entry),
        ),
{
    let after = entries.push(entry);
    let last = entries.len() as int;
    assert(distinct(after)) by {
        assert forall|a: int, b: int| 0 <= a < b < after.len() implies #[trigger] after[a].address@
            != #[trigger] after[b].address@ by {
            if b < last {
                assert(entries[a].address@ != entries[b].address@);
            }
        }
    }
    assert forall|address: Seq<u8>| #[trigger]
        account_at(after, address) == accounts_of(entries).insert(
            entry.address@,
            entry_view(entry),
        )[address] by {
        if address == entry.address@ {
            lemma_account_listed(after, last);
        } else if exists|j: int| listed(entries, address, j) {
            let j = choose|j: int| listed(entries, address, j);
            assert(listed(entries, address, j));
            lemma_account_listed(entries, j);
            assert(after[j] == entries[j]);
            lemma_account_listed(after, j);
        } else {
            assert forall|j: int| 0 <= j < after.len() implies after[j].address@ != address by {
                if j < last {
                    assert(!listed(entries, address, j));
                }
            }
            lemma_account_unlisted(after, address);
        }
    }
    assert(accounts_of(after) =~= accounts_of(entries).insert(entry.address@, entry_view(entry)));
}

impl Ledger {
    /// The ledger's internal invariant: each address is listed once, and the
    /// balances sum to the supply.
    pub closed spec fn wf(&self) -> bool {
        &&& distinct(self.entries@)
        &&& self.supply == total(self.entries@)
    }

    /// The ledger as a mathematical value.
    pub closed spec fn view(&self) -> LedgerView {
        LedgerView {
            program_id: self.program_id@,
            metadata_program: self.metadata_program@,
            accounts: accounts_of(self.entries@),
        }
    }

    /// The sum of all balances.
    pub closed spec fn supply(&self) -> nat {
        self.supply as nat
    }

    /// An empty ledger for the program `program_id`, which trusts the
    /// registry program `metadata_program`: every address is vacant.
    pub fn new(program_id: Pubkey, metadata_program: Pubkey) -> (ledger: Ledger)
        ensures
            ledger.wf(),
            ledger.supply() == 0,
            ledger@.program_id == program_id@,
            ledger@.metadata_program == metadata_program@,
            forall|address: Seq<u8>| #[trigger]
                ledger@.accounts[address] == (AccountView { lamports: 0, record: Record::Empty }),
    {
        let ledger = Ledger { program_id, metadata_program, entries: Vec::new(), supply: 0 };
        proof {
            assert forall|address: Seq<u8>| #[trigger]
                ledger@.accounts[address] == vacant() by {
                lemma_account_unlisted(ledger.entries@, address);
            }
        }
        ledger
    }

    /// The program whose records the ledger keeps.
    pub fn program_id(&self) -> (id: Pubkey)
        ensures
            id@ == self@.program_id,
    {
        self.program_id
    }

    /// The registry program that the ledger trusts.
    pub fn metadata_program(&self) -> (id: Pubkey)
        ensures
            id@ == self@.metadata_program,
    {
        self.metadata_program
    }

    /// The sum of all balances.
    pub fn total_lamports(&self) -> (sum: u64)
        ensures
            sum == self.supply(),
    {
        self.supply
    }

    fn find(&self, address: &Pubkey) -> (found: Option<usize>)
        ensures
            found matches Some(i) ==> i < self.entries@.len() && self.entries@[i as int].address@
                == address@,
            found is None ==> forall|i: int|
                0 <= i < self.entries@.len() ==> self.entries@[i].address@ != address@,
    {
        let mut i: usize = 0;
        while i < self.entries.len()
            invariant
                i <= self.entries@.len(),
                forall|j: int| 0 <= j < i ==> self.entries@[j].address@ != address@,
            decreases self.entries@.len() - i,
        {
            if self.entries[i].address == *address {
                return Some(i);
            }
            i += 1;
        }
        None
    }

    /// The balance at `address`.
    pub fn balance(&self, address: &Pubkey) -> (lamports: u64)
        requires
            self.wf(),
        ensures
            lamports == self@.balance(address@),
            lamports <= self.supply(),
    {
        match self.find(address) {
            Some(i) => {
                proof {
                    lemma_account_listed(self.entries@, i as int);
                    lemma_total_bounds(self.entries@, i as int);
                }
                self.entries[i].lamports
            },
            None => {
                proof {
                    lemma_account_unlisted(self.entries@, address@);
                }
                0
            },
        }
    }

    /// The record at `address`.
    pub fn record(&self, address: &Pubkey) -> (record: Record)
        requires
            self.wf(),
        ensures
            record == self@.record(address@),
    {
        match self.find(address) {
            Some(i) => {
                proof {
                    lemma_account_listed(self.entries@, i as int);
                }
                self.entries[i].record
            },
            None => {
                proof {
                    lemma_account_unlisted(self.entries@, address@);
                }
                Record::Empty
            },
        }
    }

    fn store(&mut self, address: &Pubkey, lamports: u64, record: Record)
        requires
            old(self).wf(),
            old(self).supply() - old(self)@.balance(address@) + lamports <= u64::MAX,
        ensures
            final(self).wf(),
            final(self).supply() == old(self).supply() - old(self)@.balance(address@) + lamports,
            final(self)@ == (LedgerView {
                accounts: old(self)@.accounts.insert(
                    address@,
                    AccountView { lamports: lamports as nat, record },
                ),
                ..old(self)@
            }),
    {
        let entry = Entry { address: *address, lamports, record };
        match self.find(address) {
            Some(i) => {
                proof {
                    lemma_account_listed(self.entries@, i as int);
                    lemma_total_bounds(self.entries@, i as int);
                    lemma_total_update(self.entries@, i as int, entry);
                    lemma_accounts_update(self.entries@, i as int, entry);
                }
                let before = self.entries[i].lamports;
                self.supply = self.supply - before + lamports;
                self.entries.set(i, entry);
            },
            None => {
                proof {
                    lemma_account_unlisted(self.entries@, address@);
                    lemma_total_push(self.entries@, entry);
                    lemma_accounts_push(self.entries@, entry);
                }
                self.supply = self.supply + lamports;
                self.entries.push(entry);
            },
        }
    }

    /// Adds `amount` to the balance at `address`, from outside the ledger.
    /// Returns `false`, and changes nothing, where the supply would no longer
    /// fit in 64 bits.
    pub fn deposit(&mut self, address: &Pubkey, amount: u64) -> (accepted: bool)
        requires
            old(self).wf(),
        ensures
            final(self).wf(),
            accepted == (old(self).supply() + amount <= u64::MAX),
            accepted ==> final(self)@ == old(self)@.with_balance(
                address@,
                (old(self)@.balance(address@) + amount) as nat,
            ) && final(self).supply() == old(self).supply() + amount,
            !accepted ==> final(self)@ == old(self)@ && final(self).supply() == old(self).supply(),
    {
        if amount > u64::MAX - self.supply {
            return false;
        }
        let lamports = self.balance(address);
        let record = self.record(address);
        self.store(address, lamports + amount, record);
        true
    }

    /// Moves `amount` from the balance at `from` to the balance at `to`.
    /// Fails with `InsufficientFunds`, and changes nothing, where `from`
    /// holds less than `amount`.
    pub fn transfer_lamports(&mut self, from: &Pubkey, to: &Pubkey, amount: u64) -> (moved: Result<
        (),
        CommitError,
    >)
        requires
            old(self).wf(),
        ensures
            final(self).wf(),
            final(self).supply() == old(self).supply(),
            moved is Ok <==> old(self)@.balance(from@) >= amount,
            moved is Ok ==> final(self)@ == old(self)@.transfer(from@, to@, amount as nat),
            moved is Err ==> moved == Err::<(), CommitError>(CommitError::InsufficientFunds)
                && final(self)@ == old(self)@,
    {
        let available = self.balance(from);
        if available < amount {
            return Err(CommitError::InsufficientFunds);
        }
        let record = self.record(from);
        self.store(from, available - amount, record);
        let held = self.balance(to);
        let record = self.record(to);
        self.store(to, held + amount, record);
        Ok(())
    }

    /// Stores `record` at `address`. Fails with `AlreadyExists`, and changes
    /// nothing, where the address already holds a record. The balance at the
    /// address is kept: funding the storage is left to the host.
    pub fn create(&mut self, address: &Pubkey, record: Record) -> (created: Result<(), CommitError>)
        requires
            old(self).wf(),
        ensures
            final(self).wf(),
            final(self).supply() == old(self).supply(),
            created is Ok <==> old(self)@.record(address@) is Empty,
            created is Ok ==> final(self)@ == old(self)@.with_record(address@, record),
            created is Err ==> created == Err::<(), CommitError>(CommitError::AlreadyExists)
                && final(self)@ == old(self)@,
    {
        match self.record(address) {
            Record::Empty => {
                let lamports = self.balance(address);
                self.store(address, lamports, record);
                Ok(())
            },
            _ => Err(CommitError::AlreadyExists),
        }
    }

    /// Opens the record at `address` for writing. Fails with `NotFound` where
    /// the address holds no record.
    pub fn open_for_write(&mut self, address: &Pubkey) -> (opened: Result<&mut Record, CommitError>)
        requires
            old(self).wf(),
        ensures
            opened is Ok <==> !(old(self)@.record(address@) is Empty),
            match opened {
                Ok(record) => {
                    &&& *record == old(self)@.record(address@)
                    &&& final(self).wf()
                    &&& final(self).supply() == old(self).supply()
                    &&& final(self)@ == old(self)@.with_record(address@, *final(record))
                },
                Err(error) => error == CommitError::NotFound && *final(self) == *old(self),
            },
    {
        match self.find(address) {
            Some(i) => {
                proof {
                    lemma_account_listed(self.entries@, i as int);
                }
                match self.entries[i].record {
                    Record::Empty => Err(CommitError::NotFound),
                    _ => {
                        let ghost before = self.entries@;
                        let entry: &mut Entry = &mut self.entries[i];
                        let record: &mut Record = &mut entry.record;
                        proof {
                            let after = Entry { record: *final(record), ..before[i as int] };
                            lemma_total_update(before, i as int, after);
                            lemma_accounts_update(before, i as int, after);
                        }
                        Ok(record)
                    },
                }
            },
            None => {
                proof {
                    lemma_account_unlisted(self.entries@, address@);
                }
                Err(CommitError::NotFound)
            },
        }
    }
}

} // verus!
