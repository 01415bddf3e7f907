//! A toy ledger: accounts with balances, and the transfers between them.
use vstd::prelude::*;
use crate::json::same_text;
use crate::strmap::{index_of, lemma_entry, StringMap};

verus! {

/// How far a transfer has come.
#[derive(Debug, Clone, Copy, PartialEq, Eq)]
pub enum TransactionStatus {
    Pending,
    Confirmed,
    Failed,
}

/// One transfer of funds.
#[derive(Debug, Clone, PartialEq)]
pub struct Transaction {
    pub txid: String,
    pub from: String,
    pub to: String,
    pub amount: u64,
    pub timestamp: u64,
    pub status: TransactionStatus,
}

/// The balance of one address, and the number of transfers it has sent.
#[derive(Debug, Clone, PartialEq)]
pub struct Account {
    pub address: String,
    pub balance: u64,
    pub nonce: u64,
}

/// What a transaction holds, its strings as character sequences.
pub struct TransactionView {
    pub txid: Seq<char>,
    pub from: Seq<char>,
    pub to: Seq<char>,
    pub amount: u64,
    pub timestamp: u64,
    pub status: TransactionStatus,
}

/// What an account holds, its address as a character sequence.
pub struct AccountView {
    pub address: Seq<char>,
    pub balance: u64,
    pub nonce: u64,
}

impl View for Transaction {
    type V = TransactionView;

    open spec fn view(&self) -> TransactionView {
        TransactionView {
            txid: self.txid@,
            from: self.from@,
            to: self.to@,
            amount: self.amount,
            timestamp: self.timestamp,
            status: self.status,
        }
    }
}

impl View for Account {
    type V = AccountView;

    open spec fn view(&self) -> AccountView {
        AccountView { address: self.address@, balance: self.balance, nonce: self.nonce }
    }
}

/// A nonce after one more transfer. It wraps round at the top of `u64`.
pub open spec fn next_nonce(n: u64) -> u64 {
    if n == u64::MAX {
        0
    } else {
        (n + 1) as u64
    }
}

/// Why a transfer cannot be made, if it cannot: the sender is unknown, or
/// has less than the amount, or the receiver's balance would pass the top of
/// `u64`.
pub open spec fn transfer_fault(
    accounts: Map<Seq<char>, AccountView>,
    from: Seq<char>,
    to: Seq<char>,
    amount: u64,
) -> Option<Seq<char>> {
    if !accounts.contains_key(from) {
        Some("Sender account not found"@)
    } else if accounts[from].balance < amount {
        Some("Insufficient balance"@)
    } else if from != to && accounts.contains_key(to) && accounts[to].balance + amount > u64::MAX {
        Some("Receiver balance overflow"@)
    } else {
        None
    }
}

/// The accounts after the sender has paid.
pub open spec fn after_debit(
    accounts: Map<Seq<char>, AccountView>,
    from: Seq<char>,
    amount: u64,
) -> Map<Seq<char>, AccountView> {
    accounts.insert(
        from,
        AccountView {
            address: from,
            balance: (accounts[from].balance - amount) as u64,
            nonce: next_nonce(accounts[from].nonce),
        },
    )
}

/// The accounts after the receiver has been paid. A receiver that had no
/// account gets one.
pub open spec fn after_credit(
    accounts: Map<Seq<char>, AccountView>,
    to: Seq<char>,
    amount: u64,
) -> Map<Seq<char>, AccountView> {
    accounts.insert(
        to,
        if accounts.contains_key(to) {
            AccountView {
                address: to,
                balance: (accounts[to].balance + amount) as u64,
                nonce: accounts[to].nonce,
            }
        } else {
            AccountView { address: to, balance: amount, nonce: 0 }
        },
    )
}

/// The accounts after a transfer: the sender pays first, then the receiver
/// is paid.
pub open spec fn after_transfer(
    accounts: Map<Seq<char>, AccountView>,
    from: Seq<char>,
    to: Seq<char>,
    amount: u64,
) -> Map<Seq<char>, AccountView> {
    after_credit(after_debit(accounts, from, amount), to, amount)
}

/// The views of the stored accounts.
pub open spec fn account_views(m: Map<Seq<char>, Account>) -> Map<Seq<char>, AccountView> {
    Map::new(|k: Seq<char>| m.contains_key(k), |k: Seq<char>| m[k]@)
}

/// The views of the stored transactions.
pub open spec fn transaction_views(m: Map<Seq<char>, Transaction>) -> Map<
    Seq<char>,
    TransactionView,
> {
    Map::new(|k: Seq<char>| m.contains_key(k), |k: Seq<char>| m[k]@)
}

/// Whether a transaction has the address as its sender or as its receiver.
pub open spec fn touches(t: TransactionView, address: Seq<char>) -> bool {
    t.from == address || t.to == address
}

fn copy_account(a: &Account) -> (r: Account)
    ensures
        r == *a,
{
    Account { address: a.address.clone(), balance: a.balance, nonce: a.nonce }
}

fn copy_transaction(t: &Transaction) -> (r: Transaction)
    ensures
        r == *t,
{
    Transaction {
        txid: t.txid.clone(),
        from: t.from.clone(),
        to: t.to.clone(),
        amount: t.amount,
        timestamp: t.timestamp,
        status: t.status,
    }
}

/// A fresh transaction id: the text of `uuid::Uuid::new_v4()`, a random
/// identifier. Nothing is claimed of it. The call fails only where the
/// system's source of random numbers does.
#[verifier::external_body]
pub(crate) fn fresh_txid() -> (id: String) {
    uuid::Uuid::new_v4().to_string()
}

/// The seconds since the Unix epoch on the system clock, from
/// `std::time::SystemTime::now`; 0 for a clock that stands before the epoch.
/// Nothing is claimed of it.
#[verifier::external_body]
pub(crate) fn unix_now() -> (secs: u64) {
    match std::time::SystemTime::now().duration_since(std::time::UNIX_EPOCH) {
        Ok(elapsed) => elapsed.as_secs(),
        Err(_) => 0,
    }
}

/// The ledger: accounts by address, transactions by id.
pub struct StateStore {
    accounts: StringMap<Account>,
    transactions: StringMap<Transaction>,
}

impl StateStore {
    /// The ledger's invariant: every account is stored under its address and
    /// every transaction under its id.
    pub closed spec fn wf(&self) -> bool {
        &&& self.accounts.wf()
        &&& self.transactions.wf()
        &&& forall|k: Seq<char>| #[trigger]
            self.accounts@.contains_key(k) ==> self.accounts@[k].address@ == k
        &&& forall|k: Seq<char>| #[trigger]
            self.transactions@.contains_key(k) ==> self.transactions@[k].txid@ == k
    }

    /// The accounts, by address.
    pub closed spec fn accounts(&self) -> Map<Seq<char>, AccountView> {
        account_views(self.accounts@)
    }

    /// The transactions, by id.
    pub closed spec fn transactions(&self) -> Map<Seq<char>, TransactionView> {
        transaction_views(self.transactions@)
    }

    /// The accounts in the order in which the ledger holds them.
    pub closed spec fn account_list(&self) -> Seq<AccountView> {
        self.accounts.entries().map_values(|e: (String, Account)| e.1@)
    }

    /// The transactions in the order in which the ledger holds them.
    pub closed spec fn transaction_list(&self) -> Seq<TransactionView> {
        self.transactions.entries().map_values(|e: (String, Transaction)| e.1@)
    }

    /// The account list holds each account of the map once, and nothing else.
    pub proof fn lemma_account_list(&self)
        requires
            self.wf(),
        ensures
            forall|i: int|
                0 <= i < self.account_list().len() ==> self.accounts().contains_key(
                    (#[trigger] self.account_list()[i]).address,
                ) && self.accounts()[self.account_list()[i].address] == self.account_list()[i],
            forall|i: int, j: int|
                0 <= i < j < self.account_list().len() ==> (#[trigger] self.account_list()[i]).address
                    != (#[trigger] self.account_list()[j]).address,
            forall|k: Seq<char>| #[trigger]
                self.accounts().contains_key(k) ==> exists|i: int|
                    0 <= i < self.account_list().len() && #[trigger] self.account_list()[i]
                        == self.accounts()[k],
    {
        self.accounts.lemma_entries();
        let e = self.accounts.entries();
        let list = self.account_list();
        assert forall|i: int| 0 <= i < list.len() implies self.accounts().contains_key(
            (#[trigger] list[i]).address,
        ) && self.accounts()[list[i].address] == list[i] by {
            lemma_entry(e, i);
        }
        assert forall|i: int, j: int| 0 <= i < j < list.len() implies (#[trigger] list[i]).address
            != (#[trigger] list[j]).address by {
            lemma_entry(e, i);
            lemma_entry(e, j);
            assert(e[i].0@ != e[j].0@);
        }
        assert forall|k: Seq<char>| #[trigger]
            self.accounts().contains_key(k) implies exists|i: int|
            0 <= i < list.len() && #[trigger] list[i] == self.accounts()[k] by {
            let i = index_of(e, k);
            lemma_entry(e, i);
            assert(list[i] == self.accounts()[k]);
        }
    }

    /// An empty ledger: no account and no transaction, by key or in order.
    pub fn new() -> (r: Self)
        ensures
            r.wf(),
            r.accounts() == Map::<Seq<char>, AccountView>::empty(),
            r.transactions() == Map::<Seq<char>, TransactionView>::empty(),
            r.account_list() == Seq::<AccountView>::empty(),
            r.transaction_list() == Seq::<TransactionView>::empty(),
    {
        let r = StateStore { accounts: StringMap::new(), transactions: StringMap::new() };
        assert(r.accounts() =~= Map::<Seq<char>, AccountView>::empty());
        assert(r.transactions() =~= Map::<Seq<char>, TransactionView>::empty());
        assert(r.account_list() =~= Seq::<AccountView>::empty());
        assert(r.transaction_list() =~= Seq::<TransactionView>::empty());
        r
    }

    /// The account of `address`. An address without an account gets one, with
    /// nothing on it.
    pub fn get_or_create_account(&mut self, address: &str) -> (r: Account)
        requires
            old(self).wf(),
        ensures
            final(self).wf(),
            final(self).transactions() == old(self).transactions(),
            final(self).accounts().contains_key(address@),
            final(self).accounts()[address@] == r@,
            old(self).accounts().contains_key(address@) ==> final(self).accounts() == old(self).accounts(),
            !old(self).accounts().contains_key(address@) ==> final(self).accounts() == old(self).accounts().insert(
                address@,
                AccountView { address: address@, balance: 0, nonce: 0 },
            ),
    {
        match self.accounts.get(address) {
            Some(a) => copy_account(a),
            None => {
                let fresh = Account { address: address.to_owned(), balance: 0, nonce: 0 };
                let r = copy_account(&fresh);
                self.accounts.insert(address.to_owned(), fresh);
                assert(self.accounts() =~= old(self).accounts().insert(
                    address@,
                    AccountView { address: address@, balance: 0, nonce: 0 },
                ));
                r
            },
        }
    }

    /// The balance of `address`, if it has an account.
    pub fn get_balance(&self, address: &str) -> (r: Option<u64>)
        requires
            self.wf(),
        ensures
            r == (if self.accounts().contains_key(address@) {
                Some(self.accounts()[address@].balance)
            } else {
                None
            }),
    {
        match self.accounts.get(address) {
            Some(a) => Some(a.balance),
            None => None,
        }
    }

    /// Sets the balance of `address`. An address without an account gets
    /// one; an account that is there keeps its nonce.
    pub fn set_balance(&mut self, address: &str, balance: u64)
        requires
            old(self).wf(),
        ensures
            final(self).wf(),
            final(self).transactions() == old(self).transactions(),
            final(self).accounts() == old(self).accounts().insert(
                address@,
                AccountView {
                    address: address@,
                    balance,
                    nonce: if old(self).accounts().contains_key(address@) {
                        old(self).accounts()[address@].nonce
                    } else {
                        0
                    },
                },
            ),
    {
        let nonce: u64 = match self.accounts.get(address) {
            Some(a) => a.nonce,
            None => 0,
        };
        let account = Account { address: address.to_owned(), balance, nonce };
        self.accounts.insert(address.to_owned(), account);
        assert(self.accounts() =~= old(self).accounts().insert(
            address@,
            AccountView { address: address@, balance, nonce },
        ));
    }

    /// Moves `amount` from one account to another and records the transfer
    /// under `txid`, as pending. The sender pays first, then the receiver is
    /// paid, so a transfer to oneself leaves the balance as it was. A
    /// transfer that cannot be made changes nothing.
    pub fn transfer_with(
        &mut self,
        from: &str,
        to: &str,
        amount: u64,
        txid: String,
        timestamp: u64,
    ) -> (r: Result<Transaction, String>)
        requires
            old(self).wf(),
        ensures
            final(self).wf(),
            match transfer_fault(old(self).accounts(), from@, to@, amount) {
                Some(why) => r matches Err(e) && e@ == why && final(self).accounts() == old(self).accounts() && final(self).transactions() == old(self).transactions(),
                None => r matches Ok(tx) && tx@ == (TransactionView {
                    txid: txid@,
                    from: from@,
                    to: to@,
                    amount,
                    timestamp,
                    status: TransactionStatus::Pending,
                }) && final(self).accounts() == after_transfer(
                    old(self).accounts(),
                    from@,
                    to@,
                    amount,
                ) && final(self).transactions() == old(self).transactions().insert(txid@, tx@),
            },
    {
        let (paid, sender_nonce): (u64, u64) = match self.accounts.get(from) {
            None => {
                return Err("Sender account not found".to_owned());
            },
            Some(sender) => {
                if sender.balance < amount {
                    return Err("Insufficient balance".to_owned());
                }
                (
                    sender.balance - amount,
                    if sender.nonce == u64::MAX {
                        0
                    } else {
                        sender.nonce + 1
                    },
                )
            },
        };
        if !same_text(from, to) {
            match self.accounts.get(to) {
                Some(receiver) => {
                    if receiver.balance > u64::MAX - amount {
                        return Err("Receiver balance overflow".to_owned());
                    }
                },
                None => {},
            }
        }
        let sender = Account { address: from.to_owned(), balance: paid, nonce: sender_nonce };
        self.accounts.insert(from.to_owned(), sender);
        assert(self.accounts() =~= after_debit(old(self).accounts(), from@, amount));
        let ghost debited = self.accounts();
        let receiver = match self.accounts.get(to) {
            Some(a) => Account { address: to.to_owned(), balance: a.balance + amount, nonce: a.nonce },
            None => Account { address: to.to_owned(), balance: amount, nonce: 0 },
        };
        self.accounts.insert(to.to_owned(), receiver);
        assert(self.accounts() =~= after_credit(debited, to@, amount));
        let tx = Transaction {
            txid,
            from: from.to_owned(),
            to: to.to_owned(),
            amount,
            timestamp,
            status: TransactionStatus::Pending,
        };
        self.transactions.insert(tx.txid.clone(), copy_transaction(&tx));
        assert(self.transactions() =~= old(self).transactions().insert(txid@, tx@));
        Ok(tx)
    }

    /// Moves `amount` from one account to another, and records the transfer
    /// under a fresh random id with the time of the system clock.
    pub fn transfer(&mut self, from: &str, to: &str, amount: u64) -> (r: Result<Transaction, String>)
        requires
            old(self).wf(),
        ensures
            final(self).wf(),
            match transfer_fault(old(self).accounts(), from@, to@, amount) {
                Some(why) => r matches Err(e) && e@ == why && final(self).accounts() == old(self).accounts() && final(self).transactions() == old(self).transactions(),
                None => r matches Ok(tx) && tx@.from == from@ && tx@.to == to@ && tx@.amount
                    == amount && tx@.status == TransactionStatus::Pending && final(self).accounts()
                    == after_transfer(old(self).accounts(), from@, to@, amount) && final(self).transactions() == old(self).transactions().insert(tx@.txid, tx@),
            },
    {
        let txid = fresh_txid();
        let timestamp = unix_now();
        self.transfer_with(from, to, amount, txid, timestamp)
    }

    /// The transaction recorded under `txid`, if there is one.
    pub fn get_transaction(&self, txid: &str) -> (r: Option<Transaction>)
        requires
            self.wf(),
        ensures
            match r {
                Some(tx) => self.transactions().contains_key(txid@) && self.transactions()[txid@]
                    == tx@,
                None => !self.transactions().contains_key(txid@),
            },
    {
        match self.transactions.get(txid) {
            Some(tx) => Some(copy_transaction(tx)),
            None => None,
        }
    }

    /// Marks the transaction recorded under `txid` as confirmed.
    pub fn confirm_transaction(&mut self, txid: &str) -> (r: Result<(), String>)
        requires
            old(self).wf(),
        ensures
            final(self).wf(),
            final(self).accounts() == old(self).accounts(),
            match r {
                Ok(_) => old(self).transactions().contains_key(txid@) && final(self).transactions()
                    == old(self).transactions().insert(
                    txid@,
                    TransactionView {
                        status: TransactionStatus::Confirmed,
                        ..old(self).transactions()[txid@]
                    },
                ),
                Err(e) => !old(self).transactions().contains_key(txid@) && e@
                    == "Transaction not found"@ && final(self).transactions() == old(self).transactions(),
            },
    {
        let confirmed = match self.transactions.get(txid) {
            None => {
                return Err("Transaction not found".to_owned());
            },
            Some(tx) => Transaction {
                txid: tx.txid.clone(),
                from: tx.from.clone(),
                to: tx.to.clone(),
                amount: tx.amount,
                timestamp: tx.timestamp,
                status: TransactionStatus::Confirmed,
            },
        };
        self.transactions.insert(txid.to_owned(), confirmed);
        assert(self.transactions() =~= old(self).transactions().insert(
            txid@,
            TransactionView {
                status: TransactionStatus::Confirmed,
                ..old(self).transactions()[txid@]
            },
        ));
        Ok(())
    }

    /// The transactions that `address` sent or received, in the order in
    /// which the ledger holds them.
    pub fn get_transactions_for_address(&self, address: &str) -> (r: Vec<Transaction>)
        requires
            self.wf(),
        ensures
            r@.map_values(|t: Transaction| t@) == self.transaction_list().filter(
                |t: TransactionView| touches(t, address@),
            ),
    {
        let ghost pred = |t: TransactionView| touches(t, address@);
        let ghost list = self.transaction_list();
        let mut out: Vec<Transaction> = Vec::new();
        let mut i: usize = 0;
        proof {
            reveal(Seq::filter);
        }
        assert(list.subrange(0, 0) =~= Seq::<TransactionView>::empty());
        assert(out@.map_values(|t: Transaction| t@) =~= list.subrange(0, 0).filter(pred));
        while i < self.transactions.len()
            invariant
                list == self.transaction_list(),
                list.len() == self.transactions.spec_len(),
                pred == (|t: TransactionView| touches(t, address@)),
                i <= list.len(),
                out@.map_values(|t: Transaction| t@) == list.subrange(0, i as int).filter(pred),
            decreases list.len() - i,
        {
            let tx = self.transactions.value_at(i);
            let ghost head = list.subrange(0, i + 1);
            proof {
                reveal(Seq::filter);
                assert(head.drop_last() =~= list.subrange(0, i as int));
                assert(head.last() == tx@);
            }
            if same_text(tx.from.as_str(), address) || same_text(tx.to.as_str(), address) {
                let ghost before = out@;
                out.push(copy_transaction(tx));
                assert(pred(head.last()));
                assert(out@.map_values(|t: Transaction| t@) =~= before.map_values(
                    |t: Transaction| t@,
                ).push(tx@));
            } else {
                assert(!pred(head.last()));
            }
            assert(head.filter(pred) == if pred(head.last()) {
                head.drop_last().filter(pred).push(head.last())
            } else {
                head.drop_last().filter(pred)
            });
            i = i + 1;
        }
        assert(list.subrange(0, i as int) =~= list);
        out
    }

    /// Every account, in the order in which the ledger holds them.
    pub fn get_all_accounts(&self) -> (r: Vec<Account>)
        requires
            self.wf(),
        ensures
            r@.map_values(|a: Account| a@) == self.account_list(),
    {
        let ghost list = self.account_list();
        let mut out: Vec<Account> = Vec::new();
        let mut i: usize = 0;
        while i < self.accounts.len()
            invariant
                list == self.account_list(),
                list.len() == self.accounts.spec_len(),
                i <= list.len(),
                out@.map_values(|a: Account| a@) =~= list.subrange(0, i as int),
            decreases list.len() - i,
        {
            let a = self.accounts.value_at(i);
            let ghost before = out@;
            out.push(copy_account(a));
            assert(list[i as int] == a@);
            assert(out@.map_values(|a: Account| a@) =~= before.map_values(|a: Account| a@).push(
                a@,
            ));
            i = i + 1;
            assert(list.subrange(0, i as int) =~= list.subrange(0, i - 1).push(a@));
        }
        assert(list.subrange(0, i as int) =~= list);
        out
    }
}

impl Default for StateStore {
    /// An empty ledger: no account and no transaction, by key or in order.
    fn default() -> (r: Self)
        ensures
            r.wf(),
            r.accounts() == Map::<Seq<char>, AccountView>::empty(),
            r.transactions() == Map::<Seq<char>, TransactionView>::empty(),
            r.account_list() == Seq::<AccountView>::empty(),
            r.transaction_list() == Seq::<TransactionView>::empty(),
    {
        StateStore::new()
    }
}

} // verus!
