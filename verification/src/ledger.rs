//! The ledger service: immutable transaction records, created complete,
//! visible to the callers they name as sender or receiver.

use vstd::prelude::*;
use crate::auth::Caller;
use crate::provider::{new_record_id, now_millis};
use crate::store::{lookup, owned_records, Record, RecordStore};
use crate::text::{clone_opt_string, str_eq};

verus! {

/// A transaction's status. Transactions are created settled; no pending
/// phase is modeled.
#[derive(Debug, Clone, Copy, PartialEq, Eq, Structural)]
pub enum TransactionStatus {
    Completed,
}

/// An immutable transfer record. Visible to a caller exactly when the
/// caller is named as sender or receiver.
#[derive(Debug)]
pub struct Transaction {
    pub id: String,
    pub asset_id: String,
    pub asset_name: Option<String>,
    pub kind: String,
    pub from: Option<String>,
    pub to: Option<String>,
    pub status: TransactionStatus,
    pub timestamp_millis: i64,
    /// Opaque attachment, carried as raw text and never interpreted.
    pub extra: Option<String>,
}

/// What a client asks a transaction to be created from.
#[derive(Debug)]
pub struct CreateTransactionRequest {
    pub asset_id: String,
    pub asset_name: Option<String>,
    pub kind: String,
    pub from: Option<String>,
    pub to: Option<String>,
    pub extra: Option<String>,
}

/// Whether the caller is named as the transaction's sender or receiver.
pub open spec fn involves(t: Transaction, caller: Seq<char>) -> bool {
    ||| (t.from matches Some(f) && f@ == caller)
    ||| (t.to matches Some(r) && r@ == caller)
}

impl Record for Transaction {
    open spec fn rec_id(&self) -> Seq<char> {
        self.id@
    }

    open spec fn rec_owned_by(&self, caller: Seq<char>) -> bool {
        involves(*self, caller)
    }

    open spec fn rec_completed(&self) -> Self {
        Transaction { status: TransactionStatus::Completed, ..*self }
    }

    proof fn lemma_completed_keeps_identity(&self) {
    }

    fn id_matches(&self, id: &str) -> (b: bool) {
        str_eq(self.id.as_str(), id)
    }

    fn is_owned_by(&self, caller: &str) -> (b: bool) {
        let named_from = match &self.from {
            Some(f) => str_eq(f.as_str(), caller),
            None => false,
        };
        let named_to = match &self.to {
            Some(r) => str_eq(r.as_str(), caller),
            None => false,
        };
        named_from || named_to
    }

    fn duplicate(&self) -> (r: Self) {
        Transaction {
            id: self.id.clone(),
            asset_id: self.asset_id.clone(),
            asset_name: clone_opt_string(&self.asset_name),
            kind: self.kind.clone(),
            from: clone_opt_string(&self.from),
            to: clone_opt_string(&self.to),
            status: self.status,
            timestamp_millis: self.timestamp_millis,
            extra: clone_opt_string(&self.extra),
        }
    }

    fn complete(&mut self) {
        self.status = TransactionStatus::Completed;
    }
}

/// The ledger service: a store of transactions and the operations the
/// handlers expose over it.
pub struct LedgerService {
    store: RecordStore<Transaction>,
}

impl View for LedgerService {
    type V = Seq<Transaction>;

    closed spec fn view(&self) -> Seq<Transaction> {
        self.store@
    }
}

impl LedgerService {
    /// A service over an empty store.
    pub fn new() -> (s: Self)
        ensures
            s@ == Seq::<Transaction>::empty(),
    {
        LedgerService { store: RecordStore::new() }
    }

    /// How many transactions the store holds, over all callers.
    pub fn count(&self) -> (n: usize)
        ensures
            n == self@.len(),
    {
        self.store.len()
    }

    /// Builds a transaction from the request, appends it and returns it.
    /// The sender defaults to the caller when the request names none; the
    /// status is fixed at completed on creation.
    pub fn create_transaction(&mut self, caller: &Caller, req: &CreateTransactionRequest) -> (t:
        Transaction)
        ensures
            final(self)@ == old(self)@.push(t),
            t.id@.len() == 36,
            t.asset_id == req.asset_id,
            t.asset_name == req.asset_name,
            t.kind == req.kind,
            req.from is Some ==> t.from == req.from,
            req.from is None ==> t.from == Some(caller.id),
            t.to == req.to,
            t.status == TransactionStatus::Completed,
            t.extra == req.extra,
    {
        let from = match &req.from {
            Some(f) => Some(f.clone()),
            None => Some(caller.id.clone()),
        };
        let t = Transaction {
            id: new_record_id(),
            asset_id: req.asset_id.clone(),
            asset_name: clone_opt_string(&req.asset_name),
            kind: req.kind.clone(),
            from,
            to: clone_opt_string(&req.to),
            status: TransactionStatus::Completed,
            timestamp_millis: now_millis(),
            extra: clone_opt_string(&req.extra),
        };
        let stored = t.duplicate();
        self.store.append(stored);
        t
    }

    /// All transactions that name the caller, in insertion order.
    pub fn list_transactions(&self, caller: &Caller) -> (out: Vec<Transaction>)
        ensures
            out@ == owned_records(self@, caller.id@),
    {
        self.store.list(caller.id.as_str())
    }

    /// The first transaction with this identifier that names the caller,
    /// or nothing — whether the identifier is absent or merely unowned.
    pub fn get_transaction(&self, caller: &Caller, id: &str) -> (out: Option<Transaction>)
        ensures
            out == lookup(self@, caller.id@, id@),
    {
        self.store.get(caller.id.as_str(), id)
    }
}

/// Ownership isolation: a caller's listing never contains a transaction
/// whose sender and receiver are both someone else.
pub proof fn lemma_listing_ownership_isolation(
    s: Seq<Transaction>,
    caller: Seq<char>,
    i: int,
)
    requires
        0 <= i < owned_records(s, caller).len(),
    ensures
        involves(owned_records(s, caller)[i], caller),
{
    crate::store::lemma_listing_owned(s, caller, i);
}

} // verus!
