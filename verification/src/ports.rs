//! What the engine asks of its two stores, and the errors they raise.

use crate::amount::{can_add, can_sub, AmountInMinorUnits};
use crate::ledger::{fits, processed, Ledger};
use crate::model::{
    new_client, Client, ClientId, ClientView, Transaction, TransactionId, TransactionStatus,
};
use vstd::prelude::*;
use vstd::std_specs::convert::FromSpecImpl;

verus! {

/// `anyhow::Error`: the failure of a storage backend. It is carried through
/// untouched, and nothing is known of what it holds.
#[verifier::external_type_specification]
#[verifier::external_body]
pub struct ExAdapterFailure(anyhow::Error);

/// An error of the client store.
#[derive(Debug)]
pub enum ClientRepositoryErrors {
    /// The backend failed, for instance on a lost connection.
    AdapterError(anyhow::Error),
    /// No record exists for this client.
    ClientNotFound(ClientId),
}

/// An error of the transaction store.
#[derive(Debug)]
pub enum TransactionRepositoryErrors {
    /// Nothing is recorded under this transaction number.
    TransactionNotFound(TransactionId),
    /// The backend failed, for instance on a lost connection.
    AdapterError(anyhow::Error),
}

/// An error of the engine: that of the store which raised it, unchanged.
#[derive(Debug)]
pub enum EngineErrors {
    ClientError(ClientRepositoryErrors),
    TransactionError(TransactionRepositoryErrors),
}

/// What processing one transaction returns.
pub type EngineResult = Result<(), EngineErrors>;

impl From<ClientRepositoryErrors> for EngineErrors {
    fn from(e: ClientRepositoryErrors) -> (r: Self)
        ensures
            r == EngineErrors::ClientError(e),
    {
        EngineErrors::ClientError(e)
    }
}

impl FromSpecImpl<ClientRepositoryErrors> for EngineErrors {
    open spec fn obeys_from_spec() -> bool {
        true
    }

    open spec fn from_spec(e: ClientRepositoryErrors) -> Self {
        EngineErrors::ClientError(e)
    }
}

impl From<TransactionRepositoryErrors> for EngineErrors {
    fn from(e: TransactionRepositoryErrors) -> (r: Self)
        ensures
            r == EngineErrors::TransactionError(e),
    {
        EngineErrors::TransactionError(e)
    }
}

impl FromSpecImpl<TransactionRepositoryErrors> for EngineErrors {
    open spec fn obeys_from_spec() -> bool {
        true
    }

    open spec fn from_spec(e: TransactionRepositoryErrors) -> Self {
        EngineErrors::TransactionError(e)
    }
}

/// A change to one client's balances. Each kind names the two balances it
/// moves and by how much.
#[derive(Copy, Clone, Debug)]
pub enum ClientUpdate {
    Deposit { available_increase: AmountInMinorUnits, total_increase: AmountInMinorUnits },
    Withdrawal { available_decrease: AmountInMinorUnits, total_decrease: AmountInMinorUnits },
    Dispute { available_decrease: AmountInMinorUnits, held_increase: AmountInMinorUnits },
    Resolve { available_increase: AmountInMinorUnits, held_decrease: AmountInMinorUnits },
    /// Also locks the account.
    Chargeback { held_decrease: AmountInMinorUnits, total_decrease: AmountInMinorUnits },
}

/// A change to one client's balances as mathematical integers: what is
/// added to each balance, and whether the account is locked.
pub struct BalanceChange {
    pub available: int,
    pub held: int,
    pub total: int,
    pub locks: bool,
}

impl View for ClientUpdate {
    type V = BalanceChange;

    open spec fn view(&self) -> BalanceChange {
        match *self {
            ClientUpdate::Deposit { available_increase, total_increase } => BalanceChange {
                available: available_increase@,
                held: 0,
                total: total_increase@,
                locks: false,
            },
            ClientUpdate::Withdrawal { available_decrease, total_decrease } => BalanceChange {
                available: -available_decrease@,
                held: 0,
                total: -total_decrease@,
                locks: false,
            },
            ClientUpdate::Dispute { available_decrease, held_increase } => BalanceChange {
                available: -available_decrease@,
                held: held_increase@,
                total: 0,
                locks: false,
            },
            ClientUpdate::Resolve { available_increase, held_decrease } => BalanceChange {
                available: available_increase@,
                held: -held_decrease@,
                total: 0,
                locks: false,
            },
            ClientUpdate::Chargeback { held_decrease, total_decrease } => BalanceChange {
                available: 0,
                held: -held_decrease@,
                total: -total_decrease@,
                locks: true,
            },
        }
    }
}

/// The balances of `c` after the change `d`. A lock, once set, stays.
pub open spec fn apply_change(c: ClientView, d: BalanceChange) -> ClientView {
    ClientView {
        id: c.id,
        available: c.available + d.available,
        held: c.held + d.held,
        total: c.total + d.total,
        locked: c.locked || d.locks,
    }
}

/// The balances of `c` after the update `u`.
pub open spec fn apply_update(c: ClientView, u: ClientUpdate) -> ClientView {
    apply_change(c, u@)
}

/// Whether the update `u` can be computed exactly on the balances of `c`:
/// whether each of the two sums or differences it asks for can.
pub open spec fn update_fits(c: ClientView, u: ClientUpdate) -> bool {
    match u {
        ClientUpdate::Deposit { available_increase, total_increase } => can_add(
            c.available,
            available_increase@,
        ) && can_add(c.total, total_increase@),
        ClientUpdate::Withdrawal { available_decrease, total_decrease } => can_sub(
            c.available,
            available_decrease@,
        ) && can_sub(c.total, total_decrease@),
        ClientUpdate::Dispute { available_decrease, held_increase } => can_sub(
            c.available,
            available_decrease@,
        ) && can_add(c.held, held_increase@),
        ClientUpdate::Resolve { available_increase, held_decrease } => can_add(
            c.available,
            available_increase@,
        ) && can_sub(c.held, held_decrease@),
        ClientUpdate::Chargeback { held_decrease, total_decrease } => can_sub(
            c.held,
            held_decrease@,
        ) && can_sub(c.total, total_decrease@),
    }
}

/// The record that an update of client `id` starts from: the stored one, or
/// an untouched one where the client is new.
pub open spec fn client_or_new(clients: Map<ClientId, ClientView>, id: ClientId) -> ClientView {
    if clients.contains_key(id) {
        clients[id]
    } else {
        new_client(id)
    }
}

/// Whether `listed` holds each record of `clients` exactly once and
/// nothing else.
pub open spec fn lists_all(listed: Seq<Client>, clients: Map<ClientId, ClientView>) -> bool {
    &&& forall|i: int|
        0 <= i < listed.len() ==> clients.contains_key(#[trigger] listed[i].id) && clients[listed[i].id]
            == listed[i]@
    &&& forall|i: int, j: int|
        0 <= i < j < listed.len() ==> #[trigger] listed[i].id != #[trigger] listed[j].id
    &&& forall|id: ClientId| #[trigger]
        clients.contains_key(id) ==> exists|i: int| 0 <= i < listed.len() && #[trigger] listed[i].id == id
}

impl Client {
    /// Whether `update` can be computed exactly on this record.
    pub fn can_apply(&self, update: &ClientUpdate) -> (r: bool)
        ensures
            r == update_fits(self@, *update),
    {
        match update {
            ClientUpdate::Deposit { available_increase, total_increase } => {
                self.available.can_add(available_increase) && self.total.can_add(total_increase)
            },
            ClientUpdate::Withdrawal { available_decrease, total_decrease } => {
                self.available.can_sub(available_decrease) && self.total.can_sub(total_decrease)
            },
            ClientUpdate::Dispute { available_decrease, held_increase } => {
                self.available.can_sub(available_decrease) && self.held.can_add(held_increase)
            },
            ClientUpdate::Resolve { available_increase, held_decrease } => {
                self.available.can_add(available_increase) && self.held.can_sub(held_decrease)
            },
            ClientUpdate::Chargeback { held_decrease, total_decrease } => {
                self.held.can_sub(held_decrease) && self.total.can_sub(total_decrease)
            },
        }
    }

    /// Moves the two balances that `update` names; a chargeback also locks
    /// the account. This is the one place where balances are computed.
    pub fn apply(&mut self, update: ClientUpdate)
        requires
            update_fits(old(self)@, update),
        ensures
            final(self)@ == apply_update(old(self)@, update),
    {
        match update {
            ClientUpdate::Deposit { available_increase, total_increase } => {
                self.available = self.available + available_increase;
                self.total = self.total + total_increase;
            },
            ClientUpdate::Withdrawal { available_decrease, total_decrease } => {
                self.available = self.available - available_decrease;
                self.total = self.total - total_decrease;
            },
            ClientUpdate::Dispute { available_decrease, held_increase } => {
                self.available = self.available - available_decrease;
                self.held = self.held + held_increase;
            },
            ClientUpdate::Resolve { available_increase, held_decrease } => {
                self.available = self.available + available_increase;
                self.held = self.held - held_decrease;
            },
            ClientUpdate::Chargeback { held_decrease, total_decrease } => {
                self.held = self.held - held_decrease;
                self.total = self.total - total_decrease;
                self.locked = true;
            },
        }
    }
}

/// The store of client records.
///
/// `clients` is what the store holds. A store that is `reliable` never
/// raises an adapter error; of any other store the contracts say what holds
/// whether it does or not. A call that returns an error has changed nothing.
///
/// The contracts are what an implementation owes the engine. One written
/// in ordinary Rust defines the four operations and leaves `clients` and
/// `reliable` as they are.
pub trait ClientRepository {
    /// The records held, by client. A store that gives no account of
    /// itself is taken to hold some records that nothing is known of.
    open spec fn clients(&self) -> Map<ClientId, ClientView> {
        arbitrary()
    }

    /// Whether the store never fails on its backend. A store that gives no
    /// account of itself is not relied on.
    open spec fn reliable(&self) -> bool {
        false
    }

    /// Every record, in no particular order.
    fn get_all(&self) -> (r: Result<Vec<Client>, ClientRepositoryErrors>)
        ensures
            match r {
                Ok(listed) => lists_all(listed@, self.clients()),
                Err(e) => e is AdapterError && !self.reliable(),
            },
    ;

    /// The record of one client, or `ClientNotFound` where there is none.
    fn get(&self, client_id: &ClientId) -> (r: Result<Client, ClientRepositoryErrors>)
        ensures
            match r {
                Ok(c) => self.clients().contains_key(*client_id) && self.clients()[*client_id]
                    == c@,
                Err(ClientRepositoryErrors::ClientNotFound(id)) => id == *client_id
                    && !self.clients().contains_key(*client_id),
                Err(ClientRepositoryErrors::AdapterError(_)) => !self.reliable(),
            },
    ;

    /// Stores a record under its own client number, over any earlier one.
    fn insert(&mut self, client: Client) -> (r: Result<(), ClientRepositoryErrors>)
        ensures
            final(self).reliable() == old(self).reliable(),
            match r {
                Ok(_) => final(self).clients() == old(self).clients().insert(client.id, client@),
                Err(e) => e is AdapterError && !old(self).reliable() && final(self).clients()
                    == old(self).clients(),
            },
    ;

    /// Applies a change to one client's balances, starting from an
    /// untouched record where the client is new.
    fn update(&mut self, id: &ClientId, update: ClientUpdate) -> (r: Result<
        (),
        ClientRepositoryErrors,
    >)
        requires
            update_fits(client_or_new(old(self).clients(), *id), update),
        ensures
            final(self).reliable() == old(self).reliable(),
            match r {
                Ok(_) => final(self).clients() == old(self).clients().insert(
                    *id,
                    apply_update(client_or_new(old(self).clients(), *id), update),
                ),
                Err(e) => e is AdapterError && !old(self).reliable() && final(self).clients()
                    == old(self).clients(),
            },
    ;
}

/// The store of what is recorded of each transaction: its status and its
/// amount, kept apart.
///
/// `reliable` and errors are as in the client store.
pub trait TransactionsRepository {
    /// The status recorded, by transaction. A store that gives no account
    /// of itself is taken to hold some statuses that nothing is known of.
    open spec fn statuses(&self) -> Map<TransactionId, TransactionStatus> {
        arbitrary()
    }

    /// The amount recorded, by transaction, in ten-thousandths; as with the
    /// statuses.
    open spec fn values(&self) -> Map<TransactionId, int> {
        arbitrary()
    }

    /// Whether the store never fails on its backend. A store that gives no
    /// account of itself is not relied on.
    open spec fn reliable(&self) -> bool {
        false
    }

    /// The status of a transaction, or `TransactionNotFound`.
    fn get_transaction_status(&self, transaction_id: &TransactionId) -> (r: Result<
        TransactionStatus,
        TransactionRepositoryErrors,
    >)
        ensures
            match r {
                Ok(s) => self.statuses().contains_key(*transaction_id) && self.statuses()[*transaction_id]
                    == s,
                Err(TransactionRepositoryErrors::TransactionNotFound(id)) => id == *transaction_id
                    && !self.statuses().contains_key(*transaction_id),
                Err(TransactionRepositoryErrors::AdapterError(_)) => !self.reliable(),
            },
    ;

    /// Records a status, over any earlier one.
    fn store_transaction_status(
        &mut self,
        transaction_id: TransactionId,
        transaction_status: TransactionStatus,
    ) -> (r: Result<(), TransactionRepositoryErrors>)
        ensures
            final(self).reliable() == old(self).reliable(),
            final(self).values() == old(self).values(),
            match r {
                Ok(_) => final(self).statuses() == old(self).statuses().insert(
                    transaction_id,
                    transaction_status,
                ),
                Err(e) => e is AdapterError && !old(self).reliable() && final(self).statuses()
                    == old(self).statuses(),
            },
    ;

    /// The amount of a transaction, or `TransactionNotFound`.
    fn get_transaction_value(&self, transaction_id: &TransactionId) -> (r: Result<
        AmountInMinorUnits,
        TransactionRepositoryErrors,
    >)
        ensures
            match r {
                Ok(a) => self.values().contains_key(*transaction_id) && self.values()[*transaction_id]
                    == a@,
                Err(TransactionRepositoryErrors::TransactionNotFound(id)) => id == *transaction_id
                    && !self.values().contains_key(*transaction_id),
                Err(TransactionRepositoryErrors::AdapterError(_)) => !self.reliable(),
            },
    ;

    /// Records an amount, over any earlier one.
    fn store_transaction_value(
        &mut self,
        transaction_id: TransactionId,
        amount: AmountInMinorUnits,
    ) -> (r: Result<(), TransactionRepositoryErrors>)
        ensures
            final(self).reliable() == old(self).reliable(),
            final(self).statuses() == old(self).statuses(),
            match r {
                Ok(_) => final(self).values() == old(self).values().insert(
                    transaction_id,
                    amount@,
                ),
                Err(e) => e is AdapterError && !old(self).reliable() && final(self).values()
                    == old(self).values(),
            },
    ;
}

/// The engine: it takes the transactions one at a time and answers for the
/// clients' records.
pub trait Engine {
    /// What the engine's stores hold. An engine that gives no account of
    /// itself is taken to hold a ledger that nothing is known of.
    open spec fn ledger(&self) -> Ledger {
        arbitrary()
    }

    /// Whether neither store ever fails on its backend. An engine that
    /// gives no account of itself is not relied on.
    open spec fn reliable(&self) -> bool {
        false
    }

    /// Processes one transaction as the rules of the ledger say. Nothing
    /// that was written before a store failed is taken back.
    fn process_transaction(&mut self, transaction: Transaction) -> (r: EngineResult)
        requires
            fits(old(self).ledger(), transaction),
        ensures
            final(self).reliable() == old(self).reliable(),
            processed(
                old(self).ledger(),
                old(self).reliable(),
                transaction,
                r,
                final(self).ledger(),
            ),
    ;

    /// Every client's record, in no particular order; or the failure of the
    /// client store, as a client error.
    fn get_clients(&self) -> (r: Result<Vec<Client>, EngineErrors>)
        ensures
            match r {
                Ok(listed) => lists_all(listed@, self.ledger().clients),
                Err(e) => e matches EngineErrors::ClientError(
                    ClientRepositoryErrors::AdapterError(_),
                ) && !self.reliable(),
            },
    ;
}

/// The two store types an engine is built over.
pub trait EngineConfig {
    type ClientRepository: ClientRepository + Send + Sync;

    type TransactionRepository: TransactionsRepository + Send + Sync;
}

} // verus!
