//! The two stores kept in memory, in hash maps keyed by number.

use crate::amount::AmountInMinorUnits;
use crate::engine::TransactionEngine;
use crate::ledger::Ledger;
use crate::model::{Client, ClientId, ClientView, TransactionId, TransactionStatus};
use crate::ports::{
    apply_update, client_or_new, ClientRepository, ClientRepositoryErrors, ClientUpdate, Engine,
    EngineConfig, TransactionRepositoryErrors, TransactionsRepository,
};
use std::collections::HashMap;
use vstd::prelude::*;
use vstd::std_specs::iter::IteratorSpec;

verus! {

broadcast use vstd::std_specs::hash::group_hash_axioms;

/// The engine's stores, both in memory.
#[derive(Default)]
pub struct InMemoryEngineDeps;

impl EngineConfig for InMemoryEngineDeps {
    type ClientRepository = InMemoryClientRepository;

    type TransactionRepository = InMemoryTransactionRepository;
}

/// Client records in a hash map, each filed under its client number. The
/// number a record is filed under is the one it is handed out with.
pub struct InMemoryClientRepository {
    records: HashMap<u16, Client>,
}

impl InMemoryClientRepository {
    /// A store with no record.
    pub fn new() -> (r: Self)
        ensures
            r.clients() == Map::<ClientId, ClientView>::empty(),
    {
        let r = InMemoryClientRepository { records: HashMap::new() };
        assert(r.clients() =~= Map::<ClientId, ClientView>::empty());
        r
    }
}

impl Default for InMemoryClientRepository {
    fn default() -> (r: Self)
        ensures
            r.clients() == Map::<ClientId, ClientView>::empty(),
    {
        InMemoryClientRepository::new()
    }
}

impl ClientRepository for InMemoryClientRepository {
    closed spec fn clients(&self) -> Map<ClientId, ClientView> {
        Map::new(
            |id: ClientId| self.records@.contains_key(id.0),
            |id: ClientId| ClientView { id, ..self.records@[id.0]@ },
        )
    }

    open spec fn reliable(&self) -> bool {
        true
    }

    fn get_all(&self) -> (r: Result<Vec<Client>, ClientRepositoryErrors>) {
        let mut listed: Vec<Client> = Vec::new();
        let ghost pairs = self.records.iter().remaining();
        for entry in it: self.records.iter()
            invariant
                it.seq() == pairs,
                listed@.len() == it.index(),
                forall|j: int|
                    0 <= j < listed@.len() ==> listed@[j] == (Client {
                        id: ClientId(*(#[trigger] pairs[j]).0),
                        ..*pairs[j].1
                    }),
        {
            listed.push(Client { id: ClientId(*entry.0), ..*entry.1 });
        }
        proof {
            assert(listed@.len() == pairs.len());
            assert forall|id: ClientId| #[trigger] self.clients().contains_key(id) implies exists|
                i: int,
            |
                0 <= i < listed@.len() && #[trigger] listed@[i].id == id by {
                let k = id.0;
                assert(self.records@.contains_key(k));
                assert(pairs.contains((&k, &self.records@[k])));
                let i = choose|i: int| 0 <= i < pairs.len() && pairs[i] == (&k, &self.records@[k]);
                assert(listed@[i].id == id);
            }
            assert forall|i: int, j: int| 0 <= i < j < listed@.len() implies #[trigger] listed@[i].id
                != #[trigger] listed@[j].id by {
                assert(self.records@.contains_key(*pairs[i].0));
                assert(self.records@.contains_key(*pairs[j].0));
                if listed@[i].id == listed@[j].id {
                    assert(*pairs[i].0 == *pairs[j].0);
                    assert(pairs[i] == pairs[j]);
                }
            }
            assert forall|i: int| 0 <= i < listed@.len() implies self.clients().contains_key(
                #[trigger] listed@[i].id,
            ) && self.clients()[listed@[i].id] == listed@[i]@ by {
                assert(self.records@.contains_key(*pairs[i].0));
            }
        }
        Ok(listed)
    }

    fn get(&self, client_id: &ClientId) -> (r: Result<Client, ClientRepositoryErrors>) {
        match self.records.get(&client_id.0) {
            Some(c) => Ok(Client { id: *client_id, ..*c }),
            None => Err(ClientRepositoryErrors::ClientNotFound(*client_id)),
        }
    }

    fn insert(&mut self, client: Client) -> (r: Result<(), ClientRepositoryErrors>)
        ensures
            r is Ok,
    {
        let _ = self.records.insert(client.id.0, client);
        assert(self.clients() =~= old(self).clients().insert(client.id, client@));
        Ok(())
    }

    fn update(&mut self, id: &ClientId, update: ClientUpdate) -> (r: Result<
        (),
        ClientRepositoryErrors,
    >)
        ensures
            r is Ok,
    {
        // a client seen for the first time starts from an untouched record
        let mut client = match self.records.get(&id.0) {
            Some(c) => *c,
            None => Client::new(*id),
        };
        client.apply(update);
        let _ = self.records.insert(id.0, client);
        assert(self.clients() =~= old(self).clients().insert(
            *id,
            apply_update(client_or_new(old(self).clients(), *id), update),
        ));
        Ok(())
    }
}

/// What is recorded of each transaction, in two hash maps: one of
/// statuses, one of amounts.
pub struct InMemoryTransactionRepository {
    transaction_status: HashMap<u32, TransactionStatus>,
    transaction_value: HashMap<u32, AmountInMinorUnits>,
}

impl InMemoryTransactionRepository {
    /// A store with nothing recorded.
    pub fn new() -> (r: Self)
        ensures
            r.statuses() == Map::<TransactionId, TransactionStatus>::empty(),
            r.values() == Map::<TransactionId, int>::empty(),
    {
        let r = InMemoryTransactionRepository {
            transaction_status: HashMap::new(),
            transaction_value: HashMap::new(),
        };
        assert(r.statuses() =~= Map::<TransactionId, TransactionStatus>::empty());
        assert(r.values() =~= Map::<TransactionId, int>::empty());
        r
    }
}

impl Default for InMemoryTransactionRepository {
    fn default() -> (r: Self)
        ensures
            r.statuses() == Map::<TransactionId, TransactionStatus>::empty(),
            r.values() == Map::<TransactionId, int>::empty(),
    {
        InMemoryTransactionRepository::new()
    }
}

impl TransactionsRepository for InMemoryTransactionRepository {
    closed spec fn statuses(&self) -> Map<TransactionId, TransactionStatus> {
        Map::new(
            |id: TransactionId| self.transaction_status@.contains_key(id.0),
            |id: TransactionId| self.transaction_status@[id.0],
        )
    }

    closed spec fn values(&self) -> Map<TransactionId, int> {
        Map::new(
            |id: TransactionId| self.transaction_value@.contains_key(id.0),
            |id: TransactionId| self.transaction_value@[id.0]@,
        )
    }

    open spec fn reliable(&self) -> bool {
        true
    }

    fn get_transaction_status(&self, transaction_id: &TransactionId) -> (r: Result<
        TransactionStatus,
        TransactionRepositoryErrors,
    >) {
        match self.transaction_status.get(&transaction_id.0) {
            Some(s) => Ok(*s),
            None => Err(TransactionRepositoryErrors::TransactionNotFound(*transaction_id)),
        }
    }

    fn store_transaction_status(
        &mut self,
        transaction_id: TransactionId,
        transaction_status: TransactionStatus,
    ) -> (r: Result<(), TransactionRepositoryErrors>)
        ensures
            r is Ok,
    {
        let _ = self.transaction_status.insert(transaction_id.0, transaction_status);
        assert(self.statuses() =~= old(self).statuses().insert(
            transaction_id,
            transaction_status,
        ));
        Ok(())
    }

    fn get_transaction_value(&self, transaction_id: &TransactionId) -> (r: Result<
        AmountInMinorUnits,
        TransactionRepositoryErrors,
    >) {
        match self.transaction_value.get(&transaction_id.0) {
            Some(a) => Ok(*a),
            None => Err(TransactionRepositoryErrors::TransactionNotFound(*transaction_id)),
        }
    }

    fn store_transaction_value(
        &mut self,
        transaction_id: TransactionId,
        amount: AmountInMinorUnits,
    ) -> (r: Result<(), TransactionRepositoryErrors>)
        ensures
            r is Ok,
    {
        let _ = self.transaction_value.insert(transaction_id.0, amount);
        assert(self.values() =~= old(self).values().insert(transaction_id, amount@));
        Ok(())
    }
}

impl Default for TransactionEngine<InMemoryEngineDeps> {
    /// An engine over empty stores in memory.
    fn default() -> (r: Self)
        ensures
            r.ledger() == Ledger::empty(),
            r.reliable(),
    {
        TransactionEngine::new(
            InMemoryClientRepository::new(),
            InMemoryTransactionRepository::new(),
        )
    }
}

} // verus!
