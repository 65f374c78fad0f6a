//! The engine: for each transaction it consults the stores, decides, and
//! writes what the rules of the ledger say.

use crate::ledger::{
    all_balanced, fits, lemma_processing_keeps_balance, lemma_processing_keeps_lock, processed,
    Ledger,
};
use crate::model::{
    Chargeback, Client, ClientId, Deposit, Dispute, Resolve, Transaction, TransactionId,
    TransactionStatus, Withdrawal,
};
use crate::ports::{
    client_or_new, ClientRepository, ClientRepositoryErrors, ClientUpdate, Engine,
    EngineConfig, EngineErrors, EngineResult, TransactionRepositoryErrors,
    TransactionsRepository,
};
use vstd::prelude::*;

verus! {

/// An engine over the two stores that `T` names.
pub struct TransactionEngine<T: EngineConfig> {
    clients: T::ClientRepository,
    transactions: T::TransactionRepository,
}

impl<T: EngineConfig> TransactionEngine<T> {
    /// An engine over the two stores given.
    pub fn new(clients: T::ClientRepository, transactions: T::TransactionRepository) -> (r: Self)
        ensures
            r.ledger() == (Ledger {
                clients: clients.clients(),
                statuses: transactions.statuses(),
                values: transactions.values(),
            }),
            r.reliable() == (clients.reliable() && transactions.reliable()),
    {
        TransactionEngine { clients, transactions }
    }

    /// The client store.
    pub fn clients(&self) -> (r: &T::ClientRepository)
        ensures
            r.clients() == self.ledger().clients,
    {
        &self.clients
    }

    /// The transaction store.
    pub fn transactions(&self) -> (r: &T::TransactionRepository)
        ensures
            r.statuses() == self.ledger().statuses,
            r.values() == self.ledger().values,
    {
        &self.transactions
    }

    /// The record a change to client `id` would start from, where the store
    /// can tell.
    fn client_or_new(&self, id: &ClientId) -> (r: Option<Client>)
        ensures
            r matches Some(c) ==> c@ == client_or_new(self.ledger().clients, *id),
            self.reliable() ==> r is Some,
    {
        match self.clients.get(id) {
            Ok(c) => Some(c),
            Err(ClientRepositoryErrors::ClientNotFound(_)) => Some(Client::new(*id)),
            Err(_) => None,
        }
    }

    /// Whether the change that a dispute, a resolution or a chargeback of
    /// `tx` makes from the status `from` can be computed exactly on its
    /// client's balances.
    fn admits_change(
        &self,
        client: &ClientId,
        tx: &TransactionId,
        from: TransactionStatus,
        kind: Transaction,
    ) -> (r: bool)
        requires
            kind.client() == *client,
            kind.tx() == *tx,
            match kind {
                Transaction::Dispute(_) => from == TransactionStatus::Processed,
                Transaction::Resolve(_) => from == TransactionStatus::Disputed,
                Transaction::Chargeback(_) => from == TransactionStatus::Disputed,
                _ => false,
            },
        ensures
            r ==> fits(self.ledger(), kind),
            self.reliable() ==> r == fits(self.ledger(), kind),
    {
        let status = match self.transactions.get_transaction_status(tx) {
            Ok(s) => s,
            Err(TransactionRepositoryErrors::TransactionNotFound(_)) => {
                return true;
            },
            Err(_) => {
                return false;
            },
        };
        if status != from {
            return true;
        }
        let amount = match self.transactions.get_transaction_value(tx) {
            Ok(a) => a,
            Err(TransactionRepositoryErrors::TransactionNotFound(_)) => {
                return true;
            },
            Err(_) => {
                return false;
            },
        };
        let update = match kind {
            Transaction::Dispute(_) => ClientUpdate::Dispute {
                available_decrease: amount,
                held_increase: amount,
            },
            Transaction::Resolve(_) => ClientUpdate::Resolve {
                available_increase: amount,
                held_decrease: amount,
            },
            _ => ClientUpdate::Chargeback { held_decrease: amount, total_decrease: amount },
        };
        match self.client_or_new(client) {
            Some(c) => c.can_apply(&update),
            None => false,
        }
    }

    /// Whether `process_transaction` can take `transaction`: whether the
    /// sums and differences that it asks for can be computed exactly.
    ///
    /// `true` is always right. With reliable stores `false` is right too;
    /// a store that fails on its backend can make the answer `false` where
    /// everything could be computed.
    pub fn admits(&self, transaction: &Transaction) -> (r: bool)
        ensures
            r ==> fits(self.ledger(), *transaction),
            self.reliable() ==> r == fits(self.ledger(), *transaction),
    {
        match transaction {
            Transaction::Deposit(d) => {
                match self.transactions.get_transaction_status(&d.tx) {
                    Err(TransactionRepositoryErrors::TransactionNotFound(_)) => {},
                    Ok(_) => {
                        return true;
                    },
                    Err(_) => {
                        return false;
                    },
                }
                let update = ClientUpdate::Deposit {
                    available_increase: d.amount,
                    total_increase: d.amount,
                };
                match self.client_or_new(&d.client) {
                    Some(c) => c.can_apply(&update),
                    None => false,
                }
            },
            Transaction::Withdrawal(w) => {
                let client = match self.clients.get(&w.client) {
                    Ok(c) => c,
                    Err(ClientRepositoryErrors::ClientNotFound(_)) => {
                        return true;
                    },
                    Err(_) => {
                        return false;
                    },
                };
                if client.available.exceeds(&w.amount) {
                    client.can_apply(
                        &ClientUpdate::Withdrawal {
                            available_decrease: w.amount,
                            total_decrease: w.amount,
                        },
                    )
                } else {
                    true
                }
            },
            Transaction::Dispute(d) => self.admits_change(
                &d.client,
                &d.tx,
                TransactionStatus::Processed,
                *transaction,
            ),
            Transaction::Resolve(r) => self.admits_change(
                &r.client,
                &r.tx,
                TransactionStatus::Disputed,
                *transaction,
            ),
            Transaction::Chargeback(c) => self.admits_change(
                &c.client,
                &c.tx,
                TransactionStatus::Disputed,
                *transaction,
            ),
        }
    }

    /// Processes `transaction` where the sums and differences that it asks
    /// for can be computed exactly, and returns `None`, with nothing changed,
    /// where one cannot.
    ///
    /// With stores that can fail on their backend `None` may also come where
    /// that could not be established. Whatever comes back, balances that
    /// agreed still agree, and an account that was locked is still locked.
    pub fn try_process_transaction(&mut self, transaction: Transaction) -> (r: Option<
        EngineResult,
    >)
        ensures
            final(self).reliable() == old(self).reliable(),
            match r {
                Some(result) => fits(old(self).ledger(), transaction) && processed(
                    old(self).ledger(),
                    old(self).reliable(),
                    transaction,
                    result,
                    final(self).ledger(),
                ),
                None => final(self).ledger() == old(self).ledger() && (old(self).reliable()
                    ==> !fits(old(self).ledger(), transaction)),
            },
            all_balanced(old(self).ledger()) ==> all_balanced(final(self).ledger()),
            forall|id: ClientId| #[trigger]
                old(self).ledger().clients.contains_key(id) && old(self).ledger().clients[id].locked
                    ==> final(self).ledger().clients.contains_key(id)
                    && final(self).ledger().clients[id].locked,
    {
        if self.admits(&transaction) {
            let result = self.process_transaction(transaction);
            proof {
                let before = old(self).ledger();
                let after = self.ledger();
                if all_balanced(before) {
                    lemma_processing_keeps_balance(
                        before,
                        old(self).reliable(),
                        transaction,
                        result,
                        after,
                    );
                }
                assert forall|id: ClientId| #[trigger]
                    before.clients.contains_key(id) && before.clients[id].locked implies after.clients.contains_key(
                    id,
                ) && after.clients[id].locked by {
                    lemma_processing_keeps_lock(
                        before,
                        old(self).reliable(),
                        transaction,
                        result,
                        after,
                        id,
                    );
                }
            }
            Some(result)
        } else {
            None
        }
    }

    fn process_deposit(&mut self, deposit: Deposit) -> (r: EngineResult)
        requires
            fits(old(self).ledger(), Transaction::Deposit(deposit)),
        ensures
            final(self).reliable() == old(self).reliable(),
            processed(
                old(self).ledger(),
                old(self).reliable(),
                Transaction::Deposit(deposit),
                r,
                final(self).ledger(),
            ),
    {
        // a number that is recorded was seen before: nothing is left to do
        match self.transactions.get_transaction_status(&deposit.tx) {
            Err(TransactionRepositoryErrors::TransactionNotFound(_)) => {
                match self.transactions.store_transaction_value(deposit.tx, deposit.amount) {
                    Ok(_) => {},
                    Err(e) => {
                        return Err(EngineErrors::TransactionError(e));
                    },
                }
                match self.transactions.store_transaction_status(
                    deposit.tx,
                    TransactionStatus::Processed,
                ) {
                    Ok(_) => {},
                    Err(e) => {
                        return Err(EngineErrors::TransactionError(e));
                    },
                }
                match self.clients.update(
                    &deposit.client,
                    ClientUpdate::Deposit {
                        available_increase: deposit.amount,
                        total_increase: deposit.amount,
                    },
                ) {
                    Ok(_) => Ok(()),
                    Err(e) => Err(EngineErrors::ClientError(e)),
                }
            },
            Ok(_) => Ok(()),
            Err(e) => Err(EngineErrors::TransactionError(e)),
        }
    }

    fn process_withdrawal(&mut self, withdrawal: Withdrawal) -> (r: EngineResult)
        requires
            fits(old(self).ledger(), Transaction::Withdrawal(withdrawal)),
        ensures
            final(self).reliable() == old(self).reliable(),
            processed(
                old(self).ledger(),
                old(self).reliable(),
                Transaction::Withdrawal(withdrawal),
                r,
                final(self).ledger(),
            ),
    {
        let client = match self.clients.get(&withdrawal.client) {
            Ok(c) => c,
            Err(e) => {
                return Err(EngineErrors::ClientError(e));
            },
        };
        // strictly more than is asked for must be available
        if client.available.exceeds(&withdrawal.amount) {
            match self.clients.update(
                &withdrawal.client,
                ClientUpdate::Withdrawal {
                    available_decrease: withdrawal.amount,
                    total_decrease: withdrawal.amount,
                },
            ) {
                Ok(_) => {},
                Err(e) => {
                    return Err(EngineErrors::ClientError(e));
                },
            }
        }
        Ok(())
    }

    fn process_dispute(&mut self, dispute: Dispute) -> (r: EngineResult)
        requires
            fits(old(self).ledger(), Transaction::Dispute(dispute)),
        ensures
            final(self).reliable() == old(self).reliable(),
            processed(
                old(self).ledger(),
                old(self).reliable(),
                Transaction::Dispute(dispute),
                r,
                final(self).ledger(),
            ),
    {
        let status = match self.transactions.get_transaction_status(&dispute.tx) {
            Ok(s) => s,
            Err(e) => {
                return Err(EngineErrors::TransactionError(e));
            },
        };
        // only a transaction in its first, processed, state can be disputed
        if status == TransactionStatus::Processed {
            let amount = match self.transactions.get_transaction_value(&dispute.tx) {
                Ok(a) => a,
                Err(e) => {
                    return Err(EngineErrors::TransactionError(e));
                },
            };
            match self.transactions.store_transaction_status(
                dispute.tx,
                TransactionStatus::Disputed,
            ) {
                Ok(_) => {},
                Err(e) => {
                    return Err(EngineErrors::TransactionError(e));
                },
            }
            match self.clients.update(
                &dispute.client,
                ClientUpdate::Dispute { available_decrease: amount, held_increase: amount },
            ) {
                Ok(_) => {},
                Err(e) => {
                    return Err(EngineErrors::ClientError(e));
                },
            }
        }
        Ok(())
    }

    fn process_resolve(&mut self, resolve: Resolve) -> (r: EngineResult)
        requires
            fits(old(self).ledger(), Transaction::Resolve(resolve)),
        ensures
            final(self).reliable() == old(self).reliable(),
            processed(
                old(self).ledger(),
                old(self).reliable(),
                Transaction::Resolve(resolve),
                r,
                final(self).ledger(),
            ),
    {
        let state = match self.transactions.get_transaction_status(&resolve.tx) {
            Ok(s) => s,
            Err(e) => {
                return Err(EngineErrors::TransactionError(e));
            },
        };
        // only a disputed transaction can be resolved
        if state == TransactionStatus::Disputed {
            let amount = match self.transactions.get_transaction_value(&resolve.tx) {
                Ok(a) => a,
                Err(e) => {
                    return Err(EngineErrors::TransactionError(e));
                },
            };
            match self.transactions.store_transaction_status(
                resolve.tx,
                TransactionStatus::Resolved,
            ) {
                Ok(_) => {},
                Err(e) => {
                    return Err(EngineErrors::TransactionError(e));
                },
            }
            match self.clients.update(
                &resolve.client,
                ClientUpdate::Resolve { available_increase: amount, held_decrease: amount },
            ) {
                Ok(_) => {},
                Err(e) => {
                    return Err(EngineErrors::ClientError(e));
                },
            }
        }
        Ok(())
    }

    fn process_chargeback(&mut self, chargeback: Chargeback) -> (r: EngineResult)
        requires
            fits(old(self).ledger(), Transaction::Chargeback(chargeback)),
        ensures
            final(self).reliable() == old(self).reliable(),
            processed(
                old(self).ledger(),
                old(self).reliable(),
                Transaction::Chargeback(chargeback),
                r,
                final(self).ledger(),
            ),
    {
        let state = match self.transactions.get_transaction_status(&chargeback.tx) {
            Ok(s) => s,
            Err(e) => {
                return Err(EngineErrors::TransactionError(e));
            },
        };
        // only a disputed transaction can be charged back
        if state == TransactionStatus::Disputed {
            let amount = match self.transactions.get_transaction_value(&chargeback.tx) {
                Ok(a) => a,
                Err(e) => {
                    return Err(EngineErrors::TransactionError(e));
                },
            };
            match self.transactions.store_transaction_status(
                chargeback.tx,
                TransactionStatus::ChargedBack,
            ) {
                Ok(_) => {},
                Err(e) => {
                    return Err(EngineErrors::TransactionError(e));
                },
            }
            match self.clients.update(
                &chargeback.client,
                ClientUpdate::Chargeback { held_decrease: amount, total_decrease: amount },
            ) {
                Ok(_) => {},
                Err(e) => {
                    return Err(EngineErrors::ClientError(e));
                },
            }
        }
        Ok(())
    }
}

impl<T: EngineConfig> Engine for TransactionEngine<T> {
    closed spec fn ledger(&self) -> Ledger {
        Ledger {
            clients: self.clients.clients(),
            statuses: self.transactions.statuses(),
            values: self.transactions.values(),
        }
    }

    closed spec fn reliable(&self) -> bool {
        self.clients.reliable() && self.transactions.reliable()
    }

    fn process_transaction(&mut self, transaction: Transaction) -> (r: EngineResult) {
        match transaction {
            Transaction::Deposit(deposit) => self.process_deposit(deposit),
            Transaction::Withdrawal(withdrawal) => self.process_withdrawal(withdrawal),
            Transaction::Dispute(dispute) => self.process_dispute(dispute),
            Transaction::Resolve(resolve) => self.process_resolve(resolve),
            Transaction::Chargeback(chargeback) => self.process_chargeback(chargeback),
        }
    }

    fn get_clients(&self) -> (r: Result<Vec<Client>, EngineErrors>) {
        match self.clients.get_all() {
            Ok(listed) => Ok(listed),
            Err(e) => Err(EngineErrors::ClientError(e)),
        }
    }
}

} // verus!
