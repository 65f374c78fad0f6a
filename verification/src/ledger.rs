//! The rules of the ledger as a mathematical model, and the laws that
//! follow from them.
//!
//! A `Ledger` is what the two stores hold together. `step` says what one
//! transaction does to it, `rejection` which error it is answered with. The
//! engine's contract is stated over these two, so every law proved here of
//! `step` holds of the engine.

use crate::model::{
    Chargeback, ClientId, ClientView, Deposit, Transaction, TransactionId, TransactionStatus,
    Withdrawal,
};
use crate::amount::{can_add, can_sub};
use crate::ports::{
    apply_change, client_or_new, BalanceChange, ClientRepositoryErrors, EngineErrors,
    EngineResult, TransactionRepositoryErrors,
};
use vstd::prelude::*;

verus! {

/// Everything the stores hold: the client records, and of each recorded
/// transaction its status and its amount in ten-thousandths.
pub struct Ledger {
    pub clients: Map<ClientId, ClientView>,
    pub statuses: Map<TransactionId, TransactionStatus>,
    pub values: Map<TransactionId, int>,
}

impl Ledger {
    /// The ledger with no client and no transaction.
    pub open spec fn empty() -> Ledger {
        Ledger { clients: Map::empty(), statuses: Map::empty(), values: Map::empty() }
    }

    /// Whether the transaction `tx` is recorded with the status `s` and with
    /// an amount.
    pub open spec fn holds(self, tx: TransactionId, s: TransactionStatus) -> bool {
        self.statuses.contains_key(tx) && self.statuses[tx] == s && self.values.contains_key(tx)
    }
}

/// The error that the transaction `t` is answered with, if any.
///
/// A withdrawal needs a record of its client. A dispute, a resolution and
/// a chargeback need a recorded status, and the recorded amount where the
/// status lets them go ahead. A deposit is never refused.
pub open spec fn rejection(l: Ledger, t: Transaction) -> Option<EngineErrors> {
    match t {
        Transaction::Deposit(_) => None,
        Transaction::Withdrawal(w) => if l.clients.contains_key(w.client) {
            None
        } else {
            Some(EngineErrors::ClientError(ClientRepositoryErrors::ClientNotFound(w.client)))
        },
        Transaction::Dispute(d) => unrecorded(l, d.tx, TransactionStatus::Processed),
        Transaction::Resolve(r) => unrecorded(l, r.tx, TransactionStatus::Disputed),
        Transaction::Chargeback(c) => unrecorded(l, c.tx, TransactionStatus::Disputed),
    }
}

/// The error of a transaction that refers to `tx` and goes ahead from the
/// status `from`: `TransactionNotFound` where no status is recorded, or
/// where the status is `from` and no amount is recorded.
pub open spec fn unrecorded(l: Ledger, tx: TransactionId, from: TransactionStatus) -> Option<
    EngineErrors,
> {
    if !l.statuses.contains_key(tx) || (l.statuses[tx] == from && !l.values.contains_key(tx)) {
        Some(EngineErrors::TransactionError(TransactionRepositoryErrors::TransactionNotFound(tx)))
    } else {
        None
    }
}

/// Whether the transaction `t` changes the ledger.
///
/// A deposit does under a number not seen before. A withdrawal does where
/// the client has strictly more available than it asks for. A dispute does
/// on a processed transaction, a resolution and a chargeback on a disputed
/// one.
pub open spec fn applies(l: Ledger, t: Transaction) -> bool {
    match t {
        Transaction::Deposit(d) => !l.statuses.contains_key(d.tx),
        Transaction::Withdrawal(w) => l.clients.contains_key(w.client) && l.clients[w.client].available
            > w.amount@,
        Transaction::Dispute(d) => l.holds(d.tx, TransactionStatus::Processed),
        Transaction::Resolve(r) => l.holds(r.tx, TransactionStatus::Disputed),
        Transaction::Chargeback(c) => l.holds(c.tx, TransactionStatus::Disputed),
    }
}

/// What the transaction `t` does to its client's balances where it applies.
pub open spec fn change(l: Ledger, t: Transaction) -> BalanceChange {
    match t {
        Transaction::Deposit(d) => BalanceChange {
            available: d.amount@,
            held: 0,
            total: d.amount@,
            locks: false,
        },
        Transaction::Withdrawal(w) => BalanceChange {
            available: -w.amount@,
            held: 0,
            total: -w.amount@,
            locks: false,
        },
        Transaction::Dispute(d) => BalanceChange {
            available: -l.values[d.tx],
            held: l.values[d.tx],
            total: 0,
            locks: false,
        },
        Transaction::Resolve(r) => BalanceChange {
            available: l.values[r.tx],
            held: -l.values[r.tx],
            total: 0,
            locks: false,
        },
        Transaction::Chargeback(c) => BalanceChange {
            available: 0,
            held: -l.values[c.tx],
            total: -l.values[c.tx],
            locks: true,
        },
    }
}

/// The statuses after the transaction `t`, where it applies.
pub open spec fn statuses_after(l: Ledger, t: Transaction) -> Map<
    TransactionId,
    TransactionStatus,
> {
    match t {
        Transaction::Deposit(d) => l.statuses.insert(d.tx, TransactionStatus::Processed),
        Transaction::Withdrawal(_) => l.statuses,
        Transaction::Dispute(d) => l.statuses.insert(d.tx, TransactionStatus::Disputed),
        Transaction::Resolve(r) => l.statuses.insert(r.tx, TransactionStatus::Resolved),
        Transaction::Chargeback(c) => l.statuses.insert(c.tx, TransactionStatus::ChargedBack),
    }
}

/// The recorded amounts after the transaction `t`, where it applies: only a
/// deposit records one.
pub open spec fn values_after(l: Ledger, t: Transaction) -> Map<TransactionId, int> {
    match t {
        Transaction::Deposit(d) => l.values.insert(d.tx, d.amount@),
        _ => l.values,
    }
}

/// The client's record after the transaction `t`, where it applies.
pub open spec fn client_after(l: Ledger, t: Transaction) -> ClientView {
    apply_change(client_or_new(l.clients, t.client()), change(l, t))
}

/// The ledger after the transaction `t`: changed as `t` says where it
/// applies, and the same ledger where it does not.
pub open spec fn step(l: Ledger, t: Transaction) -> Ledger {
    if applies(l, t) {
        Ledger {
            clients: l.clients.insert(t.client(), client_after(l, t)),
            statuses: statuses_after(l, t),
            values: values_after(l, t),
        }
    } else {
        l
    }
}

/// The ledger after the transactions `ts`, one after the other.
pub open spec fn run(l: Ledger, ts: Seq<Transaction>) -> Ledger
    decreases ts.len(),
{
    if ts.len() == 0 {
        l
    } else {
        step(run(l, ts.drop_last()), ts.last())
    }
}

/// Whether the transaction `t`, where it applies, can be computed exactly:
/// whether each of the two sums or differences on its client's balances
/// can.
pub open spec fn fits(l: Ledger, t: Transaction) -> bool {
    let c = client_or_new(l.clients, t.client());
    applies(l, t) ==> match t {
        Transaction::Deposit(d) => can_add(c.available, d.amount@) && can_add(c.total, d.amount@),
        Transaction::Withdrawal(w) => can_sub(c.available, w.amount@) && can_sub(
            c.total,
            w.amount@,
        ),
        Transaction::Dispute(d) => can_sub(c.available, l.values[d.tx]) && can_add(
            c.held,
            l.values[d.tx],
        ),
        Transaction::Resolve(r) => can_add(c.available, l.values[r.tx]) && can_sub(
            c.held,
            l.values[r.tx],
        ),
        Transaction::Chargeback(b) => can_sub(c.held, l.values[b.tx]) && can_sub(
            c.total,
            l.values[b.tx],
        ),
    }
}

/// Whether `after` is the ledger that the failure `e` of a store leaves
/// behind, half way through `t`. The writes come in one order: the amount,
/// then the status, then the client's record.
///
/// A failure of the transaction store leaves the statuses and the clients
/// as they were; of the amounts, that of a deposit may have been written.
/// A failure of the client store comes when both writes to the transaction
/// store are done: they stand, and the clients are as they were.
pub open spec fn interrupted(before: Ledger, t: Transaction, e: EngineErrors, after: Ledger) -> bool {
    let done = step(before, t);
    &&& after.clients == before.clients
    &&& match e {
        EngineErrors::TransactionError(TransactionRepositoryErrors::AdapterError(_)) => {
            &&& !(t is Withdrawal)
            &&& after.statuses == before.statuses
            &&& after.values == before.values || after.values == done.values
        },
        EngineErrors::ClientError(ClientRepositoryErrors::AdapterError(_)) => {
            &&& t is Withdrawal || applies(before, t)
            &&& after.statuses == done.statuses
            &&& after.values == done.values
        },
        _ => false,
    }
}

/// What processing `t` may return, and the ledger it may leave, from the
/// ledger `before`.
///
/// With reliable stores there is one outcome: the error `rejection` names
/// and the ledger untouched, or `Ok` and the ledger `step` gives. A store
/// that fails on its backend adds one: its error, under the name of the
/// store, with the writes done so far left in place.
pub open spec fn processed(
    before: Ledger,
    reliable: bool,
    t: Transaction,
    r: EngineResult,
    after: Ledger,
) -> bool {
    match r {
        Ok(_) => rejection(before, t) is None && after == step(before, t),
        Err(e) => {
            ||| rejection(before, t) == Some(e) && after == before
            ||| !reliable && interrupted(before, t, e, after)
        },
    }
}

/// Whether the three balances of `c` agree: the total is what is available
/// plus what is held.
pub open spec fn balanced(c: ClientView) -> bool {
    c.total == c.available + c.held
}

/// Whether the balances of every client in the ledger agree.
pub open spec fn all_balanced(l: Ledger) -> bool {
    forall|id: ClientId| #[trigger] l.clients.contains_key(id) ==> balanced(l.clients[id])
}

/// Whether a status `to` can be where a transaction stands some time after
/// it stood at `from`: a processed transaction can become anything, a
/// disputed one resolved or charged back, and those two stay what they are.
pub open spec fn may_follow(from: TransactionStatus, to: TransactionStatus) -> bool {
    ||| from == to
    ||| from == TransactionStatus::Processed
    ||| from == TransactionStatus::Disputed && (to == TransactionStatus::Resolved || to
        == TransactionStatus::ChargedBack)
}

/// Whether `to` is `from` or the one status that directly follows it.
pub open spec fn moves_one(from: TransactionStatus, to: TransactionStatus) -> bool {
    ||| from == to
    ||| from == TransactionStatus::Processed && to == TransactionStatus::Disputed
    ||| from == TransactionStatus::Disputed && (to == TransactionStatus::Resolved || to
        == TransactionStatus::ChargedBack)
}

/// One transaction keeps the balances in agreement: where every client's
/// total was what it had available plus what was held, it still is.
pub proof fn lemma_step_keeps_balance(l: Ledger, t: Transaction)
    requires
        all_balanced(l),
    ensures
        all_balanced(step(l, t)),
{
    assert forall|id: ClientId| #[trigger] step(l, t).clients.contains_key(id) implies balanced(
        step(l, t).clients[id],
    ) by {
        if applies(l, t) && id == t.client() {
            if l.clients.contains_key(id) {
                assert(balanced(l.clients[id]));
            }
        } else {
            assert(l.clients.contains_key(id));
        }
    }
}

/// Any sequence of transactions keeps the balances in agreement.
pub proof fn lemma_run_keeps_balance(l: Ledger, ts: Seq<Transaction>)
    requires
        all_balanced(l),
    ensures
        all_balanced(run(l, ts)),
    decreases ts.len(),
{
    if ts.len() > 0 {
        lemma_run_keeps_balance(l, ts.drop_last());
        lemma_step_keeps_balance(run(l, ts.drop_last()), ts.last());
    }
}

/// From an empty ledger every sequence of transactions leads to one whose
/// balances agree.
pub proof fn lemma_run_from_empty_is_balanced(ts: Seq<Transaction>)
    ensures
        all_balanced(run(Ledger::empty(), ts)),
{
    lemma_run_keeps_balance(Ledger::empty(), ts);
}

/// Whatever processing a transaction returns, and whether or not a store
/// failed half way, the balances it leaves are in agreement where they were
/// before.
pub proof fn lemma_processing_keeps_balance(
    before: Ledger,
    reliable: bool,
    t: Transaction,
    r: EngineResult,
    after: Ledger,
)
    requires
        all_balanced(before),
        processed(before, reliable, t, r, after),
    ensures
        all_balanced(after),
{
    lemma_step_keeps_balance(before, t);
}

/// A deposit made twice counts once: the second, under the number of the
/// first, changes nothing, whatever amount it carries.
pub proof fn lemma_deposit_counts_once(l: Ledger, first: Deposit, second: Deposit)
    requires
        first.tx == second.tx,
    ensures
        step(step(l, Transaction::Deposit(first)), Transaction::Deposit(second)) == step(
            l,
            Transaction::Deposit(first),
        ),
        rejection(step(l, Transaction::Deposit(first)), Transaction::Deposit(second)) is None,
{
}

/// A withdrawal goes through only where strictly more is available than it
/// asks for: then what is available and the total both fall by the amount,
/// and nothing else changes. A withdrawal of all that is available, or of
/// more, changes nothing and is no error.
pub proof fn lemma_withdrawal_boundary(l: Ledger, w: Withdrawal)
    requires
        l.clients.contains_key(w.client),
    ensures
        rejection(l, Transaction::Withdrawal(w)) is None,
        w.amount@ >= l.clients[w.client].available ==> step(l, Transaction::Withdrawal(w)) == l,
        w.amount@ < l.clients[w.client].available ==> step(l, Transaction::Withdrawal(w)) == (Ledger {
            clients: l.clients.insert(
                w.client,
                ClientView {
                    available: l.clients[w.client].available - w.amount@,
                    total: l.clients[w.client].total - w.amount@,
                    ..l.clients[w.client]
                },
            ),
            ..l
        }),
{
}

/// One transaction leaves every recorded status where it is or moves it one
/// stage on: from processed to disputed, or from disputed to resolved or
/// charged back.
pub proof fn lemma_step_moves_status_forward(l: Ledger, t: Transaction, tx: TransactionId)
    requires
        l.statuses.contains_key(tx),
    ensures
        step(l, t).statuses.contains_key(tx),
        moves_one(l.statuses[tx], step(l, t).statuses[tx]),
{
}

/// Whatever processing a transaction returns, and whether or not a store
/// failed half way, every recorded status is left where it is or moved one
/// stage on.
pub proof fn lemma_processing_moves_status_forward(
    before: Ledger,
    reliable: bool,
    t: Transaction,
    r: EngineResult,
    after: Ledger,
    tx: TransactionId,
)
    requires
        before.statuses.contains_key(tx),
        processed(before, reliable, t, r, after),
    ensures
        after.statuses.contains_key(tx),
        moves_one(before.statuses[tx], after.statuses[tx]),
{
    lemma_step_moves_status_forward(before, t, tx);
}

/// Over any sequence of transactions a recorded status never goes back:
/// resolved and charged back are final, and a disputed transaction is never
/// merely processed again.
pub proof fn lemma_run_moves_status_forward(l: Ledger, ts: Seq<Transaction>, tx: TransactionId)
    requires
        l.statuses.contains_key(tx),
    ensures
        run(l, ts).statuses.contains_key(tx),
        may_follow(l.statuses[tx], run(l, ts).statuses[tx]),
    decreases ts.len(),
{
    if ts.len() > 0 {
        lemma_run_moves_status_forward(l, ts.drop_last(), tx);
        lemma_step_moves_status_forward(run(l, ts.drop_last()), ts.last(), tx);
    }
}

/// A dispute of a transaction that is not merely processed, and a
/// resolution or a chargeback of one that is not disputed, is no error and
/// changes nothing at all.
pub proof fn lemma_mismatched_status_is_ignored(l: Ledger, t: Transaction)
    requires
        l.statuses.contains_key(t.tx()),
        match t {
            Transaction::Dispute(_) => l.statuses[t.tx()] != TransactionStatus::Processed,
            Transaction::Resolve(_) => l.statuses[t.tx()] != TransactionStatus::Disputed,
            Transaction::Chargeback(_) => l.statuses[t.tx()] != TransactionStatus::Disputed,
            _ => false,
        },
    ensures
        rejection(l, t) is None,
        step(l, t) == l,
{
}

/// A chargeback that applies locks the account of its client.
pub proof fn lemma_chargeback_locks(l: Ledger, c: Chargeback)
    requires
        applies(l, Transaction::Chargeback(c)),
    ensures
        step(l, Transaction::Chargeback(c)).clients.contains_key(c.client),
        step(l, Transaction::Chargeback(c)).clients[c.client].locked,
{
}

/// No transaction unlocks an account.
pub proof fn lemma_step_keeps_lock(l: Ledger, t: Transaction, id: ClientId)
    requires
        l.clients.contains_key(id),
        l.clients[id].locked,
    ensures
        step(l, t).clients.contains_key(id),
        step(l, t).clients[id].locked,
{
}

/// A locked account stays locked over any sequence of transactions.
pub proof fn lemma_run_keeps_lock(l: Ledger, ts: Seq<Transaction>, id: ClientId)
    requires
        l.clients.contains_key(id),
        l.clients[id].locked,
    ensures
        run(l, ts).clients.contains_key(id),
        run(l, ts).clients[id].locked,
    decreases ts.len(),
{
    if ts.len() > 0 {
        lemma_run_keeps_lock(l, ts.drop_last(), id);
        lemma_step_keeps_lock(run(l, ts.drop_last()), ts.last(), id);
    }
}

/// A locked account stays locked whatever processing a transaction
/// returns, and whether or not a store failed half way.
pub proof fn lemma_processing_keeps_lock(
    before: Ledger,
    reliable: bool,
    t: Transaction,
    r: EngineResult,
    after: Ledger,
    id: ClientId,
)
    requires
        before.clients.contains_key(id),
        before.clients[id].locked,
        processed(before, reliable, t, r, after),
    ensures
        after.clients.contains_key(id),
        after.clients[id].locked,
{
    lemma_step_keeps_lock(before, t, id);
}

} // verus!
