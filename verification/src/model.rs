//! Identifiers, client records and the five kinds of transaction.

use crate::amount::{amount_of_parsed, AmountInMinorUnits};
use crate::decimal::parsed_decimal;
use crate::text::{parse_u16, parse_u32, unsigned_of_text};
use std::convert::TryFrom;
use std::str::FromStr;
use vstd::prelude::*;
use vstd::std_specs::convert::TryFromSpecImpl;

verus! {

/// The number of a client.
#[derive(Copy, Clone, Debug, Eq, PartialEq, Hash, Structural)]
pub struct ClientId(pub u16);

impl Default for ClientId {
    fn default() -> (r: Self)
        ensures
            r == ClientId(0),
    {
        ClientId(0)
    }
}

/// The number of a transaction. Deposits and withdrawals share one space
/// of numbers, which disputes, resolutions and chargebacks refer to.
#[derive(Copy, Clone, Debug, Eq, PartialEq, Hash, Structural)]
pub struct TransactionId(pub u32);

impl Default for TransactionId {
    fn default() -> (r: Self)
        ensures
            r == TransactionId(0),
    {
        TransactionId(0)
    }
}

/// One client's balances as mathematical integers, counted in
/// ten-thousandths of the unit.
pub struct ClientView {
    pub id: ClientId,
    pub available: int,
    pub held: int,
    pub total: int,
    pub locked: bool,
}

/// The record a client has before anything touched it: nothing available,
/// nothing held, not locked.
pub open spec fn new_client(id: ClientId) -> ClientView {
    ClientView { id, available: 0, held: 0, total: 0, locked: false }
}

/// One client's balances and lock flag.
#[derive(Copy, Clone, Debug, Eq, PartialEq, Structural)]
pub struct Client {
    pub id: ClientId,
    pub available: AmountInMinorUnits,
    pub held: AmountInMinorUnits,
    pub total: AmountInMinorUnits,
    pub locked: bool,
}

impl View for Client {
    type V = ClientView;

    open spec fn view(&self) -> ClientView {
        ClientView {
            id: self.id,
            available: self.available@,
            held: self.held@,
            total: self.total@,
            locked: self.locked,
        }
    }
}

impl Client {
    /// The untouched record of client `id`.
    pub fn new(id: ClientId) -> (r: Self)
        ensures
            r@ == new_client(id),
    {
        Client {
            id,
            available: AmountInMinorUnits::zero(),
            held: AmountInMinorUnits::zero(),
            total: AmountInMinorUnits::zero(),
            locked: false,
        }
    }
}

impl Default for Client {
    fn default() -> (r: Self)
        ensures
            r@ == new_client(ClientId(0)),
    {
        Client::new(ClientId(0))
    }
}

/// Where a recorded transaction stands in its life: processed, then
/// possibly disputed, then resolved or charged back.
#[derive(Copy, Clone, Debug, Eq, PartialEq, Structural)]
pub enum TransactionStatus {
    Processed,
    Disputed,
    Resolved,
    ChargedBack,
}

/// Money paid in to a client.
#[derive(Copy, Clone, Debug, Eq, PartialEq, Structural)]
pub struct Deposit {
    pub client: ClientId,
    pub tx: TransactionId,
    pub amount: AmountInMinorUnits,
}

/// Money paid out to a client.
#[derive(Copy, Clone, Debug, Eq, PartialEq, Structural)]
pub struct Withdrawal {
    pub client: ClientId,
    pub tx: TransactionId,
    pub amount: AmountInMinorUnits,
}

/// A claim that the transaction `tx` was wrong.
#[derive(Copy, Clone, Debug, Eq, PartialEq, Structural)]
pub struct Dispute {
    pub client: ClientId,
    pub tx: TransactionId,
}

/// The end of a dispute in the client's favour: the held money is released.
#[derive(Copy, Clone, Debug, Eq, PartialEq, Structural)]
pub struct Resolve {
    pub client: ClientId,
    pub tx: TransactionId,
}

/// The end of a dispute by reversal: the held money leaves the account,
/// which is locked.
#[derive(Copy, Clone, Debug, Eq, PartialEq, Structural)]
pub struct Chargeback {
    pub client: ClientId,
    pub tx: TransactionId,
}

/// One record of the input.
#[derive(Copy, Clone, Debug, Eq, PartialEq, Structural)]
pub enum Transaction {
    Deposit(Deposit),
    Withdrawal(Withdrawal),
    Dispute(Dispute),
    Resolve(Resolve),
    Chargeback(Chargeback),
}

impl Transaction {
    /// The client that the transaction is addressed to.
    pub open spec fn client(self) -> ClientId {
        match self {
            Transaction::Deposit(d) => d.client,
            Transaction::Withdrawal(w) => w.client,
            Transaction::Dispute(d) => d.client,
            Transaction::Resolve(r) => r.client,
            Transaction::Chargeback(c) => c.client,
        }
    }

    /// The transaction number that it carries.
    pub open spec fn tx(self) -> TransactionId {
        match self {
            Transaction::Deposit(d) => d.tx,
            Transaction::Withdrawal(w) => w.tx,
            Transaction::Dispute(d) => d.tx,
            Transaction::Resolve(r) => r.tx,
            Transaction::Chargeback(c) => c.tx,
        }
    }
}

/// The client number that `text` stands for, if it is one.
pub open spec fn client_of_text(text: Seq<char>) -> Option<ClientId> {
    match unsigned_of_text(text, u16::MAX as nat) {
        Some(n) => Some(ClientId(n as u16)),
        None => None,
    }
}

/// The transaction number that `text` stands for, if it is one.
pub open spec fn transaction_of_text(text: Seq<char>) -> Option<TransactionId> {
    match unsigned_of_text(text, u32::MAX as nat) {
        Some(n) => Some(TransactionId(n as u32)),
        None => None,
    }
}

/// The amount in an input field: what the decimal parser makes of the
/// text, rounded to four fractional digits. `None` where the field is
/// absent or the text no decimal, and nowhere else.
pub open spec fn amount_of_field(field: Option<String>) -> Option<AmountInMinorUnits> {
    match field {
        Some(text) => match amount_of_parsed(parsed_decimal(text@)) {
            Some(units) => Some(AmountInMinorUnits::of_units(units)),
            None => None,
        },
        None => None,
    }
}

impl FromStr for ClientId {
    type Err = ();

    /// Reads a client number from decimal text.
    fn from_str(s: &str) -> (r: Result<Self, ()>)
        ensures
            match client_of_text(s@) {
                Some(id) => r == Ok::<ClientId, ()>(id),
                None => r is Err,
            },
    {
        match parse_u16(s) {
            Some(n) => Ok(ClientId(n)),
            None => Err(()),
        }
    }
}

impl FromStr for TransactionId {
    type Err = ();

    /// Reads a transaction number from decimal text.
    fn from_str(s: &str) -> (r: Result<Self, ()>)
        ensures
            match transaction_of_text(s@) {
                Some(id) => r == Ok::<TransactionId, ()>(id),
                None => r is Err,
            },
    {
        match parse_u32(s) {
            Some(n) => Ok(TransactionId(n)),
            None => Err(()),
        }
    }
}

/// One row of the input as text: the kind of transaction, the client, the
/// transaction number and, for a deposit or a withdrawal, the amount.
#[derive(Clone, Debug)]
pub struct InputRecord {
    pub tx_type: String,
    pub client: String,
    pub tx: String,
    pub amount: Option<String>,
}

/// The transaction that an input row stands for.
///
/// The kind is one of `deposit`, `withdrawal`, `dispute` and `resolve`; a
/// row of any other kind is refused, `chargeback` among them. The client
/// and the transaction number must read as numbers. A deposit and a
/// withdrawal need an amount that reads as one; on a dispute and a
/// resolution the amount field is not looked at.
pub open spec fn transaction_of_record(record: InputRecord) -> Result<Transaction, ()> {
    let kind = record.tx_type@;
    if kind == "deposit"@ || kind == "withdrawal"@ || kind == "dispute"@ || kind == "resolve"@ {
        match (client_of_text(record.client@), transaction_of_text(record.tx@)) {
            (Some(client), Some(tx)) => if kind == "dispute"@ {
                Ok(Transaction::Dispute(Dispute { client, tx }))
            } else if kind == "resolve"@ {
                Ok(Transaction::Resolve(Resolve { client, tx }))
            } else {
                match amount_of_field(record.amount) {
                    Some(amount) => if kind == "deposit"@ {
                        Ok(Transaction::Deposit(Deposit { client, tx, amount }))
                    } else {
                        Ok(Transaction::Withdrawal(Withdrawal { client, tx, amount }))
                    },
                    None => Err(()),
                }
            },
            _ => Err(()),
        }
    } else {
        Err(())
    }
}

/// A row is read exactly where its kind is one of the four, its client and
/// its transaction number read as numbers and, on a deposit or a
/// withdrawal, the amount is there and is a decimal to the decimal parser.
pub proof fn lemma_row_is_read_where(record: InputRecord)
    ensures
        transaction_of_record(record) is Ok <==> {
            let kind = record.tx_type@;
            &&& kind == "deposit"@ || kind == "withdrawal"@ || kind == "dispute"@ || kind
                == "resolve"@
            &&& client_of_text(record.client@) is Some
            &&& transaction_of_text(record.tx@) is Some
            &&& kind == "deposit"@ || kind == "withdrawal"@ ==> (record.amount matches Some(text)
                && parsed_decimal(text@) is Some)
        },
{
    reveal_strlit("deposit");
    reveal_strlit("withdrawal");
    reveal_strlit("dispute");
    reveal_strlit("resolve");
    // the kinds differ in their first or second letter, or in their length
    assert("deposit"@[1] == 'e' && "dispute"@[1] == 'i' && "resolve"@[0] == 'r' && "deposit"@[0]
        == 'd');
    assert("withdrawal"@.len() == 10 && "deposit"@.len() == 7);
}

/// Reads the amount of an input field.
fn read_amount(field: &Option<String>) -> (r: Option<AmountInMinorUnits>)
    ensures
        r == amount_of_field(*field),
{
    match field {
        Some(text) => match AmountInMinorUnits::parse(text.as_str()) {
            Ok(a) => {
                proof {
                    a.lemma_of_units();
                }
                Some(a)
            },
            Err(_) => None,
        },
        None => None,
    }
}

impl TryFrom<InputRecord> for Transaction {
    type Error = ();

    /// Reads a transaction from an input row.
    fn try_from(value: InputRecord) -> (r: Result<Self, ()>)
        ensures
            r == transaction_of_record(value),
    {
        let is_deposit = value.tx_type == "deposit".to_owned();
        let is_withdrawal = value.tx_type == "withdrawal".to_owned();
        let is_dispute = value.tx_type == "dispute".to_owned();
        let is_resolve = value.tx_type == "resolve".to_owned();
        if !(is_deposit || is_withdrawal || is_dispute || is_resolve) {
            return Err(());
        }
        let client = match ClientId::from_str(value.client.as_str()) {
            Ok(c) => c,
            Err(_) => {
                return Err(());
            },
        };
        let tx = match TransactionId::from_str(value.tx.as_str()) {
            Ok(t) => t,
            Err(_) => {
                return Err(());
            },
        };
        if is_dispute {
            return Ok(Transaction::Dispute(Dispute { client, tx }));
        }
        if is_resolve {
            return Ok(Transaction::Resolve(Resolve { client, tx }));
        }
        let amount = match read_amount(&value.amount) {
            Some(a) => a,
            None => {
                return Err(());
            },
        };
        if is_deposit {
            Ok(Transaction::Deposit(Deposit { client, tx, amount }))
        } else {
            Ok(Transaction::Withdrawal(Withdrawal { client, tx, amount }))
        }
    }
}

impl TryFromSpecImpl<InputRecord> for Transaction {
    open spec fn obeys_try_from_spec() -> bool {
        true
    }

    open spec fn try_from_spec(value: InputRecord) -> Result<Self, ()> {
        transaction_of_record(value)
    }
}

} // verus!
