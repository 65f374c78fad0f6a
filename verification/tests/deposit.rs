use payment_engine::amount::AmountInMinorUnits;
use payment_engine::engine::TransactionEngine;
use payment_engine::memory::{
    InMemoryClientRepository, InMemoryEngineDeps, InMemoryTransactionRepository,
};
use payment_engine::model::{ClientId, Deposit, Transaction, TransactionId, TransactionStatus};
use payment_engine::ports::{
    ClientRepository, Engine, EngineErrors, TransactionRepositoryErrors, TransactionsRepository,
};

const TEST_CLIENT_ID: ClientId = ClientId(1);
const TEST_TRANSACTION_ID_1: TransactionId = TransactionId(1);

struct TestContext {
    client_repo: InMemoryClientRepository,
    transaction_repo: InMemoryTransactionRepository,
}

impl TestContext {
    fn new() -> Self {
        TestContext {
            client_repo: InMemoryClientRepository::default(),
            transaction_repo: InMemoryTransactionRepository::default(),
        }
    }

    fn engine(self) -> TransactionEngine<InMemoryEngineDeps> {
        TransactionEngine::new(self.client_repo, self.transaction_repo)
    }
}

#[test]
fn deposit_increases_client_available_funds_by_deposit_amount() {
    let ctx = TestContext::new();

    let mut engine = ctx.engine();
    engine
        .process_transaction(Transaction::Deposit(Deposit {
            client: TEST_CLIENT_ID,
            tx: TEST_TRANSACTION_ID_1,
            amount: AmountInMinorUnits::from(5),
        }))
        .unwrap();

    let clients = engine.get_clients().unwrap();
    assert_eq!(clients[0].available, AmountInMinorUnits::from(5));
}

#[test]
fn deposit_increases_client_total_funds_by_deposit_amount() {
    let ctx = TestContext::new();

    let mut engine = ctx.engine();
    engine
        .process_transaction(Transaction::Deposit(Deposit {
            client: TEST_CLIENT_ID,
            tx: TEST_TRANSACTION_ID_1,
            amount: AmountInMinorUnits::from(5),
        }))
        .unwrap();

    let clients = engine.get_clients().unwrap();
    assert_eq!(clients[0].total, AmountInMinorUnits::from(5));
}

#[test]
fn deposit_of_five_creates_the_client_record() {
    let ctx = TestContext::new();
    let mut engine = ctx.engine();
    engine
        .process_transaction(Transaction::Deposit(Deposit {
            client: TEST_CLIENT_ID,
            tx: TEST_TRANSACTION_ID_1,
            amount: "5.00".parse().unwrap(),
        }))
        .unwrap();

    let clients = engine.get_clients().unwrap();
    assert_eq!(clients.len(), 1);
    assert_eq!(clients[0].id, ClientId(1));
    assert_eq!(clients[0].available.units(), 50000);
    assert_eq!(clients[0].held.units(), 0);
    assert_eq!(clients[0].total.units(), 50000);
    assert!(!clients[0].locked);
}

#[test]
fn deposit_records_the_transaction_as_processed_with_its_amount() {
    let ctx = TestContext::new();
    let mut engine = ctx.engine();
    engine
        .process_transaction(Transaction::Deposit(Deposit {
            client: TEST_CLIENT_ID,
            tx: TEST_TRANSACTION_ID_1,
            amount: AmountInMinorUnits::from(5),
        }))
        .unwrap();

    let status = engine
        .transactions()
        .get_transaction_status(&TEST_TRANSACTION_ID_1)
        .unwrap();
    assert_eq!(status, TransactionStatus::Processed);
    let value = engine
        .transactions()
        .get_transaction_value(&TEST_TRANSACTION_ID_1)
        .unwrap();
    assert_eq!(value, AmountInMinorUnits::from(5));
}

#[test]
fn deposit_made_twice_counts_once() {
    let ctx = TestContext::new();
    let mut engine = ctx.engine();
    let deposit = Transaction::Deposit(Deposit {
        client: TEST_CLIENT_ID,
        tx: TEST_TRANSACTION_ID_1,
        amount: AmountInMinorUnits::from(5),
    });
    engine.process_transaction(deposit).unwrap();
    engine.process_transaction(deposit).unwrap();

    let clients = engine.get_clients().unwrap();
    assert_eq!(clients.len(), 1);
    assert_eq!(clients[0].available, AmountInMinorUnits::from(5));
    assert_eq!(clients[0].total, AmountInMinorUnits::from(5));
}

#[test]
fn deposit_under_a_seen_number_is_ignored_whatever_its_amount() {
    let ctx = TestContext::new();
    let mut engine = ctx.engine();
    engine
        .process_transaction(Transaction::Deposit(Deposit {
            client: TEST_CLIENT_ID,
            tx: TEST_TRANSACTION_ID_1,
            amount: AmountInMinorUnits::from(5),
        }))
        .unwrap();
    engine
        .process_transaction(Transaction::Deposit(Deposit {
            client: ClientId(2),
            tx: TEST_TRANSACTION_ID_1,
            amount: AmountInMinorUnits::from(9),
        }))
        .unwrap();

    let clients = engine.get_clients().unwrap();
    assert_eq!(clients.len(), 1);
    assert_eq!(clients[0].id, TEST_CLIENT_ID);
    assert_eq!(clients[0].total, AmountInMinorUnits::from(5));
}

#[test]
fn deposits_to_two_clients_are_kept_apart() {
    let ctx = TestContext::new();
    let mut engine = ctx.engine();
    engine
        .process_transaction(Transaction::Deposit(Deposit {
            client: ClientId(1),
            tx: TransactionId(1),
            amount: AmountInMinorUnits::from(5),
        }))
        .unwrap();
    engine
        .process_transaction(Transaction::Deposit(Deposit {
            client: ClientId(2),
            tx: TransactionId(2),
            amount: AmountInMinorUnits::from(7),
        }))
        .unwrap();
    engine
        .process_transaction(Transaction::Deposit(Deposit {
            client: ClientId(1),
            tx: TransactionId(3),
            amount: "0.5".parse().unwrap(),
        }))
        .unwrap();

    let mut clients = engine.get_clients().unwrap();
    clients.sort_by_key(|c| c.id.0);
    assert_eq!(clients.len(), 2);
    assert_eq!(clients[0].id, ClientId(1));
    assert_eq!(clients[0].available.units(), 55000);
    assert_eq!(clients[0].total.units(), 55000);
    assert_eq!(clients[1].id, ClientId(2));
    assert_eq!(clients[1].available.units(), 70000);
    assert_eq!(engine.clients().get(&ClientId(2)).unwrap().total.units(), 70000);
}

#[test]
fn engine_admits_what_stays_in_range_and_nothing_else() {
    let mut ctx = TestContext::new();
    let most = AmountInMinorUnits::from_units(0xFFFF_FFFF_FFFF_FFFF_FFFF_FFFF).unwrap();
    ctx.client_repo
        .insert(payment_engine::model::Client {
            id: TEST_CLIENT_ID,
            available: most,
            held: AmountInMinorUnits::from(0),
            total: most,
            locked: false,
        })
        .unwrap();
    let engine = ctx.engine();
    let one_more = Transaction::Deposit(Deposit {
        client: TEST_CLIENT_ID,
        tx: TEST_TRANSACTION_ID_1,
        amount: AmountInMinorUnits::from_units(1).unwrap(),
    });
    assert!(!engine.admits(&one_more));
    let elsewhere = Transaction::Deposit(Deposit {
        client: ClientId(2),
        tx: TEST_TRANSACTION_ID_1,
        amount: AmountInMinorUnits::from_units(1).unwrap(),
    });
    assert!(engine.admits(&elsewhere));
}

#[test]
fn dispute_of_an_unknown_transaction_is_an_error() {
    let ctx = TestContext::new();
    let mut engine = ctx.engine();
    let r = engine.process_transaction(Transaction::Dispute(payment_engine::model::Dispute {
        client: TEST_CLIENT_ID,
        tx: TransactionId(77),
    }));
    assert!(matches!(
        r,
        Err(EngineErrors::TransactionError(TransactionRepositoryErrors::TransactionNotFound(
            TransactionId(77)
        )))
    ));
    assert_eq!(engine.get_clients().unwrap().len(), 0);
}

#[test]
fn transaction_that_leaves_the_range_is_not_processed() {
    let mut ctx = TestContext::new();
    let most = AmountInMinorUnits::from_units(0xFFFF_FFFF_FFFF_FFFF_FFFF_FFFF).unwrap();
    ctx.client_repo
        .insert(payment_engine::model::Client {
            id: TEST_CLIENT_ID,
            available: most,
            held: AmountInMinorUnits::from(0),
            total: most,
            locked: false,
        })
        .unwrap();
    let mut engine = ctx.engine();
    let one_more = Transaction::Deposit(Deposit {
        client: TEST_CLIENT_ID,
        tx: TEST_TRANSACTION_ID_1,
        amount: AmountInMinorUnits::from_units(1).unwrap(),
    });
    assert!(engine.try_process_transaction(one_more).is_none());
    assert_eq!(engine.clients().get(&TEST_CLIENT_ID).unwrap().available, most);
    assert!(engine
        .transactions()
        .get_transaction_status(&TEST_TRANSACTION_ID_1)
        .is_err());

    let one_less = Transaction::Withdrawal(payment_engine::model::Withdrawal {
        client: TEST_CLIENT_ID,
        tx: TransactionId(2),
        amount: AmountInMinorUnits::from_units(1).unwrap(),
    });
    assert!(matches!(engine.try_process_transaction(one_less), Some(Ok(()))));
    assert_eq!(
        engine.clients().get(&TEST_CLIENT_ID).unwrap().available.units(),
        0xFFFF_FFFF_FFFF_FFFF_FFFF_FFFF - 1
    );
    assert!(matches!(engine.try_process_transaction(one_more), Some(Ok(()))));
    assert_eq!(engine.clients().get(&TEST_CLIENT_ID).unwrap().total, most);
}

#[test]
fn default_engine_starts_empty() {
    let engine = TransactionEngine::<InMemoryEngineDeps>::default();
    assert!(engine.get_clients().unwrap().is_empty());
    assert!(engine
        .transactions()
        .get_transaction_status(&TEST_TRANSACTION_ID_1)
        .is_err());
}

#[test]
fn deposits_of_the_largest_amounts_are_processed() {
    let mut engine = TransactionEngine::<InMemoryEngineDeps>::default();
    let large: AmountInMinorUnits = "10000000000000000000000000000".parse().unwrap();
    for tx in 1..=7u32 {
        let t = Transaction::Deposit(Deposit {
            client: TEST_CLIENT_ID,
            tx: TransactionId(tx),
            amount: large,
        });
        assert!(engine.admits(&t));
        engine.process_transaction(t).unwrap();
    }
    let client = engine.clients().get(&TEST_CLIENT_ID).unwrap();
    assert_eq!(client.available.units(), 7 * 10i128.pow(32));
    assert_eq!(client.total, client.available);
    let eighth = Transaction::Deposit(Deposit {
        client: TEST_CLIENT_ID,
        tx: TransactionId(8),
        amount: large,
    });
    assert!(!engine.admits(&eighth));
    assert!(engine.try_process_transaction(eighth).is_none());
    let largest: AmountInMinorUnits = "79228162514264337593543950335".parse().unwrap();
    let other = Transaction::Deposit(Deposit {
        client: ClientId(2),
        tx: TransactionId(9),
        amount: largest,
    });
    assert!(matches!(engine.try_process_transaction(other), Some(Ok(()))));
    assert_eq!(engine.clients().get(&ClientId(2)).unwrap().total, largest);
}
