use payment_engine::amount::AmountInMinorUnits;
use payment_engine::engine::TransactionEngine;
use payment_engine::memory::{
    InMemoryClientRepository, InMemoryEngineDeps, InMemoryTransactionRepository,
};
use payment_engine::model::{Client, ClientId, Transaction, TransactionId, Withdrawal};
use payment_engine::ports::{ClientRepository, ClientRepositoryErrors, Engine, EngineErrors};

const TEST_CLIENT_ID: ClientId = ClientId(1);
const TEST_TRANSACTION_ID_1: TransactionId = TransactionId(1);

struct TestContext {
    client_repo: InMemoryClientRepository,
    transaction_repo: InMemoryTransactionRepository,
}

impl TestContext {
    fn new() -> Self {
        TestContext {
            client_repo: InMemoryClientRepository::default(),
            transaction_repo: InMemoryTransactionRepository::default(),
        }
    }

    fn engine(self) -> TransactionEngine<InMemoryEngineDeps> {
        TransactionEngine::new(self.client_repo, self.transaction_repo)
    }
}

fn test_client(amount: AmountInMinorUnits) -> Client {
    Client {
        id: TEST_CLIENT_ID,
        available: amount.clone(),
        held: AmountInMinorUnits::from(0),
        total: amount,
        locked: false,
    }
}

#[test]
fn successful_withdrawal_decreases_client_available_funds() {
    let mut ctx = TestContext::new();
    ctx.client_repo
        .insert(test_client(AmountInMinorUnits::from(100)))
        .unwrap();

    let mut engine = ctx.engine();
    engine
        .process_transaction(Transaction::Withdrawal(Withdrawal {
            client: TEST_CLIENT_ID,
            tx: TEST_TRANSACTION_ID_1,
            amount: AmountInMinorUnits::from(10u64),
        }))
        .unwrap();

    let clients = engine.get_clients().unwrap();
    assert_eq!(clients[0].available, AmountInMinorUnits::from(90u64))
}

#[test]
fn successful_withdrawal_decreases_client_total_funds() {
    let mut ctx = TestContext::new();
    ctx.client_repo
        .insert(test_client(AmountInMinorUnits::from(100)))
        .unwrap();

    let mut engine = ctx.engine();
    engine
        .process_transaction(Transaction::Withdrawal(Withdrawal {
            client: TEST_CLIENT_ID,
            tx: TEST_TRANSACTION_ID_1,
            amount: AmountInMinorUnits::from(10u64),
        }))
        .unwrap();

    let clients = engine.get_clients().unwrap();
    assert_eq!(clients[0].total, AmountInMinorUnits::from(90u64))
}

#[test]
fn when_available_funds_are_too_low_withdrawal_does_not_effect_available_funds() {
    let mut ctx = TestContext::new();
    ctx.client_repo
        .insert(test_client(AmountInMinorUnits::from(100)))
        .unwrap();

    let mut engine = ctx.engine();
    engine
        .process_transaction(Transaction::Withdrawal(Withdrawal {
            client: TEST_CLIENT_ID,
            tx: TEST_TRANSACTION_ID_1,
            amount: AmountInMinorUnits::from(110u64),
        }))
        .unwrap();

    let clients = engine.get_clients().unwrap();
    assert_eq!(clients[0].available, AmountInMinorUnits::from(100u64))
}

#[test]
fn when_available_funds_are_too_low_withdrawal_does_not_effect_total_funds() {
    let mut ctx = TestContext::new();
    ctx.client_repo
        .insert(test_client(AmountInMinorUnits::from(100)))
        .unwrap();

    let mut engine = ctx.engine();
    engine
        .process_transaction(Transaction::Withdrawal(Withdrawal {
            client: TEST_CLIENT_ID,
            tx: TEST_TRANSACTION_ID_1,
            amount: AmountInMinorUnits::from(110u64),
        }))
        .unwrap();

    let clients = engine.get_clients().unwrap();
    assert_eq!(clients[0].total, AmountInMinorUnits::from(100u64))
}

#[test]
fn withdrawal_of_all_that_is_available_changes_nothing() {
    let mut ctx = TestContext::new();
    ctx.client_repo
        .insert(test_client(AmountInMinorUnits::from(100)))
        .unwrap();

    let mut engine = ctx.engine();
    engine
        .process_transaction(Transaction::Withdrawal(Withdrawal {
            client: TEST_CLIENT_ID,
            tx: TEST_TRANSACTION_ID_1,
            amount: AmountInMinorUnits::from(100u64),
        }))
        .unwrap();

    let clients = engine.get_clients().unwrap();
    assert_eq!(clients[0].available, AmountInMinorUnits::from(100u64))
}

#[test]
fn withdrawal_of_all_that_is_available_keeps_the_total() {
    let mut ctx = TestContext::new();
    ctx.client_repo
        .insert(test_client(AmountInMinorUnits::from(100)))
        .unwrap();

    let mut engine = ctx.engine();
    engine
        .process_transaction(Transaction::Withdrawal(Withdrawal {
            client: TEST_CLIENT_ID,
            tx: TEST_TRANSACTION_ID_1,
            amount: AmountInMinorUnits::from(100u64),
        }))
        .unwrap();

    let clients = engine.get_clients().unwrap();
    assert_eq!(clients[0].total, AmountInMinorUnits::from(100u64))
}

#[test]
fn withdrawal_just_under_what_is_available_goes_through() {
    let mut ctx = TestContext::new();
    ctx.client_repo
        .insert(test_client(AmountInMinorUnits::from(100)))
        .unwrap();

    let mut engine = ctx.engine();
    engine
        .process_transaction(Transaction::Withdrawal(Withdrawal {
            client: TEST_CLIENT_ID,
            tx: TEST_TRANSACTION_ID_1,
            amount: "99.9999".parse().unwrap(),
        }))
        .unwrap();

    let clients = engine.get_clients().unwrap();
    assert_eq!(clients[0].available, "0.0001".parse().unwrap())
}

#[test]
fn withdrawal_just_over_what_is_available_changes_nothing() {
    let mut ctx = TestContext::new();
    ctx.client_repo
        .insert(test_client(AmountInMinorUnits::from(100)))
        .unwrap();

    let mut engine = ctx.engine();
    engine
        .process_transaction(Transaction::Withdrawal(Withdrawal {
            client: TEST_CLIENT_ID,
            tx: TEST_TRANSACTION_ID_1,
            amount: "100.0001".parse().unwrap(),
        }))
        .unwrap();

    let clients = engine.get_clients().unwrap();
    assert_eq!(clients[0].available, AmountInMinorUnits::from(100u64))
}

#[test]
fn withdrawal_by_an_unknown_client_is_an_error() {
    let ctx = TestContext::new();
    let mut engine = ctx.engine();
    let r = engine.process_transaction(Transaction::Withdrawal(Withdrawal {
        client: ClientId(9),
        tx: TEST_TRANSACTION_ID_1,
        amount: AmountInMinorUnits::from(1),
    }));
    assert!(matches!(
        r,
        Err(EngineErrors::ClientError(ClientRepositoryErrors::ClientNotFound(ClientId(9))))
    ));
    assert_eq!(engine.get_clients().unwrap().len(), 0);
}

#[test]
fn withdrawal_leaves_held_funds_alone_and_records_no_transaction() {
    let mut ctx = TestContext::new();
    ctx.client_repo
        .insert(Client {
            id: TEST_CLIENT_ID,
            available: AmountInMinorUnits::from(100),
            held: AmountInMinorUnits::from(30),
            total: AmountInMinorUnits::from(130),
            locked: false,
        })
        .unwrap();
    let mut engine = ctx.engine();
    engine
        .process_transaction(Transaction::Withdrawal(Withdrawal {
            client: TEST_CLIENT_ID,
            tx: TEST_TRANSACTION_ID_1,
            amount: AmountInMinorUnits::from(40),
        }))
        .unwrap();
    let client = engine.clients().get(&TEST_CLIENT_ID).unwrap();
    assert_eq!(client.available, AmountInMinorUnits::from(60));
    assert_eq!(client.held, AmountInMinorUnits::from(30));
    assert_eq!(client.total, AmountInMinorUnits::from(90));
    let r = engine.process_transaction(Transaction::Dispute(payment_engine::model::Dispute {
        client: TEST_CLIENT_ID,
        tx: TEST_TRANSACTION_ID_1,
    }));
    assert!(r.is_err());
}
