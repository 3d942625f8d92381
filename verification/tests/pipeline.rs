use fraud_guard::messages::{AckMessage, EvaluateTransactionRequest, PersistResults, StoreDelivery};
use fraud_guard::rules_cache::{next_refresh, RefreshAction, RefreshEvent};
use fraud_guard::sink::acknowledge;
use fraud_guard::storage::operation::{OperationRun, StorageOperation};
use fraud_guard::{
    AccountId, AckCommand, Currency, Decision, DeliveryLedger, DomainError, Engine, Json, Rule,
    RuleType, Timestamp, TransactionId, TransactionRequest, TriggeredRule,
};

fn test_transaction(amount: i64) -> TransactionRequest {
    let source = AccountId::new("1111222233334444").unwrap();
    let dest = AccountId::new("5555666677778888").unwrap();
    TransactionRequest {
        id: TransactionId::new(),
        source_account: source,
        destination_account: dest,
        amount,
        currency: Currency::Rub,
        timestamp: Timestamp::now(),
    }
}

fn create_rule(max_amount: u64) -> Rule {
    let day = |n: i64| Timestamp::from_timestamp(Timestamp::now().timestamp() + n * 86400, 0);
    Rule {
        code: "TEST001".to_string(),
        rule_type: RuleType::Threshold,
        params: Json::Object(vec![("max_amount".to_string(), Json::Unsigned(max_amount))]),
        enabled: true,
        priority: 10,
        valid_from: day(-1).unwrap(),
        valid_until: day(1),
    }
}

fn failure() -> DomainError {
    DomainError::Repository { operation: "insert decision", message: "gone".to_string() }
}

fn run(
    engine: &Engine,
    tx: TransactionRequest,
    correlation_id: u64,
    stored: Result<(), DomainError>,
) -> (Decision, Option<AckCommand>) {
    let mut ledger = DeliveryLedger::new();
    ledger.store_delivery(StoreDelivery { correlation_id });
    let results = engine.evaluate(EvaluateTransactionRequest { tx, correlation_id });
    let ack = acknowledge(&results, stored);
    assert_eq!(ack.correlation_id, correlation_id);
    (results.decision, ledger.acknowledge(ack))
}

#[test]
fn pipeline_accepts_clean_transaction() {
    let engine = Engine::new(Some(vec![create_rule(10000)]));
    let (decision, command) = run(&engine, test_transaction(100), 42, Ok(()));
    assert_eq!(decision, Decision::Accept);
    assert_eq!(command, Some(AckCommand::Ack(42)));
}

#[test]
fn pipeline_triggers_rule_and_reviews() {
    let engine = Engine::new(Some(vec![create_rule(50)]));
    let (decision, command) = run(&engine, test_transaction(100), 99, Ok(()));
    match decision {
        Decision::Review { triggered_rules } => {
            assert_eq!(triggered_rules.len(), 1);
            assert_eq!(triggered_rules[0].code, "TEST001");
        }
        other => panic!("Expected Review, got {:?}", other),
    }
    assert_eq!(command, Some(AckCommand::Ack(99)));
}

#[test]
fn pipeline_declines_invalid_transaction() {
    let engine = Engine::new(None);
    let mut tx = test_transaction(100);
    tx.destination_account = tx.source_account.clone();
    let (decision, command) = run(&engine, tx, 7, Ok(()));
    match decision {
        Decision::Decline { reason } => {
            assert!(reason.contains("Source and destination accounts must differ"));
        }
        other => panic!("Expected Decline, got {:?}", other),
    }
    assert_eq!(command, Some(AckCommand::Ack(7)));
}

#[test]
fn pipeline_refuses_what_cannot_be_stored() {
    let engine = Engine::new(None);
    let (decision, command) = run(&engine, test_transaction(100), 7, Err(failure()));
    assert_eq!(decision, Decision::Accept);
    assert_eq!(command, Some(AckCommand::Nack(7)));
}

fn store(
    inserted: &mut Vec<(TransactionRequest, Decision)>,
    results: &PersistResults,
) -> Result<(), DomainError> {
    let mut run = OperationRun::insert_both();
    while let Some(operation) = run.current() {
        if operation == StorageOperation::CommitTransaction {
            inserted.push((results.tx.clone(), results.decision.clone()));
        }
        run.report(Ok(()))?;
    }
    Ok(())
}

#[test]
fn sink_stores_transaction_and_decision() {
    let mut inserted = Vec::new();
    let results = PersistResults {
        tx: test_transaction(100),
        decision: Decision::Review {
            triggered_rules: vec![TriggeredRule {
                code: "TEST001".to_string(),
                reason: "Exceeds limit".to_string(),
            }],
        },
        correlation_id: 123,
    };
    let stored = store(&mut inserted, &results);
    let msgs = vec![acknowledge(&results, stored)];
    assert_eq!(msgs.len(), 1);
    assert_eq!(msgs[0].correlation_id, 123);
    assert!(msgs[0].result.is_ok());
    assert_eq!(inserted.len(), 1);
    assert_eq!(inserted[0].1, results.decision);
}

#[test]
fn sink_handles_multiple_messages() {
    let mut inserted = Vec::new();
    let mut msgs = Vec::new();
    for i in 0..3 {
        let results = PersistResults {
            tx: test_transaction(100 + i),
            decision: Decision::Accept,
            correlation_id: 123 + i as u64,
        };
        let stored = store(&mut inserted, &results);
        msgs.push(acknowledge(&results, stored));
    }
    assert_eq!(msgs.len(), 3);
    for (i, msg) in msgs.iter().enumerate() {
        assert_eq!(msg.correlation_id, 123 + i as u64);
        assert!(msg.result.is_ok());
    }
    assert_eq!(inserted.len(), 3);
}

#[test]
fn ledger_settles_each_delivery_once() {
    let mut ledger = DeliveryLedger::new();
    let ok = |correlation_id: u64| AckMessage { correlation_id, result: Ok(()) };
    assert_eq!(ledger.acknowledge(ok(1)), None);
    ledger.store_delivery(StoreDelivery { correlation_id: 1 });
    ledger.store_delivery(StoreDelivery { correlation_id: 1 });
    ledger.store_delivery(StoreDelivery { correlation_id: 2 });
    assert_eq!(ledger.acknowledge(ok(1)), Some(AckCommand::Ack(1)));
    assert_eq!(ledger.acknowledge(ok(1)), None);
    let failed = AckMessage { correlation_id: 2, result: Err(failure()) };
    assert_eq!(ledger.acknowledge(failed), Some(AckCommand::Nack(2)));
    assert_eq!(ledger.acknowledge(ok(2)), None);
}

#[test]
fn refresh_sends_what_was_loaded() {
    match next_refresh(RefreshEvent::Loaded(Ok(vec![create_rule(1), create_rule(2)]))) {
        RefreshAction::Send(msg) => {
            assert_eq!(msg.rules.len(), 2);
            assert_eq!(msg.rules[0].code, "TEST001");
        }
        other => panic!("Expected Send, got {:?}", other),
    }
    assert!(matches!(
        next_refresh(RefreshEvent::Loaded(Err(failure()))),
        RefreshAction::AwaitTick
    ));
    assert!(matches!(next_refresh(RefreshEvent::Sent(Ok(()))), RefreshAction::AwaitTick));
    assert!(matches!(
        next_refresh(RefreshEvent::Sent(Err("stopped".to_string()))),
        RefreshAction::Stop
    ));
}
