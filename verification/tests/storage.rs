use fraud_guard::storage::operation::{OperationRun, StorageOperation};
use fraud_guard::storage::retry::{Retry, RetryStep};
use fraud_guard::storage::rows::{
    rules_from_rows, transaction_from_row, transaction_row, transactions_from_rows, RuleRow,
    TransactionRow,
};
use fraud_guard::{
    AccountId, Currency, DomainError, Json, RuleType, Timestamp, TransactionMessage,
    TransactionRequest,
};

fn transaction(amount: i64) -> TransactionRequest {
    let source = AccountId::new("1111222233334444").unwrap();
    let dest = AccountId::new("5555666677778888").unwrap();
    TransactionRequest::new(source, dest, amount, Currency::Cny)
}

fn repository(err: DomainError) -> (String, String) {
    match err {
        DomainError::Repository { operation, message } => (operation.to_string(), message),
        other => panic!("Expected Repository error, got {:?}", other),
    }
}

#[test]
fn rows_keep_transactions() {
    let tx = transaction(100);
    let row = transaction_row(&tx);
    assert_eq!(row.transaction_id, tx.id.as_uuid());
    assert_eq!(row.source_account, "1111222233334444");
    assert_eq!(row.destination_account, "5555666677778888");
    assert_eq!(row.amount, 100);
    assert_eq!(row.currency, "CNY");
    assert_eq!(row.timestamp, tx.timestamp);
    let back = transaction_from_row(&row).unwrap();
    assert_eq!(back.id, tx.id);
    assert!(back.source_account == tx.source_account);
    assert!(back.destination_account == tx.destination_account);
    assert_eq!(back.amount, tx.amount);
    assert_eq!(back.currency, tx.currency);
    assert_eq!(back.timestamp, tx.timestamp);
}

#[test]
fn rows_say_what_the_message_said() {
    let msg = TransactionMessage {
        transaction_id: "{550E8400-E29B-41D4-A716-446655440000}".to_string(),
        source_account: " 1111222233334444".to_string(),
        destination_account: "5555666677778888\n".to_string(),
        amount: -7,
        currency: "EUR".to_string(),
        timestamp: None,
    };
    let time = Timestamp::from_timestamp(59, 1_500_000_000).unwrap();
    let row = transaction_row(&msg.request_at(time).unwrap());
    assert_eq!(row.transaction_id, 0x550e8400e29b41d4a716446655440000);
    assert_eq!(row.source_account, "1111222233334444");
    assert_eq!(row.destination_account, "5555666677778888");
    assert_eq!(row.amount, -7);
    assert_eq!(row.currency, "EUR");
    assert_eq!(row.timestamp, time);
}

#[test]
fn rows_fail_with_the_first_fault() {
    let rows: Vec<TransactionRow> = [1, 2, 3].iter().map(|n| transaction_row(&transaction(*n))).collect();
    let requests = transactions_from_rows(&rows).unwrap();
    let amounts: Vec<i64> = requests.iter().map(|tx| tx.amount).collect();
    assert_eq!(amounts, [1, 2, 3]);

    let mut rows = rows;
    rows[2].source_account = "x".to_string();
    rows[1].currency = "XYZ".to_string();
    let err = transactions_from_rows(&rows).unwrap_err();
    assert_eq!(
        repository(err),
        ("parse currency from DB".to_string(), "Validation error: Invalid currency: XYZ".to_string())
    );
    rows[1].destination_account = "111122223333444x".to_string();
    let err = transactions_from_rows(&rows).unwrap_err();
    assert_eq!(
        repository(err),
        (
            "parse destination account from DB".to_string(),
            "Validation error: Account ID must contain only digits".to_string()
        )
    );
    rows[1].source_account = "".to_string();
    let err = transactions_from_rows(&rows).unwrap_err();
    assert_eq!(
        repository(err),
        (
            "parse source account from DB".to_string(),
            "Validation error: Account ID must be exactly 16 characters long".to_string()
        )
    );
}

fn rule_row(code: &str, rule_type: &str) -> RuleRow {
    RuleRow {
        code: code.to_string(),
        rule_type: rule_type.to_string(),
        params: Json::Object(vec![("max_amount".to_string(), Json::Unsigned(5))]),
        enabled: true,
        priority: 10,
        valid_from: Timestamp::from_timestamp(1, 0).unwrap(),
        valid_until: Some(Timestamp::from_timestamp(2, 0).unwrap()),
    }
}

#[test]
fn rules_come_from_rows_in_order() {
    let rows = vec![rule_row("B", "Blacklist"), rule_row("A", "Threshold")];
    let rules = rules_from_rows(&rows).unwrap();
    assert_eq!(rules.len(), 2);
    assert_eq!(rules[0].code, "B");
    assert_eq!(rules[0].rule_type, RuleType::Blacklist);
    assert_eq!(rules[1].code, "A");
    assert_eq!(rules[1].rule_type, RuleType::Threshold);
    assert_eq!(rules[1].params, rows[1].params);
    assert!(rules[1].enabled);
    assert_eq!(rules[1].priority, 10);
    assert_eq!(rules[1].valid_from, rows[1].valid_from);
    assert_eq!(rules[1].valid_until, rows[1].valid_until);
    assert!(rules_from_rows(&vec![]).unwrap().is_empty());
}

#[test]
fn rules_fail_with_the_first_unknown_type() {
    let rows = vec![
        rule_row("A", "Threshold"),
        rule_row("B", "first"),
        rule_row("C", "second"),
    ];
    let err = rules_from_rows(&rows).unwrap_err();
    assert_eq!(
        repository(err),
        (
            "parse rule type from DB".to_string(),
            "Validation error: Invalid rule type: first".to_string()
        )
    );
}

#[test]
fn both_are_inserted_in_one_transaction() {
    let mut run = OperationRun::insert_both();
    for (operation, name) in [
        (StorageOperation::BeginTransaction, "begin db transaction"),
        (StorageOperation::InsertTransaction, "insert transaction"),
        (StorageOperation::SerializeDecision, "serialize decision to JSON"),
        (StorageOperation::InsertDecision, "insert decision"),
        (StorageOperation::CommitTransaction, "commit db transaction"),
    ] {
        assert_eq!(run.current(), Some(operation));
        assert_eq!(operation.name(), name);
        assert!(run.report(Ok(())).is_ok());
    }
    assert_eq!(run.current(), None);
    assert!(run.report(Err("late".to_string())).is_ok());
}

#[test]
fn the_first_failure_ends_a_run() {
    let mut run = OperationRun::insert_both();
    assert!(run.report(Ok(())).is_ok());
    let err = run.report(Err("duplicate".to_string())).unwrap_err();
    assert_eq!(err.to_string(), "Repository error while insert transaction: duplicate");
    assert_eq!(run.current(), None);
}

#[test]
fn single_stores() {
    let mut run = OperationRun::store_decision();
    assert_eq!(run.current(), Some(StorageOperation::SerializeDecision));
    assert!(run.report(Ok(())).is_ok());
    let err = run.report(Err("gone".to_string())).unwrap_err();
    assert_eq!(repository(err), ("store decision".to_string(), "gone".to_string()));

    let mut run = OperationRun::store_transaction();
    let err = run.report(Err("gone".to_string())).unwrap_err();
    assert_eq!(repository(err), ("insert transaction into DB".to_string(), "gone".to_string()));
}

#[test]
fn operations_tell_their_errors() {
    for (operation, name) in [
        (StorageOperation::FetchTransactions, "fetch transactions from DB"),
        (StorageOperation::LoadActiveRules, "load active rules from DB"),
    ] {
        let err = operation.failed("gone".to_string());
        assert_eq!(repository(err), (name.to_string(), "gone".to_string()));
    }
}

fn failure(text: &str) -> Result<(), DomainError> {
    Err(StorageOperation::InsertDecision.failed(text.to_string()))
}

#[test]
fn three_attempts_at_most() {
    let retry = match Retry::new().after_attempt(failure("one")) {
        RetryStep::Again { delay_millis: 100, retry } => retry,
        other => panic!("Expected Again, got {:?}", other),
    };
    let retry = match retry.after_attempt(failure("two")) {
        RetryStep::Again { delay_millis: 200, retry } => retry,
        other => panic!("Expected Again, got {:?}", other),
    };
    match retry.after_attempt(failure("three")) {
        RetryStep::GiveUp(err) => assert_eq!(repository(err).1, "three"),
        other => panic!("Expected GiveUp, got {:?}", other),
    }
}

#[test]
fn a_success_ends_the_attempts() {
    assert!(matches!(Retry::new().after_attempt(Ok(())), RetryStep::Done));
    match Retry::new().after_attempt(failure("one")) {
        RetryStep::Again { retry, .. } => {
            assert!(matches!(retry.after_attempt(Ok(())), RetryStep::Done))
        }
        other => panic!("Expected Again, got {:?}", other),
    }
}
