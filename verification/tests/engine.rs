use fraud_guard::messages::{EvaluateTransactionRequest, UpdateRules};
use fraud_guard::{
    AccountId, Currency, Decision, Engine, Json, Rule, RuleType, Timestamp, TransactionId,
    TransactionRequest,
};
use std::sync::Arc;

fn test_transaction(amount: i64) -> TransactionRequest {
    let source = AccountId::new("1111222233334444").unwrap();
    let dest = AccountId::new("5555666677778888").unwrap();
    TransactionRequest {
        id: TransactionId::new(),
        source_account: source,
        destination_account: dest,
        amount,
        currency: Currency::Rub,
        timestamp: Timestamp::now(),
    }
}

fn invalid_test_transaction(amount: i64) -> TransactionRequest {
    let source = AccountId::new("1111222233334444").unwrap();
    TransactionRequest {
        id: TransactionId::new(),
        source_account: source.clone(),
        destination_account: source,
        amount,
        currency: Currency::Rub,
        timestamp: Timestamp::now(),
    }
}

fn days_from_now(days: i64) -> Timestamp {
    Timestamp::from_timestamp(Timestamp::now().timestamp() + days * 86400, 0).unwrap()
}

fn create_rule(code: &str, rule_type: RuleType, params: Json) -> Rule {
    Rule {
        code: code.to_string(),
        rule_type,
        params,
        enabled: true,
        priority: 10,
        valid_from: days_from_now(-1),
        valid_until: Some(days_from_now(1)),
    }
}

fn threshold(max_amount: u64) -> Rule {
    create_rule(
        "TEST001",
        RuleType::Threshold,
        Json::Object(vec![("max_amount".to_string(), Json::Unsigned(max_amount))]),
    )
}

fn evaluate(engine: &Engine, tx: TransactionRequest, correlation_id: u64) -> Decision {
    let amount = tx.amount;
    let results = engine.evaluate(EvaluateTransactionRequest { tx, correlation_id });
    assert_eq!(results.correlation_id, correlation_id);
    assert_eq!(results.tx.amount, amount);
    results.decision
}

#[test]
fn engine_accepts_clean_transaction() {
    let engine = Engine::new(Some(vec![threshold(10000)]));
    assert_eq!(evaluate(&engine, test_transaction(100), 123), Decision::Accept);
}

#[test]
fn engine_triggers_rule() {
    let engine = Engine::new(Some(vec![threshold(50)]));
    match evaluate(&engine, test_transaction(100), 123) {
        Decision::Review { triggered_rules } => {
            assert_eq!(triggered_rules.len(), 1);
            assert_eq!(triggered_rules[0].code, "TEST001");
            assert_eq!(triggered_rules[0].reason, "Amount 100 exceeds limit 50");
        }
        other => panic!("Expected Review, got {:?}", other),
    }
}

#[test]
fn engine_handles_invalid_transaction() {
    let engine = Engine::new(Some(vec![threshold(50)]));
    match evaluate(&engine, invalid_test_transaction(100), 123) {
        Decision::Decline { reason } => {
            assert!(reason.contains("Source and destination accounts must differ"));
            assert_eq!(reason, "Validation error: Source and destination accounts must differ");
        }
        other => panic!("Expected Decline, got {:?}", other),
    }
}

#[test]
fn engine_updates_rules_cache() {
    let mut engine = Engine::new(Some(vec![threshold(1000)]));
    let tx = test_transaction(100);
    assert_eq!(evaluate(&engine, tx.clone(), 123), Decision::Accept);

    engine.update_rules(UpdateRules { rules: Arc::new(vec![threshold(10)]) });
    assert_eq!(engine.rule_count(), 1);

    match evaluate(&engine, tx.clone(), 456) {
        Decision::Review { triggered_rules } => {
            assert_eq!(triggered_rules.len(), 1);
        }
        other => panic!("Expected Review, got {:?}", other),
    }
}

#[test]
fn engine_without_rules_accepts() {
    let engine = Engine::new(None);
    assert_eq!(engine.rule_count(), 0);
    assert_eq!(evaluate(&engine, test_transaction(1), 1), Decision::Accept);
}

#[test]
fn engine_keeps_the_order_and_skips_silent_rules() {
    let mut disabled = threshold(0);
    disabled.enabled = false;
    let unreadable = create_rule("BAD", RuleType::Threshold, Json::Null);
    let list = create_rule(
        "LIST",
        RuleType::Blacklist,
        Json::Object(vec![(
            "blacklisted_accounts".to_string(),
            Json::Array(vec![Json::Text("1111222233334444".to_string())]),
        )]),
    );
    let engine = Engine::new(Some(vec![disabled, list, unreadable, threshold(1000), threshold(5)]));
    match evaluate(&engine, test_transaction(100), 1) {
        Decision::Review { triggered_rules } => {
            let codes: Vec<&str> = triggered_rules.iter().map(|t| t.code.as_str()).collect();
            assert_eq!(codes, ["LIST", "TEST001"]);
            assert_eq!(triggered_rules[1].reason, "Amount 100 exceeds limit 5");
        }
        other => panic!("Expected Review, got {:?}", other),
    }
}

#[test]
fn engine_says_of_two_lists_what_each_says() {
    let tx = test_transaction(100);
    let a = Engine::new(Some(vec![threshold(5), threshold(500)]));
    let b = Engine::new(Some(vec![threshold(7)]));
    let both = Engine::new(Some(vec![threshold(5), threshold(500), threshold(7)]));
    let mut apart = a.triggered(&tx);
    apart.extend(b.triggered(&tx));
    assert_eq!(both.triggered(&tx), apart);
}

#[test]
fn engine_tells_the_failures() {
    let unreadable = |code: &str, params: Json| create_rule(code, RuleType::Threshold, params);
    let engine = Engine::new(Some(vec![
        unreadable("ONE", Json::Null),
        threshold(5),
        unreadable("TWO", Json::Object(vec![])),
    ]));
    let texts: Vec<String> =
        engine.failures(&test_transaction(100)).iter().map(|e| e.to_string()).collect();
    assert_eq!(
        texts,
        [
            "Parameter parsing error for rule ONE: invalid type: null, expected struct AmountLimitParams",
            "Parameter parsing error for rule TWO: missing field `max_amount`",
        ]
    );
    assert!(Engine::new(None).failures(&test_transaction(100)).is_empty());
}

#[test]
fn engine_minds_only_what_is_triggered() {
    let tx = test_transaction(100);
    let silent = create_rule("BAD", RuleType::Blacklist, Json::Null);
    let a = Engine::new(Some(vec![silent.clone(), threshold(5), threshold(500), silent]));
    let b = Engine::new(Some(vec![threshold(200), threshold(5)]));
    assert_eq!(a.decide(&tx), b.decide(&tx));
}
