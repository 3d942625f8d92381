use chrono::{DateTime, Duration, Utc};
use fraud_guard::rule::AmountLimitParams;
use fraud_guard::{
    AccountId, Currency, DomainError, Json, ParamError, Rule, RuleType, Timestamp, TransactionId,
    TransactionRequest, Verdict,
};
use std::str::FromStr;

fn moment(time: DateTime<Utc>) -> Timestamp {
    Timestamp::from_timestamp(time.timestamp(), time.timestamp_subsec_nanos()).unwrap()
}

fn rfc3339(text: &str) -> Timestamp {
    moment(DateTime::parse_from_rfc3339(text).unwrap().with_timezone(&Utc))
}

fn json_of(value: serde_json::Value) -> Json {
    match value {
        serde_json::Value::Null => Json::Null,
        serde_json::Value::Bool(b) => Json::Bool(b),
        serde_json::Value::Number(n) => match (n.as_u64(), n.as_i64()) {
            (Some(n), _) => Json::Unsigned(n),
            (None, Some(n)) => Json::Negative(n),
            (None, None) => Json::Fraction(n.to_string()),
        },
        serde_json::Value::String(s) => Json::Text(s),
        serde_json::Value::Array(items) => Json::Array(items.into_iter().map(json_of).collect()),
        serde_json::Value::Object(fields) => {
            Json::Object(fields.into_iter().map(|(k, v)| (k, json_of(v))).collect())
        }
    }
}

fn json(text: &str) -> Json {
    json_of(serde_json::from_str(text).unwrap())
}

fn test_transaction(amount: i64) -> TransactionRequest {
    let source = AccountId::new("1111222233334444").unwrap();
    let dest = AccountId::new("5555666677778888").unwrap();
    TransactionRequest {
        id: TransactionId::new(),
        source_account: source,
        destination_account: dest,
        amount,
        currency: Currency::Rub,
        timestamp: Timestamp::now(),
    }
}

fn active_rule(rule_type: RuleType, params: Json) -> Rule {
    Rule {
        code: "TEST001".to_string(),
        rule_type,
        params,
        enabled: true,
        priority: 10,
        valid_from: rfc3339("2020-01-01T00:00:00Z"),
        valid_until: None,
    }
}

fn inactive_rule(rule_type: RuleType, params: Json) -> Rule {
    let mut rule = active_rule(rule_type, params);
    rule.enabled = false;
    rule
}

fn param_error(rule_type: RuleType, params: &str) -> ParamError {
    match active_rule(rule_type, json(params)).evaluate(&test_transaction(500)) {
        Err(DomainError::ParamParse { rule_code, source }) => {
            assert_eq!(rule_code, "TEST001");
            source
        }
        other => panic!("Expected ParamParse error, got {:?}", other),
    }
}

#[test]
fn threshold_passed() {
    let rule = active_rule(RuleType::Threshold, json(r#"{"max_amount": 1000}"#));
    let tx_req = test_transaction(500);
    let verdict = rule.evaluate(&tx_req).unwrap();
    assert_eq!(verdict, Verdict::Passed);
}

#[test]
fn threshold_triggered() {
    let rule = active_rule(RuleType::Threshold, json(r#"{"max_amount": 1000}"#));
    let tx_req = test_transaction(1500);
    let verdict = rule.evaluate(&tx_req).unwrap();
    match verdict {
        Verdict::Triggered { code, reason } => {
            assert_eq!(code, "TEST001");
            assert!(reason.contains("1500 exceeds limit 1000"));
        }
        _ => panic!("Expected Triggered, got {:?}", verdict),
    }
}

#[test]
fn threshold_reason_is_exact() {
    let rule = active_rule(RuleType::Threshold, json(r#"{"max_amount": -9223372036854775808}"#));
    assert_eq!(
        rule.evaluate(&test_transaction(-7)).unwrap(),
        Verdict::Triggered {
            code: "TEST001".to_string(),
            reason: "Amount -7 exceeds limit -9223372036854775808".to_string(),
        }
    );
    let rule = active_rule(RuleType::Threshold, json(r#"{"max_amount": 0}"#));
    assert_eq!(
        rule.evaluate(&test_transaction(i64::MAX)).unwrap(),
        Verdict::Triggered {
            code: "TEST001".to_string(),
            reason: "Amount 9223372036854775807 exceeds limit 0".to_string(),
        }
    );
}

#[test]
fn threshold_limit_itself_passes() {
    let rule = active_rule(RuleType::Threshold, json(r#"{"max_amount": 1000}"#));
    assert_eq!(rule.evaluate(&test_transaction(1000)).unwrap(), Verdict::Passed);
    assert!(matches!(
        rule.evaluate(&test_transaction(1001)).unwrap(),
        Verdict::Triggered { .. }
    ));
}

#[test]
fn threshold_is_monotone() {
    let rule = active_rule(RuleType::Threshold, json(r#"{"max_amount": 10}"#));
    for amount in [11, 12, 1000, i64::MAX] {
        let verdict = rule.evaluate(&test_transaction(amount)).unwrap();
        assert!(matches!(verdict, Verdict::Triggered { .. }));
    }
    for amount in [10, 9, 0, -5, i64::MIN] {
        assert_eq!(rule.evaluate(&test_transaction(amount)).unwrap(), Verdict::Passed);
    }
}

#[test]
fn threshold_invalid_params() {
    let rule = active_rule(RuleType::Threshold, json(r#"{"wrong_field": 1000}"#));
    let tx_req = test_transaction(500);
    let err = rule.evaluate(&tx_req).unwrap_err();
    match err {
        DomainError::ParamParse { rule_code, source: _ } => {
            assert_eq!(rule_code, "TEST001");
        }
        _ => panic!("Expected ParamParse error, got {:?}", err),
    }
}

#[test]
fn params_of_every_shape() {
    let threshold = |params: &str| param_error(RuleType::Threshold, params).to_string();
    let blacklist = |params: &str| param_error(RuleType::Blacklist, params).to_string();
    assert_eq!(threshold("null"), "invalid type: null, expected struct AmountLimitParams");
    assert_eq!(threshold("5"), "invalid type: integer `5`, expected struct AmountLimitParams");
    assert_eq!(
        threshold("[]"),
        "invalid length 0, expected struct AmountLimitParams with 1 element"
    );
    assert_eq!(threshold("[1, 2]"), "invalid length 2, expected fewer elements in array");
    assert_eq!(threshold(r#"["1", 2]"#), "invalid type: string \"1\", expected i64");
    assert_eq!(threshold("{}"), "missing field `max_amount`");
    assert_eq!(
        blacklist("true"),
        "invalid type: boolean `true`, expected struct BlacklistParams"
    );
    assert_eq!(
        blacklist("[]"),
        "invalid length 0, expected struct BlacklistParams with 1 element"
    );
    assert_eq!(
        blacklist(r#"[["1"], ["2"]]"#),
        "invalid length 2, expected fewer elements in array"
    );
    assert_eq!(blacklist("{}"), "missing field `blacklisted_accounts`");
}

#[test]
fn limits_that_are_no_integers() {
    for text in [
        "1.5",
        "1e3",
        "-0.25",
        "1e300",
        "\"1\"",
        "\"a\\\"b\\n\u{e9}\u{301}\"",
        "null",
        "true",
        "false",
        "[1]",
        "{\"a\": 1}",
        "9223372036854775808",
        "18446744073709551615",
    ] {
        let value: serde_json::Value = serde_json::from_str(text).unwrap();
        let expected = serde_json::from_value::<i64>(value).unwrap_err().to_string();
        let params = format!("{{\"max_amount\": {}}}", text);
        assert_eq!(param_error(RuleType::Threshold, &params).to_string(), expected);
    }
}

#[test]
fn limits_that_are_integers() {
    for text in ["0", "-1", "9223372036854775807", "-9223372036854775808"] {
        let value: serde_json::Value = serde_json::from_str(text).unwrap();
        let limit = serde_json::from_value::<i64>(value).unwrap();
        let params = AmountLimitParams::from_json(&json(&format!("[{}]", text))).unwrap();
        assert_eq!(params.max_amount, limit);
    }
}

#[test]
fn lists_that_hold_other_values() {
    for text in ["null", "-7", "{}", "\"1\"", "[\"1\", 2, null]", "[[\"1\"]]", "[\"1\", 2.5]"] {
        let value: serde_json::Value = serde_json::from_str(text).unwrap();
        let expected = serde_json::from_value::<Vec<String>>(value).unwrap_err().to_string();
        let params = format!("{{\"blacklisted_accounts\": {}}}", text);
        assert_eq!(param_error(RuleType::Blacklist, &params).to_string(), expected);
    }
}

#[test]
fn params_in_an_array_and_beside_others() {
    let rule = active_rule(RuleType::Threshold, json("[499]"));
    let verdict = rule.evaluate(&test_transaction(500)).unwrap();
    assert!(matches!(verdict, Verdict::Triggered { .. }));
    let rule = active_rule(RuleType::Threshold, json(r#"{"a": null, "max_amount": 500, "b": []}"#));
    assert_eq!(rule.evaluate(&test_transaction(500)).unwrap(), Verdict::Passed);
    let rule = active_rule(RuleType::Blacklist, json(r#"[["1111222233334444"]]"#));
    let verdict = rule.evaluate(&test_transaction(500)).unwrap();
    assert!(matches!(verdict, Verdict::Triggered { .. }));
}

#[test]
fn param_errors_tell_the_rule() {
    let missing = DomainError::ParamParse {
        rule_code: "THR001".to_string(),
        source: param_error(RuleType::Threshold, "{}"),
    };
    assert_eq!(
        missing.to_string(),
        "Parameter parsing error for rule THR001: missing field `max_amount`"
    );
}

#[test]
fn params_compare_as_json_values() {
    let texts = [
        "null", "true", "1", "-1", "1.0", "0", "-0", "0.0", "-0.0", "0.5", "\"1\"", "[]", "[1, 2]",
        "[2, 1]", "{}", r#"{"a": 1, "b": [0.0]}"#, r#"{"b": [-0.0], "a": 1}"#,
        r#"{"a": 1, "b": [1]}"#, r#"{"a": 1}"#,
    ];
    for a in texts {
        for b in texts {
            let left: serde_json::Value = serde_json::from_str(a).unwrap();
            let right: serde_json::Value = serde_json::from_str(b).unwrap();
            let expected = left == right;
            assert_eq!(json(a) == json(b), expected, "{} and {}", a, b);
            let rule = |text: &str| active_rule(RuleType::Threshold, json(text));
            assert_eq!(rule(a) == rule(b), expected);
        }
    }
}

#[test]
fn objects_compare_without_order() {
    let field = |name: &str, n: u64| (name.to_string(), Json::Unsigned(n));
    let object = |fields: Vec<(String, Json)>| Json::Object(fields);
    assert_eq!(object(vec![field("a", 1), field("b", 2)]), object(vec![field("b", 2), field("a", 1)]));
    assert_ne!(object(vec![field("a", 1), field("b", 2)]), object(vec![field("b", 1), field("a", 2)]));
    assert_ne!(object(vec![field("a", 1)]), object(vec![field("a", 1), field("b", 2)]));
    let one = active_rule(RuleType::Threshold, object(vec![field("a", 1), field("b", 2)]));
    let two = active_rule(RuleType::Threshold, object(vec![field("b", 2), field("a", 1)]));
    assert_eq!(one, two);
    assert_eq!(one.clone(), one);
}

#[test]
fn rules_compare_by_every_field() {
    let rule = active_rule(RuleType::Threshold, json("[1]"));
    let others: [fn(&mut Rule); 7] = [
        |r| r.code = "X".to_string(),
        |r| r.rule_type = RuleType::Blacklist,
        |r| r.params = json("[2]"),
        |r| r.enabled = false,
        |r| r.priority = 11,
        |r| r.valid_from = rfc3339("2020-01-01T00:00:01Z"),
        |r| r.valid_until = Some(rfc3339("2030-01-01T00:00:00Z")),
    ];
    for change in others {
        let mut other = rule.clone();
        assert_eq!(other, rule);
        change(&mut other);
        assert_ne!(other, rule);
    }
}

#[test]
fn rule_types_have_names() {
    assert_eq!(RuleType::from_str("Threshold").unwrap(), RuleType::Threshold);
    assert_eq!(RuleType::from_str("Blacklist").unwrap(), RuleType::Blacklist);
    let err = RuleType::from_str("threshold").unwrap_err();
    assert_eq!(err.to_string(), "Validation error: Invalid rule type: threshold");
}

#[test]
fn blacklist_triggered() {
    let rule = active_rule(
        RuleType::Blacklist,
        json(r#"{"blacklisted_accounts": ["1111222233334444"]}"#),
    );
    let tx_req = test_transaction(100);
    let verdict = rule.evaluate(&tx_req).unwrap();
    match verdict {
        Verdict::Triggered { code, reason } => {
            assert_eq!(code, "TEST001");
            assert!(reason.contains("1111222233334444 is blacklisted"));
            assert_eq!(reason, "Account 1111222233334444 is blacklisted");
        }
        _ => panic!("Expected Triggered, got {:?}", verdict),
    }
}

#[test]
fn blacklist_passes_other_sources() {
    let rule = active_rule(
        RuleType::Blacklist,
        json(r#"{"blacklisted_accounts": ["5555666677778888", "9999000011112222"]}"#),
    );
    assert_eq!(rule.evaluate(&test_transaction(100)).unwrap(), Verdict::Passed);
    let rule = active_rule(RuleType::Blacklist, json(r#"{"blacklisted_accounts": []}"#));
    assert_eq!(rule.evaluate(&test_transaction(100)).unwrap(), Verdict::Passed);
}

#[test]
fn blacklist_invalid_params() {
    let rule = active_rule(RuleType::Blacklist, json(r#"{"wrong_field": ["1111"]}"#));
    let tx_req = test_transaction(100);
    let err = rule.evaluate(&tx_req).unwrap_err();
    match err {
        DomainError::ParamParse { rule_code, source: _ } => {
            assert_eq!(rule_code, "TEST001");
        }
        _ => panic!("Expected ParamParse error, got {:?}", err),
    }
}

#[test]
fn inactive_rule_skipped() {
    let rule = inactive_rule(RuleType::Threshold, json(r#"{"max_amount": 1000}"#));
    let tx_req = test_transaction(500);
    let verdict = rule.evaluate(&tx_req).unwrap();
    match verdict {
        Verdict::Skipped { reason } => {
            assert_eq!(reason, "Rule is not active at this time");
        }
        _ => panic!("Expected Skipped, got {:?}", verdict),
    }
}

#[test]
fn inactive_rule_with_invalid_params_skipped() {
    let rule = inactive_rule(RuleType::Threshold, json("null"));
    let verdict = rule.evaluate(&test_transaction(500)).unwrap();
    assert!(matches!(verdict, Verdict::Skipped { .. }));
}

#[test]
fn rule_not_yet_valid_skipped() {
    let mut rule = active_rule(RuleType::Threshold, json(r#"{"max_amount": 1000}"#));
    rule.valid_from = moment(Utc::now() + Duration::days(1));
    let tx_req = test_transaction(500);
    let verdict = rule.evaluate(&tx_req).unwrap();
    match verdict {
        Verdict::Skipped { reason } => {
            assert_eq!(reason, "Rule is not active at this time");
        }
        _ => panic!("Expected Skipped, got {:?}", verdict),
    }
}

#[test]
fn rule_expired_skipped() {
    let mut rule = active_rule(RuleType::Threshold, json(r#"{"max_amount": 1000}"#));
    rule.valid_until = Some(moment(Utc::now() - Duration::days(1)));
    let tx_req = test_transaction(500);
    let verdict = rule.evaluate(&tx_req).unwrap();
    match verdict {
        Verdict::Skipped { reason } => {
            assert_eq!(reason, "Rule is not active at this time");
        }
        _ => panic!("Expected Skipped, got {:?}", verdict),
    }
}

#[test]
fn rule_is_active_at() {
    let rule = Rule {
        code: "THR001".to_string(),
        rule_type: RuleType::Threshold,
        params: json(r#"{"max_amount": 100000}"#),
        enabled: true,
        priority: 10,
        valid_from: rfc3339("2026-01-01T00:00:00Z"),
        valid_until: Some(rfc3339("2026-12-31T23:59:59Z")),
    };

    let mid = rfc3339("2026-06-15T12:00:00Z");
    assert!(rule.is_active_at(mid));

    let before = rfc3339("2025-12-31T23:59:59Z");
    assert!(!rule.is_active_at(before));

    let after = rfc3339("2027-01-01T00:00:01Z");
    assert!(!rule.is_active_at(after));
}

#[test]
fn rule_window_is_half_open() {
    let mut rule = active_rule(RuleType::Threshold, json(r#"{"max_amount": 100000}"#));
    rule.valid_from = rfc3339("2026-01-01T00:00:00.5Z");
    rule.valid_until = Some(rfc3339("2026-12-31T23:59:59.25Z"));
    assert!(!rule.is_active_at(rfc3339("2026-01-01T00:00:00.499999999Z")));
    assert!(rule.is_active_at(rfc3339("2026-01-01T00:00:00.5Z")));
    assert!(rule.is_active_at(rfc3339("2026-12-31T23:59:59.249999999Z")));
    assert!(!rule.is_active_at(rfc3339("2026-12-31T23:59:59.25Z")));
}

#[test]
fn rule_is_active_at_when_disabled() {
    let rule = Rule {
        code: "THR001".to_string(),
        rule_type: RuleType::Threshold,
        params: json(r#"{"max_amount": 100000}"#),
        enabled: false,
        priority: 10,
        valid_from: rfc3339("2025-01-01T00:00:00Z"),
        valid_until: None,
    };

    let now = Timestamp::now();
    assert!(!rule.is_active_at(now));
}

#[test]
fn rule_is_active_with_no_expiry() {
    let rule = Rule {
        code: "THR001".to_string(),
        rule_type: RuleType::Threshold,
        params: json(r#"{"max_amount": 100000}"#),
        enabled: true,
        priority: 10,
        valid_from: rfc3339("2020-01-01T00:00:00Z"),
        valid_until: None,
    };

    let far_future = rfc3339("2099-01-01T00:00:00Z");
    assert!(rule.is_active_at(far_future));
}

#[test]
fn clones_are_equal() {
    let rule = active_rule(
        RuleType::Blacklist,
        json(r#"{"a": [1, -2, 3.5, null, true, {"b": "c"}], "blacklisted_accounts": []}"#),
    );
    assert_eq!(rule.clone(), rule);
}
