use fraud_guard::{AccountId, Currency, DomainError, TransactionId, TransactionRequest};
use std::str::FromStr;

fn validation(err: DomainError) -> String {
    match err {
        DomainError::Validation(msg) => msg,
        other => panic!("Expected Validation error, got {:?}", other),
    }
}

#[test]
fn transaction_id_creation() {
    let id1 = TransactionId::new();
    let id2 = TransactionId::new();
    assert_ne!(id1, id2);

    let uuid = uuid::Uuid::new_v4();
    let id3 = TransactionId::from_uuid(uuid.as_u128());
    assert_eq!(id3.as_uuid(), uuid.as_u128());
}

#[test]
fn transaction_ids_are_random_uuids() {
    let uuid = uuid::Uuid::from_u128(TransactionId::new().as_uuid());
    assert_eq!(uuid.get_version(), Some(uuid::Version::Random));
    assert_eq!(uuid.get_variant(), uuid::Variant::RFC4122);
}

#[test]
fn transaction_id_displays_hyphenated() {
    let id = TransactionId::from_uuid(0x550e8400e29b41d4a716446655440000);
    assert_eq!(id.to_string(), "550e8400-e29b-41d4-a716-446655440000");
    assert_eq!(
        TransactionId::from_uuid(0xab).to_string(),
        "00000000-0000-0000-0000-0000000000ab"
    );
}

#[test]
fn transaction_id_default_is_nil() {
    assert_eq!(TransactionId::default().as_uuid(), 0);
}

#[test]
fn account_id_valid() {
    let account = AccountId::new("1234567890123456").unwrap();
    assert_eq!(account.as_str(), "1234567890123456");
    assert_eq!(account.to_string(), "1234567890123456");
}

#[test]
fn account_id_invalid_length() {
    let err = AccountId::new("123").unwrap_err();
    assert!(
        matches!(err, DomainError::Validation(msg) if msg == "Account ID must be exactly 16 characters long")
    );
}

#[test]
fn account_id_invalid_characters() {
    let err = AccountId::new("1234567890abcdef").unwrap_err();
    assert!(
        matches!(err, DomainError::Validation(msg) if msg == "Account ID must contain only digits")
    );
}

#[test]
fn account_id_from_str() {
    let account = AccountId::from_str("1111222233334444").unwrap();
    assert_eq!(account.as_str(), "1111222233334444");
}

#[test]
fn account_id_is_trimmed() {
    let account = AccountId::new(" \t\n\u{a0}\u{2003}1111222233334444\u{3000}\r\n").unwrap();
    assert_eq!(account.as_str(), "1111222233334444");
    assert_eq!(account.as_ref(), "1111222233334444");
}

#[test]
fn account_id_keeps_what_is_no_white_space() {
    let err = AccountId::new("\u{200b}1111222233334444").unwrap_err();
    assert_eq!(validation(err), "Account ID must be exactly 16 characters long");
}

#[test]
fn account_id_length_is_counted_in_bytes() {
    let err = AccountId::new("éééééééé").unwrap_err();
    assert_eq!(validation(err), "Account ID must contain only digits");
    let err = AccountId::new("éééééééééééééééé").unwrap_err();
    assert_eq!(validation(err), "Account ID must be exactly 16 characters long");
    let err = AccountId::new("").unwrap_err();
    assert_eq!(validation(err), "Account ID must be exactly 16 characters long");
}

#[test]
fn account_id_debug_form() {
    let account = AccountId::new("1111222233334444").unwrap();
    assert_eq!(format!("{:?}", account), "AccountId(\"1111222233334444\")");
}

#[test]
fn transaction_id_defaults_to_nil() {
    assert_eq!(TransactionId::default().as_uuid(), 0);
    assert_eq!(TransactionId::default().to_string(), "00000000-0000-0000-0000-000000000000");
}

#[test]
fn transaction_ids_compare_by_value() {
    let id = TransactionId::new();
    assert_eq!(TransactionId::from_uuid(id.as_uuid()), id);
    assert_ne!(TransactionId::from_uuid(id.as_uuid() ^ 1), id);
}

#[test]
fn account_ids_compare_by_number() {
    let a = AccountId::new("1111222233334444").unwrap();
    let b = AccountId::new(" 1111222233334444 ").unwrap();
    let c = AccountId::new("5555666677778888").unwrap();
    assert!(a == b);
    assert!(a != c);
    assert!(a.clone() == a);
}

#[test]
fn currency_codes_read_back() {
    for (currency, code) in [
        (Currency::Rub, "RUB"),
        (Currency::Cny, "CNY"),
        (Currency::Usd, "USD"),
        (Currency::Eur, "EUR"),
    ] {
        assert_eq!(currency.to_string(), code);
        assert_eq!(Currency::from_str(code).unwrap(), currency);
    }
    assert_eq!(validation("usd".parse::<Currency>().unwrap_err()), "Invalid currency: usd");
}

#[test]
fn transaction_request_is_made_now() {
    let source = AccountId::new("1111222233334444").unwrap();
    let dest = AccountId::new("5555666677778888").unwrap();
    let before = chrono::Utc::now().timestamp();
    let tx_req = TransactionRequest::new(source, dest, 10000, Currency::Eur);
    let after = chrono::Utc::now().timestamp();
    assert!(before <= tx_req.timestamp.timestamp());
    assert!(tx_req.timestamp.timestamp() <= after);
    assert_eq!(tx_req.amount, 10000);
    assert_eq!(tx_req.currency, Currency::Eur);
    assert_eq!(tx_req.source_account.as_str(), "1111222233334444");
    assert_eq!(tx_req.destination_account.as_str(), "5555666677778888");
}

#[test]
fn transaction_request_validate_ok() {
    let source = AccountId::new("1111222233334444").unwrap();
    let dest = AccountId::new("5555666677778888").unwrap();
    let tx_req = TransactionRequest::new(source, dest, 10000, Currency::Rub);
    assert!(tx_req.validate().is_ok())
}

#[test]
fn transaction_request_validate_zero_amount() {
    let source = AccountId::new("1111222233334444").unwrap();
    let dest = AccountId::new("5555666677778888").unwrap();
    let tx_req = TransactionRequest::new(source, dest, 0, Currency::Rub);
    let err = tx_req.validate().unwrap_err();
    assert!(matches!(err, DomainError::Validation(msg) if msg == "Amount must be positive"))
}

#[test]
fn transaction_request_validate_negative_amount() {
    let source = AccountId::new("1111222233334444").unwrap();
    let dest = AccountId::new("5555666677778888").unwrap();
    let tx_req = TransactionRequest::new(source, dest, -100, Currency::Rub);
    let err = tx_req.validate().unwrap_err();
    assert!(matches!(err, DomainError::Validation(msg) if msg == "Amount must be positive"))
}

#[test]
fn transaction_request_validate_same_account() {
    let account = AccountId::new("1111222233334444").unwrap();
    let tx_req = TransactionRequest::new(account.clone(), account, 10000, Currency::Rub);
    let err = tx_req.validate().unwrap_err();
    assert!(
        matches!(err, DomainError::Validation(msg) if msg == "Source and destination accounts must differ")
    );
}

#[test]
fn transaction_request_amount_is_looked_at_first() {
    let account = AccountId::new("1111222233334444").unwrap();
    let tx_req = TransactionRequest::new(account.clone(), account, 0, Currency::Rub);
    assert_eq!(validation(tx_req.validate().unwrap_err()), "Amount must be positive");
}

#[test]
fn domain_errors_tell_their_text() {
    let err = AccountId::new("123").unwrap_err();
    assert_eq!(
        err.to_string(),
        "Validation error: Account ID must be exactly 16 characters long"
    );
    let err = DomainError::Repository { operation: "insert decision", message: "gone".to_string() };
    assert_eq!(err.to_string(), "Repository error while insert decision: gone");
}
