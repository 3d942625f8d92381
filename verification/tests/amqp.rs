use fraud_guard::amqp::amqp_consumer::{next_action, ConsumerAction, ConsumerEvent};
use fraud_guard::amqp::consumer::{Session, SessionAction, SessionEvent};
use fraud_guard::amqp::handler::{next_handover, HandoverAction, HandoverEvent};
use fraud_guard::amqp::message::parse_delivery;
use fraud_guard::amqp::reconnect::{Backoff, ConnectionEnd, RunStep};
use fraud_guard::amqp::topology::{dead_letter_setup, plain_setup, SetupStep};
use fraud_guard::messages::{AckMessage, EvaluateTransactionRequest};
use fraud_guard::{
    AccountId, AckCommand, Currency, DeliveryError, DomainError, Timestamp, TransactionId,
    TransactionMessage, TransactionRequest,
};
use std::str::FromStr;

fn payload(source_account: &str, currency: &str) -> String {
    format!(
        r#"{{
            "transaction_id": "550e8400-e29b-41d4-a716-446655440000",
            "source_account": "{}",
            "destination_account": "5555666677778888",
            "amount": 10000,
            "currency": "{}",
            "timestamp": 1609459200
        }}"#,
        source_account, currency
    )
}

fn read(payload: &str) -> Result<TransactionMessage, String> {
    let value: serde_json::Value = serde_json::from_str(payload).map_err(|e| e.to_string())?;
    let text = |field: &str| value[field].as_str().unwrap().to_string();
    Ok(TransactionMessage {
        transaction_id: text("transaction_id"),
        source_account: text("source_account"),
        destination_account: text("destination_account"),
        amount: value["amount"].as_i64().unwrap(),
        currency: text("currency"),
        timestamp: value["timestamp"].as_i64(),
    })
}

fn message() -> TransactionMessage {
    read(&payload("1111222233334444", "USD")).unwrap()
}

fn transaction() -> TransactionRequest {
    parse_delivery(Ok(message())).unwrap()
}

#[test]
fn transaction_message_deserialization() {
    let msg = message();
    assert_eq!(msg.transaction_id, "550e8400-e29b-41d4-a716-446655440000");
    assert_eq!(msg.source_account, "1111222233334444");
    assert_eq!(msg.destination_account, "5555666677778888");
    assert_eq!(msg.amount, 10000);
    assert_eq!(msg.currency, "USD");
    assert_eq!(msg.timestamp, Some(1609459200));
}

#[test]
fn transaction_message_to_transaction_request() {
    let msg = message();
    let source = AccountId::new(&msg.source_account).unwrap();
    let dest = AccountId::new(&msg.destination_account).unwrap();
    let currency = Currency::from_str(&msg.currency).unwrap();
    let timestamp = Timestamp::from_timestamp(msg.timestamp.unwrap(), 0).unwrap();

    let tx = TransactionRequest {
        id: TransactionId::from_uuid(uuid::Uuid::parse_str(&msg.transaction_id).unwrap().as_u128()),
        source_account: source,
        destination_account: dest,
        amount: msg.amount,
        currency,
        timestamp,
    };

    assert_eq!(tx.amount, 10000);
    assert_eq!(tx.source_account.as_str(), "1111222233334444");
    assert_eq!(tx.destination_account.as_str(), "5555666677778888");
    assert_eq!(tx.currency, Currency::Usd);
}

#[test]
fn invalid_currency_parsing() {
    let msg = read(&payload("1111222233334444", "XYZ")).unwrap();
    let err = Currency::from_str(&msg.currency).unwrap_err();
    match err {
        DomainError::Validation(msg) => assert_eq!(msg, "Invalid currency: XYZ"),
        _ => panic!("Expected Validation error"),
    }
}

#[test]
fn invalid_account_id_parsing() {
    let msg = read(&payload("123", "USD")).unwrap();
    let err = AccountId::new(&msg.source_account).unwrap_err();
    match err {
        DomainError::Validation(msg) => {
            assert_eq!(msg, "Account ID must be exactly 16 characters long")
        }
        _ => panic!("Expected Validation error"),
    }
}

#[test]
fn parse_delivery_success() {
    let tx = parse_delivery(read(&payload("1111222233334444", "RUB"))).unwrap();
    assert_eq!(tx.amount, 10000);
    assert_eq!(tx.source_account.as_str(), "1111222233334444");
    assert_eq!(tx.destination_account.as_str(), "5555666677778888");
    assert_eq!(tx.currency, Currency::Rub);
    assert_eq!(tx.id.as_uuid(), 0x550e8400e29b41d4a716446655440000);
    assert_eq!(tx.timestamp.timestamp(), 1609459200);
    assert_eq!(tx.timestamp.timestamp_subsec_nanos(), 0);
}

#[test]
fn parse_delivery_invalid_currency() {
    let err = parse_delivery(read(&payload("1111222233334444", "XYZ"))).unwrap_err();
    assert!(err.to_string().contains("Invalid currency"));
    assert_eq!(err.to_string(), "Validation error: Invalid currency: XYZ");
}

#[test]
fn parse_delivery_invalid_json() {
    let err = parse_delivery(read("invalid json payload")).unwrap_err();
    assert!(matches!(err, DeliveryError::Payload(_)));
    assert!(err.to_string().contains("expected"));
}

#[test]
fn parse_delivery_tells_the_first_fault() {
    let mut msg = message();
    msg.source_account = "1".to_string();
    msg.destination_account = "1111222233334444x".to_string();
    msg.currency = "usd".to_string();
    msg.transaction_id = "none".to_string();
    let text = |msg: &TransactionMessage| parse_delivery(Ok(msg.clone())).unwrap_err().to_string();
    assert_eq!(text(&msg), "Validation error: Account ID must be exactly 16 characters long");
    msg.source_account = " 1111222233334444 ".to_string();
    msg.destination_account = "111122223333444x".to_string();
    assert_eq!(text(&msg), "Validation error: Account ID must contain only digits");
    msg.destination_account = "5555666677778888".to_string();
    assert_eq!(text(&msg), "Validation error: Invalid currency: usd");
    msg.currency = "USD".to_string();
    let expected = uuid::Uuid::parse_str("none").unwrap_err().to_string();
    assert_eq!(text(&msg), expected);
    assert!(matches!(
        parse_delivery(Ok(msg.clone())),
        Err(DeliveryError::TransactionId(_))
    ));
    msg.transaction_id = "{550E8400-E29B-41D4-A716-446655440000}".to_string();
    assert!(parse_delivery(Ok(msg)).is_ok());
}

#[test]
fn identifiers_are_read_in_every_form() {
    for text in [
        "550e8400-e29b-41d4-a716-446655440000",
        "550E8400E29B41D4A716446655440000",
        "{550e8400-e29b-41d4-a716-446655440000}",
        "URN:uuid:550e8400-e29b-41d4-A716-446655440000",
    ] {
        let mut msg = message();
        msg.transaction_id = text.to_string();
        assert_eq!(
            parse_delivery(Ok(msg)).unwrap().id.as_uuid(),
            0x550e8400e29b41d4a716446655440000
        );
    }
    for text in [
        "",
        "550e8400-e29b-41d4-a716-44665544000",
        "550e8400e-29b-41d4-a716-446655440000",
        "g50e8400-e29b-41d4-a716-446655440000",
        "{550e8400e29b41d4a716446655440000}",
        "urn-uuid:550e8400-e29b-41d4-a716-446655440000",
        " 550e8400-e29b-41d4-a716-446655440000",
        "é50e8400e29b41d4a71644665544000",
    ] {
        let mut msg = message();
        msg.transaction_id = text.to_string();
        assert!(matches!(parse_delivery(Ok(msg)), Err(DeliveryError::TransactionId(_))));
    }
}

#[test]
fn identifiers_read_back_from_their_text() {
    let id = TransactionId::new();
    let mut msg = message();
    msg.transaction_id = id.to_string();
    assert_eq!(parse_delivery(Ok(msg)).unwrap().id, id);
}

#[test]
fn messages_without_a_moment_are_dated_now() {
    for timestamp in [None, Some(i64::MAX), Some(i64::MIN)] {
        let mut msg = message();
        msg.timestamp = timestamp;
        assert!(msg.stated_time().is_none());
        let before = chrono::Utc::now().timestamp();
        let tx = parse_delivery(Ok(msg)).unwrap();
        assert!(before <= tx.timestamp.timestamp());
        assert!(tx.timestamp.timestamp() <= chrono::Utc::now().timestamp());
    }
    let mut msg = message();
    msg.timestamp = Some(-5);
    assert_eq!(parse_delivery(Ok(msg)).unwrap().timestamp.timestamp(), -5);
}

#[test]
fn requests_keep_what_the_message_says() {
    let msg = message();
    let now = Timestamp::from_timestamp(7, 8).unwrap();
    let tx = msg.request_at(now).unwrap();
    assert_eq!(tx.timestamp, now);
    assert_eq!(tx.amount, msg.amount);
    assert_eq!(tx.id, transaction().id);
}

#[test]
fn consumer_acts_on_every_event() {
    let parsed = Ok(transaction());
    match next_action(ConsumerEvent::Delivered { tag: 42, parsed }) {
        ConsumerAction::Handle { tag, tx } => {
            assert_eq!(tag, 42);
            assert_eq!(tx.amount, 10000);
        }
        other => panic!("Expected Handle, got {:?}", other),
    }
    let parsed = parse_delivery(Err("no message".to_string()));
    match next_action(ConsumerEvent::Delivered { tag: 42, parsed }) {
        ConsumerAction::Reject { tag, error } => {
            assert_eq!(tag, 42);
            assert_eq!(error.to_string(), "no message");
        }
        other => panic!("Expected Reject, got {:?}", other),
    }
    assert!(matches!(
        next_action(ConsumerEvent::DeliveryFailed("gone".to_string())),
        ConsumerAction::Fail(text) if text == "gone"
    ));
    assert!(matches!(
        next_action(ConsumerEvent::Handled { tag: 1, result: Ok(()) }),
        ConsumerAction::Wait
    ));
    assert!(matches!(
        next_action(ConsumerEvent::Handled { tag: 1, result: Err("late".to_string()) }),
        ConsumerAction::Settle(AckCommand::Nack(1))
    ));
    assert!(matches!(
        next_action(ConsumerEvent::Command(AckCommand::Ack(3))),
        ConsumerAction::Settle(AckCommand::Ack(3))
    ));
    assert!(matches!(
        next_action(ConsumerEvent::Command(AckCommand::Nack(3))),
        ConsumerAction::Settle(AckCommand::Nack(3))
    ));
    assert!(matches!(next_action(ConsumerEvent::Closed), ConsumerAction::Finish));
}

fn processed(correlation_id: u64, ok: bool) -> SessionEvent {
    let result = if ok { Ok(()) } else { Err(DomainError::Validation("no".to_string())) };
    SessionEvent::Processed(AckMessage { correlation_id, result })
}

#[test]
fn session_settles_each_delivery_once() {
    let mut session = Session::new();
    let parsed = Ok(transaction());
    assert!(matches!(
        session.next_action(SessionEvent::Delivered { tag: 7, parsed }),
        SessionAction::Send { tag: 7, .. }
    ));
    assert!(matches!(session.next_action(processed(7, true)), SessionAction::Unknown(7)));
    assert!(matches!(
        session.next_action(SessionEvent::Sent { tag: 7, result: Ok(()) }),
        SessionAction::Wait
    ));
    assert!(matches!(
        session.next_action(SessionEvent::Sent { tag: 8, result: Ok(()) }),
        SessionAction::Wait
    ));
    assert!(matches!(
        session.next_action(processed(7, true)),
        SessionAction::Settle(AckCommand::Ack(7))
    ));
    assert!(matches!(session.next_action(processed(7, true)), SessionAction::Unknown(7)));
    assert!(matches!(
        session.next_action(processed(8, false)),
        SessionAction::Settle(AckCommand::Nack(8))
    ));
    assert!(matches!(session.next_action(processed(8, true)), SessionAction::Unknown(8)));
}

#[test]
fn session_acts_on_every_event() {
    let mut session = Session::new();
    let parsed = parse_delivery(Err("no message".to_string()));
    assert!(matches!(
        session.next_action(SessionEvent::Delivered { tag: 7, parsed }),
        SessionAction::Reject { tag: 7, error: DeliveryError::Payload(_) }
    ));
    assert!(matches!(
        session.next_action(SessionEvent::Sent { tag: 7, result: Err("full".to_string()) }),
        SessionAction::Settle(AckCommand::Nack(7))
    ));
    assert!(matches!(session.next_action(processed(7, true)), SessionAction::Unknown(7)));
    assert!(matches!(
        session.next_action(SessionEvent::DeliveryFailed("gone".to_string())),
        SessionAction::Fail(text) if text == "gone"
    ));
    assert!(matches!(
        session.next_action(SessionEvent::Shutdown),
        SessionAction::Finish(ConnectionEnd::Shutdown)
    ));
    assert!(matches!(
        session.next_action(SessionEvent::Closed),
        SessionAction::Finish(ConnectionEnd::Disconnected)
    ));
}

fn evaluation(correlation_id: u64) -> EvaluateTransactionRequest {
    EvaluateTransactionRequest { tx: transaction(), correlation_id }
}

#[test]
fn handover_tells_the_consumer_and_the_engine() {
    let request = match next_handover(HandoverEvent::Looked { alive: true, request: evaluation(42) }) {
        HandoverAction::Store { delivery, request } => {
            assert_eq!(delivery.correlation_id, 42);
            request
        }
        other => panic!("Expected Store, got {:?}", other),
    };
    match next_handover(HandoverEvent::Stored { request, result: Ok(()) }) {
        HandoverAction::Evaluate(request) => {
            assert_eq!(request.correlation_id, 42);
            assert_eq!(request.tx.amount, 10000);
            assert_eq!(request.tx.id, transaction().id);
        }
        other => panic!("Expected Evaluate, got {:?}", other),
    }
    assert!(matches!(
        next_handover(HandoverEvent::Evaluating(Ok(()))),
        HandoverAction::Return(Ok(()))
    ));
}

#[test]
fn handover_ends_with_the_first_failure() {
    assert!(matches!(
        next_handover(HandoverEvent::Looked { alive: false, request: evaluation(1) }),
        HandoverAction::Return(Err(text)) if text == "ConsumerActor is gone"
    ));
    let result = Err("stopped".to_string());
    assert!(matches!(
        next_handover(HandoverEvent::Stored { request: evaluation(1), result }),
        HandoverAction::Return(Err(text)) if text == "Actor not available: stopped"
    ));
    assert!(matches!(
        next_handover(HandoverEvent::Evaluating(Err("stopped".to_string()))),
        HandoverAction::Return(Err(text)) if text == "Actor not available: stopped"
    ));
}

#[test]
fn backoff_doubles_up_to_the_limit() {
    let mut backoff = Backoff::new();
    for secs in [1, 2, 4, 8, 16, 32, 60, 60] {
        assert_eq!(backoff.next_step(ConnectionEnd::Failed), RunStep::ReconnectAfter(secs));
    }
    assert_eq!(backoff.next_step(ConnectionEnd::Disconnected), RunStep::ReconnectAfter(5));
    assert_eq!(backoff.next_step(ConnectionEnd::Failed), RunStep::ReconnectAfter(1));
    assert_eq!(backoff.next_step(ConnectionEnd::Shutdown), RunStep::Exit);
    assert_eq!(backoff.next_step(ConnectionEnd::Failed), RunStep::ReconnectAfter(2));
}

#[test]
fn setup_declares_the_dead_letter_queue_first() {
    let steps = dead_letter_setup("transaction.evaluation");
    assert_eq!(steps.len(), 5);
    assert!(matches!(
        &steps[0],
        SetupStep::DeclareDirectExchange { exchange, durable: true } if exchange == "dlx.transaction"
    ));
    assert!(matches!(
        &steps[1],
        SetupStep::DeclareQueue { queue, options, dead_letter: None }
            if queue == "transaction.evaluation.dlq"
                && options.durable && !options.exclusive && !options.auto_delete
    ));
    assert!(matches!(
        &steps[2],
        SetupStep::BindQueue { queue, exchange, routing_key }
            if queue == "transaction.evaluation.dlq"
                && exchange == "dlx.transaction"
                && routing_key == "transaction.evaluation.dlq"
    ));
    assert!(matches!(
        &steps[3],
        SetupStep::DeclareQueue { queue, options, dead_letter: Some(d) }
            if queue == "transaction.evaluation"
                && options.durable && !options.exclusive && !options.auto_delete
                && d.exchange == "dlx.transaction"
                && d.routing_key == "transaction.evaluation.dlq"
    ));
    assert!(matches!(
        &steps[4],
        SetupStep::Consume { queue, consumer_tag }
            if queue == "transaction.evaluation" && consumer_tag == "fraud_guard_consumer"
    ));
}

#[test]
fn plain_setup_declares_the_queue_alone() {
    let steps = plain_setup("q");
    assert_eq!(steps.len(), 2);
    assert!(matches!(
        &steps[0],
        SetupStep::DeclareQueue { queue, dead_letter: None, .. } if queue == "q"
    ));
    assert!(matches!(
        &steps[1],
        SetupStep::Consume { queue, consumer_tag } if queue == "q" && consumer_tag == "fraud_guard_consumer"
    ));
}
