//! A consumer that hands its deliveries over and settles them on command.

use crate::amqp::message::DeliveryError;
use crate::messages::CorrelationId;
use crate::transaction::TransactionRequest;
use vstd::prelude::*;

verus! {

/// How a delivery is settled at the broker.
#[derive(Debug, Clone, Copy, PartialEq, Eq, Structural)]
pub enum AckCommand {
    /// It is done with.
    Ack(CorrelationId),
    /// It is refused.
    Nack(CorrelationId),
}

/// What a connected consumer meets.
#[derive(Debug)]
pub enum ConsumerEvent {
    /// A delivery came and was read.
    Delivered { tag: CorrelationId, parsed: Result<TransactionRequest, DeliveryError> },
    /// The broker failed to deliver; the text says why.
    DeliveryFailed(String),
    /// The hand-over of a delivery is over; the text says why it failed.
    Handled { tag: CorrelationId, result: Result<(), String> },
    /// A delivery is to be settled.
    Command(AckCommand),
    /// Neither deliveries nor commands will come.
    Closed,
}

/// What a connected consumer does.
#[derive(Debug)]
pub enum ConsumerAction {
    /// Hand the transaction over.
    Handle { tag: CorrelationId, tx: TransactionRequest },
    /// Refuse the delivery, which asks for no transaction.
    Reject { tag: CorrelationId, error: DeliveryError },
    /// Settle a delivery.
    Settle(AckCommand),
    /// Nothing.
    Wait,
    /// End the connection with the error.
    Fail(String),
    /// End the connection in good order.
    Finish,
}

/// What a connected consumer does about what it meets.
pub open spec fn consumer_action(event: ConsumerEvent) -> ConsumerAction {
    match event {
        ConsumerEvent::Delivered { tag, parsed: Ok(tx) } => ConsumerAction::Handle { tag, tx },
        ConsumerEvent::Delivered { tag, parsed: Err(error) } => ConsumerAction::Reject {
            tag,
            error,
        },
        ConsumerEvent::DeliveryFailed(text) => ConsumerAction::Fail(text),
        ConsumerEvent::Handled { tag: _, result: Ok(()) } => ConsumerAction::Wait,
        ConsumerEvent::Handled { tag, result: Err(_) } => ConsumerAction::Settle(
            AckCommand::Nack(tag),
        ),
        ConsumerEvent::Command(command) => ConsumerAction::Settle(command),
        ConsumerEvent::Closed => ConsumerAction::Finish,
    }
}

/// What the broker is told by an action, if anything: a rejected delivery is
/// refused.
pub open spec fn settles(action: ConsumerAction) -> Option<AckCommand> {
    match action {
        ConsumerAction::Reject { tag, .. } => Some(AckCommand::Nack(tag)),
        ConsumerAction::Settle(command) => Some(command),
        _ => None,
    }
}

/// What a connected consumer does about what it meets.
pub fn next_action(event: ConsumerEvent) -> (r: ConsumerAction)
    ensures
        r == consumer_action(event),
{
    match event {
        ConsumerEvent::Delivered { tag, parsed } => match parsed {
            Ok(tx) => ConsumerAction::Handle { tag, tx },
            Err(error) => ConsumerAction::Reject { tag, error },
        },
        ConsumerEvent::DeliveryFailed(text) => ConsumerAction::Fail(text),
        ConsumerEvent::Handled { tag, result } => match result {
            Ok(()) => ConsumerAction::Wait,
            Err(_) => ConsumerAction::Settle(AckCommand::Nack(tag)),
        },
        ConsumerEvent::Command(command) => ConsumerAction::Settle(command),
        ConsumerEvent::Closed => ConsumerAction::Finish,
    }
}

/// A delivery is acknowledged on command alone; it is refused on command, where it
/// asks for no transaction, and where its hand-over failed, and never otherwise.
pub proof fn law_when_deliveries_are_settled(event: ConsumerEvent, tag: CorrelationId)
    ensures
        settles(consumer_action(event)) == Some(AckCommand::Ack(tag)) <==> event
            == ConsumerEvent::Command(AckCommand::Ack(tag)),
        settles(consumer_action(event)) == Some(AckCommand::Nack(tag)) <==> match event {
            ConsumerEvent::Command(command) => command == AckCommand::Nack(tag),
            ConsumerEvent::Delivered { tag: t, parsed } => t == tag && parsed is Err,
            ConsumerEvent::Handled { tag: t, result } => t == tag && result is Err,
            _ => false,
        },
{
}

/// A delivery that was read as a transaction is handed over under its own tag, and
/// the transaction that is handed over is the one that was read, in every part of it.
pub proof fn law_transactions_are_handed_over_as_read(tag: CorrelationId, tx: TransactionRequest)
    ensures
        consumer_action(
            ConsumerEvent::Delivered { tag, parsed: Ok::<TransactionRequest, DeliveryError>(tx) },
        ) matches ConsumerAction::Handle { tag: under, tx: handed } && {
            &&& under == tag
            &&& handed.id == tx.id
            &&& handed.source_account == tx.source_account
            &&& handed.destination_account == tx.destination_account
            &&& handed.amount == tx.amount
            &&& handed.currency == tx.currency
            &&& handed.timestamp == tx.timestamp
        },
{
}

/// A transaction is handed over only where a delivery was read as that transaction, and
/// a delivery is rejected only where it was read as none, under its own tag and with
/// the error that it was read with.
pub proof fn law_what_is_done_answers_what_was_met(event: ConsumerEvent)
    ensures
        consumer_action(event) matches ConsumerAction::Handle { tag, tx } ==> (event
            matches ConsumerEvent::Delivered { tag: t, parsed: Ok(read) } && t == tag && read
            == tx),
        consumer_action(event) matches ConsumerAction::Reject { tag, error } ==> (event
            matches ConsumerEvent::Delivered { tag: t, parsed: Err(read) } && t == tag && read
            == error),
        event matches ConsumerEvent::Delivered { tag, parsed: Err(error) } ==> (consumer_action(
            event,
        ) matches ConsumerAction::Reject { tag: t, error: told } && t == tag && told == error),
        event matches ConsumerEvent::DeliveryFailed(text) <==> consumer_action(event)
            matches ConsumerAction::Fail(told),
        event matches ConsumerEvent::DeliveryFailed(text) ==> (consumer_action(event)
            matches ConsumerAction::Fail(told) && told == text),
        event is Closed <==> consumer_action(event) is Finish,
        event matches ConsumerEvent::Command(command) ==> (consumer_action(event)
            matches ConsumerAction::Settle(told) && told == command),
        event matches ConsumerEvent::Handled { tag, result } ==> (result is Ok ==> consumer_action(
            event,
        ) is Wait),
        event matches ConsumerEvent::Handled { tag, result } ==> (result is Err ==> (
        consumer_action(event) matches ConsumerAction::Settle(AckCommand::Nack(t)) && t == tag)),
        consumer_action(event) matches ConsumerAction::Settle(AckCommand::Ack(tag)) ==> (event
            matches ConsumerEvent::Command(AckCommand::Ack(t)) && t == tag),
{
}

/// The broker is told to refuse a rejected delivery, and to settle as an action says.
pub proof fn law_what_the_broker_is_told(action: ConsumerAction)
    ensures
        action matches ConsumerAction::Reject { tag, .. } ==> (settles(action) matches Some(
            AckCommand::Nack(t),
        ) && t == tag),
        action matches ConsumerAction::Settle(command) ==> (settles(action) matches Some(told)
            && told == command),
        settles(action) is Some ==> action is Reject || action is Settle,
{
}

} // verus!
