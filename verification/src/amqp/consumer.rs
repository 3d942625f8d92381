//! A consumer that sends its deliveries to the engine and settles them by the
//! results that come back.

use crate::amqp::amqp_consumer::AckCommand;
use crate::amqp::message::DeliveryError;
use crate::amqp::reconnect::ConnectionEnd;
use crate::ledger::{settlement, DeliveryLedger};
use crate::messages::{AckMessage, CorrelationId, StoreDelivery};
use crate::transaction::TransactionRequest;
use vstd::prelude::*;

verus! {

/// What a connected consumer meets.
#[derive(Debug)]
pub enum SessionEvent {
    /// The consumer is told to stop.
    Shutdown,
    /// A delivery came and was read.
    Delivered { tag: CorrelationId, parsed: Result<TransactionRequest, DeliveryError> },
    /// The broker failed to deliver; the text says why.
    DeliveryFailed(String),
    /// The transaction of a delivery was sent to the engine, or could not be; the
    /// text says why.
    Sent { tag: CorrelationId, result: Result<(), String> },
    /// The work on a delivery is over.
    Processed(AckMessage),
    /// Neither deliveries nor results will come.
    Closed,
}

/// What a connected consumer does.
#[derive(Debug)]
pub enum SessionAction {
    /// Send the transaction to the engine.
    Send { tag: CorrelationId, tx: TransactionRequest },
    /// Refuse the delivery, which asks for no transaction.
    Reject { tag: CorrelationId, error: DeliveryError },
    /// Settle a delivery.
    Settle(AckCommand),
    /// A result came for a delivery that nothing is known of: do nothing.
    Unknown(CorrelationId),
    /// Nothing.
    Wait,
    /// End the connection with the error.
    Fail(String),
    /// End the connection in good order.
    Finish(ConnectionEnd),
}

/// What a connected consumer does about what it meets, and the deliveries that are
/// with the engine from then on.
pub open spec fn session_step(pending: Set<CorrelationId>, event: SessionEvent) -> (
    SessionAction,
    Set<CorrelationId>,
) {
    match event {
        SessionEvent::Shutdown => (SessionAction::Finish(ConnectionEnd::Shutdown), pending),
        SessionEvent::Delivered { tag, parsed: Ok(tx) } => (
            SessionAction::Send { tag, tx },
            pending,
        ),
        SessionEvent::Delivered { tag, parsed: Err(error) } => (
            SessionAction::Reject { tag, error },
            pending,
        ),
        SessionEvent::DeliveryFailed(text) => (SessionAction::Fail(text), pending),
        SessionEvent::Sent { tag, result: Ok(()) } => (SessionAction::Wait, pending.insert(tag)),
        SessionEvent::Sent { tag, result: Err(_) } => (
            SessionAction::Settle(AckCommand::Nack(tag)),
            pending,
        ),
        SessionEvent::Processed(msg) => {
            let (command, rest) = settlement(pending, msg.correlation_id, msg.result is Ok);
            match command {
                Some(command) => (SessionAction::Settle(command), rest),
                None => (SessionAction::Unknown(msg.correlation_id), rest),
            }
        },
        SessionEvent::Closed => (SessionAction::Finish(ConnectionEnd::Disconnected), pending),
    }
}

/// A connection of the consumer: the deliveries that are with the engine.
#[derive(Debug)]
pub struct Session {
    ledger: DeliveryLedger,
}

impl View for Session {
    type V = Set<CorrelationId>;

    closed spec fn view(&self) -> Set<CorrelationId> {
        self.ledger@
    }
}

impl Session {
    /// A new connection: no delivery is with the engine.
    pub fn new() -> (r: Session)
        ensures
            r@ == Set::<CorrelationId>::empty(),
    {
        Session { ledger: DeliveryLedger::new() }
    }

    /// What the consumer does about what it meets.
    pub fn next_action(&mut self, event: SessionEvent) -> (r: SessionAction)
        ensures
            (r, final(self)@) == session_step(old(self)@, event),
    {
        match event {
            SessionEvent::Shutdown => SessionAction::Finish(ConnectionEnd::Shutdown),
            SessionEvent::Delivered { tag, parsed } => match parsed {
                Ok(tx) => SessionAction::Send { tag, tx },
                Err(error) => SessionAction::Reject { tag, error },
            },
            SessionEvent::DeliveryFailed(text) => SessionAction::Fail(text),
            SessionEvent::Sent { tag, result } => match result {
                Ok(()) => {
                    self.ledger.store_delivery(StoreDelivery { correlation_id: tag });
                    SessionAction::Wait
                },
                Err(_) => SessionAction::Settle(AckCommand::Nack(tag)),
            },
            SessionEvent::Processed(msg) => {
                let id: CorrelationId = msg.correlation_id;
                match self.ledger.acknowledge(msg) {
                    Some(command) => SessionAction::Settle(command),
                    None => SessionAction::Unknown(id),
                }
            },
            SessionEvent::Closed => SessionAction::Finish(ConnectionEnd::Disconnected),
        }
    }
}

/// A delivery is acknowledged exactly where it is with the engine and the work on
/// it went well; a result for a delivery that is not with the engine changes
/// nothing.
pub proof fn law_when_deliveries_are_acknowledged(
    pending: Set<CorrelationId>,
    event: SessionEvent,
    tag: CorrelationId,
)
    ensures
        session_step(pending, event).0 == SessionAction::Settle(AckCommand::Ack(tag)) <==> (
        event matches SessionEvent::Processed(msg) && msg.correlation_id == tag && msg.result is Ok
            && pending.contains(tag)),
        event matches SessionEvent::Processed(msg) ==> !pending.contains(msg.correlation_id)
            ==> session_step(pending, event) == (
            SessionAction::Unknown(msg.correlation_id),
            pending,
        ),
{
}

/// A delivery that reached the engine and was worked on is settled once: as the
/// result says, and not again by a second result.
pub proof fn law_sent_deliveries_are_settled_once(
    pending: Set<CorrelationId>,
    tag: CorrelationId,
    first: AckMessage,
    second: AckMessage,
)
    requires
        first.correlation_id == tag,
        second.correlation_id == tag,
    ensures
        ({
            let sent = session_step(
                pending,
                SessionEvent::Sent { tag, result: Ok::<(), String>(()) },
            ).1;
            let (action, after) = session_step(sent, SessionEvent::Processed(first));
            let (again, last) = session_step(after, SessionEvent::Processed(second));
            &&& action == SessionAction::Settle(
                if first.result is Ok {
                    AckCommand::Ack(tag)
                } else {
                    AckCommand::Nack(tag)
                },
            )
            &&& again == SessionAction::Unknown(tag)
            &&& last == after
            &&& after == pending.remove(tag)
        }),
{
    assert(pending.insert(tag).remove(tag) =~= pending.remove(tag));
}

/// The deliveries that are with the engine after the events, from none on.
pub open spec fn with_engine(events: Seq<SessionEvent>) -> Set<CorrelationId>
    decreases events.len(),
{
    if events.len() == 0 {
        Set::empty()
    } else {
        session_step(with_engine(events.drop_last()), events.last()).1
    }
}

/// Whether the broker is told by the action to settle the delivery.
pub open spec fn settles(action: SessionAction, tag: CorrelationId) -> bool {
    match action {
        SessionAction::Reject { tag: t, .. } => t == tag,
        SessionAction::Settle(AckCommand::Ack(t)) => t == tag,
        SessionAction::Settle(AckCommand::Nack(t)) => t == tag,
        _ => false,
    }
}

/// How many times the broker is told to settle the delivery in the course of the
/// events.
pub open spec fn times_settled(events: Seq<SessionEvent>, tag: CorrelationId) -> nat
    decreases events.len(),
{
    if events.len() == 0 {
        0
    } else {
        let rest = events.drop_last();
        times_settled(rest, tag) + (if settles(
            session_step(with_engine(rest), events.last()).0,
            tag,
        ) {
            1nat
        } else {
            0nat
        })
    }
}

/// How many times in the course of the events the delivery was found to ask for no
/// transaction, or its transaction was sent or could not be.
pub open spec fn times_handled(events: Seq<SessionEvent>, tag: CorrelationId) -> nat
    decreases events.len(),
{
    if events.len() == 0 {
        0
    } else {
        times_handled(events.drop_last(), tag) + (match events.last() {
            SessionEvent::Delivered { tag: t, parsed: Err(_) } => if t == tag {
                1nat
            } else {
                0nat
            },
            SessionEvent::Sent { tag: t, .. } => if t == tag {
                1nat
            } else {
                0nat
            },
            _ => 0nat,
        })
    }
}

/// Whatever a connection meets, the broker is told to settle a delivery no more
/// often than the delivery was read as none or its sending was over, and less often
/// as long as it is with the engine.
pub proof fn law_no_more_settlements_than_handlings(events: Seq<SessionEvent>, tag: CorrelationId)
    ensures
        times_settled(events, tag) + (if with_engine(events).contains(tag) {
            1int
        } else {
            0int
        }) <= times_handled(events, tag),
    decreases events.len(),
{
    if events.len() > 0 {
        law_no_more_settlements_than_handlings(events.drop_last(), tag);
    }
}

/// What is done answers what was met: a transaction that was read is sent under its
/// own tag and in every part as it was read, a delivery that was read as none is
/// rejected with the error it was read with, one that could not be sent is refused,
/// and the ends of a connection are told apart.
pub proof fn law_what_is_done_answers_what_was_met(
    pending: Set<CorrelationId>,
    event: SessionEvent,
)
    ensures
        event matches SessionEvent::Delivered { tag, parsed: Ok(tx) } ==> (session_step(
            pending,
            event,
        ).0 matches SessionAction::Send { tag: under, tx: sent } && {
            &&& under == tag
            &&& sent.id == tx.id
            &&& sent.source_account == tx.source_account
            &&& sent.destination_account == tx.destination_account
            &&& sent.amount == tx.amount
            &&& sent.currency == tx.currency
            &&& sent.timestamp == tx.timestamp
        }),
        session_step(pending, event).0 matches SessionAction::Send { tag, tx } ==> (event
            matches SessionEvent::Delivered { tag: t, parsed: Ok(read) } && t == tag && read
            == tx),
        event matches SessionEvent::Delivered { tag, parsed: Err(error) } ==> (session_step(
            pending,
            event,
        ).0 matches SessionAction::Reject { tag: t, error: told } && t == tag && told == error),
        event matches SessionEvent::Sent { tag, result } ==> (result is Err ==> (session_step(
            pending,
            event,
        ).0 matches SessionAction::Settle(AckCommand::Nack(t)) && t == tag)),
        event matches SessionEvent::Sent { tag, result } ==> (result is Ok ==> session_step(
            pending,
            event,
        ).0 is Wait),
        event matches SessionEvent::Processed(msg) ==> (pending.contains(msg.correlation_id) ==> (
        session_step(pending, event).0 matches SessionAction::Settle(command) && command == (
        if msg.result is Ok {
            AckCommand::Ack(msg.correlation_id)
        } else {
            AckCommand::Nack(msg.correlation_id)
        }))),
        event matches SessionEvent::DeliveryFailed(text) ==> (session_step(pending, event).0
            matches SessionAction::Fail(told) && told == text),
        event is Shutdown ==> (session_step(pending, event).0 matches SessionAction::Finish(end)
            && end == ConnectionEnd::Shutdown),
        event is Closed ==> (session_step(pending, event).0 matches SessionAction::Finish(end)
            && end == ConnectionEnd::Disconnected),
{
}

/// A delivery is with the engine from when it was sent until its result comes; no
/// other event, and no event of another delivery, changes that.
pub proof fn law_which_deliveries_are_with_the_engine(
    pending: Set<CorrelationId>,
    event: SessionEvent,
    tag: CorrelationId,
)
    ensures
        session_step(pending, event).1.contains(tag) <==> match event {
            SessionEvent::Sent { tag: t, result } => pending.contains(tag) || (t == tag
                && result is Ok),
            SessionEvent::Processed(msg) => pending.contains(tag) && msg.correlation_id != tag,
            _ => pending.contains(tag),
        },
{
}

} // verus!
