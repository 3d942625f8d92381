//! The deliveries that are being worked on, and how each is settled.

use crate::amqp::amqp_consumer::AckCommand;
use crate::messages::{AckMessage, CorrelationId, StoreDelivery};
use std::collections::HashSet;
use vstd::prelude::*;

verus! {

broadcast use vstd::std_specs::hash::group_hash_axioms;

/// How a delivery is settled once the work on it went well or badly, where it is
/// among those that are being worked on; and those that still are.
pub open spec fn settlement(pending: Set<CorrelationId>, id: CorrelationId, done: bool) -> (
    Option<AckCommand>,
    Set<CorrelationId>,
) {
    if !pending.contains(id) {
        (None, pending)
    } else if done {
        (Some(AckCommand::Ack(id)), pending.remove(id))
    } else {
        (Some(AckCommand::Nack(id)), pending.remove(id))
    }
}

/// The deliveries that are being worked on.
#[derive(Debug)]
pub struct DeliveryLedger {
    pending: HashSet<CorrelationId>,
}

impl View for DeliveryLedger {
    type V = Set<CorrelationId>;

    closed spec fn view(&self) -> Set<CorrelationId> {
        self.pending@
    }
}

impl DeliveryLedger {
    /// A ledger without deliveries.
    pub fn new() -> (r: DeliveryLedger)
        ensures
            r@ == Set::<CorrelationId>::empty(),
    {
        DeliveryLedger { pending: HashSet::new() }
    }

    /// Notes that the delivery is being worked on.
    pub fn store_delivery(&mut self, msg: StoreDelivery)
        ensures
            final(self)@ == old(self)@.insert(msg.correlation_id),
    {
        self.pending.insert(msg.correlation_id);
    }

    /// Settles the delivery of the message, where it is being worked on. One that is
    /// not is left alone.
    pub fn acknowledge(&mut self, msg: AckMessage) -> (r: Option<AckCommand>)
        ensures
            (r, final(self)@) == settlement(old(self)@, msg.correlation_id, msg.result is Ok),
    {
        let id: CorrelationId = msg.correlation_id;
        if self.pending.remove(&id) {
            match msg.result {
                Ok(()) => Some(AckCommand::Ack(id)),
                Err(_) => Some(AckCommand::Nack(id)),
            }
        } else {
            None
        }
    }
}

/// A delivery that was stored is settled by the first message about it, as that
/// message says, and not again by a second one; no other delivery is touched.
pub proof fn law_settled_once(
    pending: Set<CorrelationId>,
    id: CorrelationId,
    other: CorrelationId,
    done: bool,
    again: bool,
)
    requires
        other != id,
    ensures
        ({
            let (first, after) = settlement(pending.insert(id), id, done);
            let (second, last) = settlement(after, id, again);
            &&& first == Some(
                if done {
                    AckCommand::Ack(id)
                } else {
                    AckCommand::Nack(id)
                },
            )
            &&& second is None
            &&& !last.contains(id)
            &&& last.contains(other) == pending.contains(other)
        }),
{
}

/// What a ledger is told, one after the other.
pub enum LedgerEvent {
    Stored(CorrelationId),
    Settled { id: CorrelationId, done: bool },
}

/// The deliveries that are being worked on after the events, from none on.
pub open spec fn pending_after(events: Seq<LedgerEvent>) -> Set<CorrelationId>
    decreases events.len(),
{
    if events.len() == 0 {
        Set::empty()
    } else {
        let before = pending_after(events.drop_last());
        match events.last() {
            LedgerEvent::Stored(id) => before.insert(id),
            LedgerEvent::Settled { id, done } => settlement(before, id, done).1,
        }
    }
}

/// How many times the delivery was stored in the course of the events.
pub open spec fn times_stored(events: Seq<LedgerEvent>, id: CorrelationId) -> nat
    decreases events.len(),
{
    if events.len() == 0 {
        0
    } else {
        times_stored(events.drop_last(), id) + (if events.last() == LedgerEvent::Stored(id) {
            1nat
        } else {
            0nat
        })
    }
}

/// How many times the delivery was settled at the broker in the course of the
/// events.
pub open spec fn times_settled(events: Seq<LedgerEvent>, id: CorrelationId) -> nat
    decreases events.len(),
{
    if events.len() == 0 {
        0
    } else {
        let before = pending_after(events.drop_last());
        times_settled(events.drop_last(), id) + (match events.last() {
            LedgerEvent::Settled { id: i, done } => if i == id && settlement(before, i, done).0 is Some {
                1nat
            } else {
                0nat
            },
            _ => 0nat,
        })
    }
}

/// Whatever the ledger is told, a delivery is settled at the broker no more often
/// than it was stored, and less often as long as it is being worked on.
pub proof fn law_no_more_settlements_than_deliveries(events: Seq<LedgerEvent>, id: CorrelationId)
    ensures
        times_settled(events, id) + (if pending_after(events).contains(id) {
            1int
        } else {
            0int
        }) <= times_stored(events, id),
    decreases events.len(),
{
    if events.len() > 0 {
        law_no_more_settlements_than_deliveries(events.drop_last(), id);
    }
}

/// What is settled is a delivery that is being worked on, under its own number: it is
/// acknowledged where the work went well and refused where it did not, leaves the
/// ledger by that, and no other delivery does; any other number settles nothing and
/// changes nothing.
pub proof fn law_settlements(
    pending: Set<CorrelationId>,
    id: CorrelationId,
    other: CorrelationId,
    done: bool,
)
    ensures
        settlement(pending, id, done).0 is Some <==> pending.contains(id),
        settlement(pending, id, done).0 matches Some(AckCommand::Ack(told)) ==> done && told == id,
        settlement(pending, id, done).0 matches Some(AckCommand::Nack(told)) ==> !done && told
            == id,
        settlement(pending, id, done).1.contains(other) <==> pending.contains(other) && other != id,
{
}

} // verus!
