//! The end of the pipeline: what was decided is stored, and the consumer is told.

use crate::amqp::amqp_consumer::AckCommand;
use crate::error::DomainError;
use crate::ledger::settlement;
use crate::messages::{AckMessage, CorrelationId, EvaluateTransactionRequest, PersistResults};
use vstd::prelude::*;

verus! {

/// What the consumer is told once a decision was stored, or could not be.
pub open spec fn ack_of(msg: PersistResults, result: Result<(), DomainError>) -> AckMessage {
    AckMessage { correlation_id: msg.correlation_id, result }
}

/// What the consumer is told once the decision of the message was stored, or could
/// not be.
pub fn acknowledge(msg: &PersistResults, result: Result<(), DomainError>) -> (r: AckMessage)
    ensures
        r == ack_of(*msg, result),
        r.correlation_id == msg.correlation_id,
        r.result == result,
{
    AckMessage { correlation_id: msg.correlation_id, result }
}

/// A delivery that the engine decided about, under whatever rules and with whatever
/// decision, is acknowledged at the broker exactly where the decision was stored,
/// and refused exactly where it could not be; and it is settled under its own
/// correlation id.
pub proof fn law_delivery_is_settled_by_its_storing(
    pending: Set<CorrelationId>,
    request: EvaluateTransactionRequest,
    decided: PersistResults,
    result: Result<(), DomainError>,
)
    requires
        decided.correlation_id == request.correlation_id,
        pending.contains(request.correlation_id),
    ensures
        ({
            let ack = ack_of(decided, result);
            let (command, rest) = settlement(pending, ack.correlation_id, ack.result is Ok);
            &&& command == Some(AckCommand::Ack(request.correlation_id)) <==> result is Ok
            &&& command == Some(AckCommand::Nack(request.correlation_id)) <==> result is Err
            &&& rest == pending.remove(request.correlation_id)
        }),
{
}

/// What the consumer is told of a decision names the delivery that it was made for and
/// says how its storing turned out, whatever was decided.
pub proof fn law_acks_name_their_delivery(msg: PersistResults, result: Result<(), DomainError>)
    ensures
        ack_of(msg, result).correlation_id == msg.correlation_id,
        ack_of(msg, result).result == result,
{
}

} // verus!
