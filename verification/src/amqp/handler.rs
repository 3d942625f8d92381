//! How a delivery is handed over to be evaluated.

use crate::messages::{EvaluateTransactionRequest, StoreDelivery};
use crate::text::joined;
use vstd::prelude::*;

verus! {

/// What became of the last thing that the hand-over asked for.
#[derive(Debug)]
pub enum HandoverEvent {
    /// The consumer was looked for, and is there or is gone.
    Looked { alive: bool, request: EvaluateTransactionRequest },
    /// The consumer was told of the delivery, or could not be; the text says why.
    Stored { request: EvaluateTransactionRequest, result: Result<(), String> },
    /// The engine was told of the transaction, or could not be; the text says why.
    Evaluating(Result<(), String>),
}

/// What the hand-over asks for next.
#[derive(Debug)]
pub enum HandoverAction {
    /// Tell the consumer of the delivery, and keep the request until that is done.
    Store { delivery: StoreDelivery, request: EvaluateTransactionRequest },
    /// Tell the engine of the transaction.
    Evaluate(EvaluateTransactionRequest),
    /// The hand-over is over.
    Return(Result<(), String>),
}

/// The model of `HandoverAction`.
pub enum HandoverActionView {
    Store { delivery: StoreDelivery, request: EvaluateTransactionRequest },
    Evaluate(EvaluateTransactionRequest),
    Return(Result<(), Seq<char>>),
}

impl View for HandoverAction {
    type V = HandoverActionView;

    open spec fn view(&self) -> HandoverActionView {
        match *self {
            HandoverAction::Store { delivery, request } => HandoverActionView::Store {
                delivery,
                request,
            },
            HandoverAction::Evaluate(request) => HandoverActionView::Evaluate(request),
            HandoverAction::Return(Ok(())) => HandoverActionView::Return(Ok(())),
            HandoverAction::Return(Err(text)) => HandoverActionView::Return(Err(text@)),
        }
    }
}

/// The hand-over stores the delivery before it has the transaction evaluated, both
/// under the correlation id of the request, and ends with the first thing that
/// fails.
pub open spec fn handover_step(event: HandoverEvent) -> HandoverActionView {
    match event {
        HandoverEvent::Looked { alive: true, request } => HandoverActionView::Store {
            delivery: StoreDelivery { correlation_id: request.correlation_id },
            request,
        },
        HandoverEvent::Looked { alive: false, .. } => HandoverActionView::Return(
            Err("ConsumerActor is gone"@),
        ),
        HandoverEvent::Stored { request, result: Ok(()) } => HandoverActionView::Evaluate(request),
        HandoverEvent::Stored { result: Err(e), .. } => HandoverActionView::Return(
            Err("Actor not available: "@ + e@),
        ),
        HandoverEvent::Evaluating(Ok(())) => HandoverActionView::Return(Ok(())),
        HandoverEvent::Evaluating(Err(e)) => HandoverActionView::Return(
            Err("Actor not available: "@ + e@),
        ),
    }
}

/// What the hand-over asks for next.
pub fn next_handover(event: HandoverEvent) -> (r: HandoverAction)
    ensures
        r@ == handover_step(event),
{
    match event {
        HandoverEvent::Looked { alive, request } => if alive {
            let delivery = StoreDelivery { correlation_id: request.correlation_id };
            HandoverAction::Store { delivery, request }
        } else {
            HandoverAction::Return(Err("ConsumerActor is gone".to_owned()))
        },
        HandoverEvent::Stored { request, result } => match result {
            Ok(()) => HandoverAction::Evaluate(request),
            Err(e) => HandoverAction::Return(Err(joined("Actor not available: ", e.as_str()))),
        },
        HandoverEvent::Evaluating(result) => match result {
            Ok(()) => HandoverAction::Return(Ok(())),
            Err(e) => HandoverAction::Return(Err(joined("Actor not available: ", e.as_str()))),
        },
    }
}

/// The engine is told of a transaction only once the consumer was told of its
/// delivery, and the hand-over succeeds only once the engine was told.
pub proof fn law_handover_order(event: HandoverEvent)
    ensures
        handover_step(event) matches HandoverActionView::Evaluate(request) ==> (
        event matches HandoverEvent::Stored { request: stored, result: Ok(()) } && stored
            == request),
        handover_step(event) == HandoverActionView::Return(Ok::<(), Seq<char>>(()))
            ==> event matches HandoverEvent::Evaluating(Ok(())),
{
}

/// Where the consumer is there and is told, the engine is told of the transaction
/// that was to be handed over, under the correlation id that the consumer was told.
pub proof fn law_handover_tells_both(request: EvaluateTransactionRequest)
    ensures
        handover_step(HandoverEvent::Looked { alive: true, request }) matches
            HandoverActionView::Store { delivery, request: kept } && {
            &&& delivery.correlation_id == request.correlation_id
            &&& handover_step(
                HandoverEvent::Stored { request: kept, result: Ok::<(), String>(()) },
            ) == HandoverActionView::Evaluate(request)
        },
{
}

/// A hand-over that fails tells which step failed and, where another part was told,
/// that part's reason in full; it fails exactly where the consumer is gone or a step
/// failed.
pub proof fn law_handover_failures(event: HandoverEvent)
    ensures
        handover_step(event) matches HandoverActionView::Return(Err(text)) ==> match event {
            HandoverEvent::Looked { alive, .. } => !alive && text == "ConsumerActor is gone"@,
            HandoverEvent::Stored { result, .. } => result matches Err(e) && text
                =~= "Actor not available: "@ + e@,
            HandoverEvent::Evaluating(result) => result matches Err(e) && text
                =~= "Actor not available: "@ + e@,
        },
        handover_step(event) matches HandoverActionView::Return(Err(_)) <==> match event {
            HandoverEvent::Looked { alive, .. } => !alive,
            HandoverEvent::Stored { result, .. } => result is Err,
            HandoverEvent::Evaluating(result) => result is Err,
        },
        event matches HandoverEvent::Evaluating(Ok(())) ==> (handover_step(event)
            matches HandoverActionView::Return(r) && r is Ok),
{
}

/// A transaction reaches the engine in every part as it was to be handed over.
pub proof fn law_handover_keeps_the_transaction(
    request: EvaluateTransactionRequest,
    stored: Result<(), String>,
)
    requires
        stored is Ok,
    ensures
        handover_step(HandoverEvent::Stored { request, result: stored })
            matches HandoverActionView::Evaluate(told) && {
            &&& told.correlation_id == request.correlation_id
            &&& told.tx.id == request.tx.id
            &&& told.tx.source_account == request.tx.source_account
            &&& told.tx.destination_account == request.tx.destination_account
            &&& told.tx.amount == request.tx.amount
            &&& told.tx.currency == request.tx.currency
            &&& told.tx.timestamp == request.tx.timestamp
        },
{
}

/// The model of an action keeps which action it is and what it holds.
pub proof fn law_models_keep_handovers(action: HandoverAction)
    ensures
        match action {
            HandoverAction::Store { delivery, request } => action@
                matches HandoverActionView::Store { delivery: d, request: r } && d == delivery && r
                == request,
            HandoverAction::Evaluate(request) => action@ matches HandoverActionView::Evaluate(r)
                && r == request,
            HandoverAction::Return(result) => action@ matches HandoverActionView::Return(r) && (
            result is Ok <==> r is Ok) && (result matches Err(text) ==> r == Err::<(), Seq<char>>(
                text@,
            )),
        },
{
}

} // verus!
