//! What the parts of the pipeline tell each other.

use crate::decision::Decision;
use crate::error::DomainError;
use crate::rule::Rule;
use crate::transaction::TransactionRequest;
use std::sync::Arc;
use vstd::prelude::*;

verus! {

/// The number by which a broker's delivery is found again.
pub type CorrelationId = u64;

/// A delivery is about to be evaluated.
#[derive(Debug)]
pub struct StoreDelivery {
    pub correlation_id: CorrelationId,
}

/// The work on a delivery is over: what was decided is stored, or it could not be.
#[derive(Debug)]
pub struct AckMessage {
    pub correlation_id: CorrelationId,
    pub result: Result<(), DomainError>,
}

/// The rules that count from now on.
#[derive(Debug)]
pub struct UpdateRules {
    pub rules: Arc<Vec<Rule>>,
}

/// A transaction that a delivery asked for is to be evaluated.
#[derive(Debug)]
pub struct EvaluateTransactionRequest {
    pub tx: TransactionRequest,
    pub correlation_id: CorrelationId,
}

/// What was decided about a transaction is to be stored.
#[derive(Debug)]
pub struct PersistResults {
    pub tx: TransactionRequest,
    pub decision: Decision,
    pub correlation_id: CorrelationId,
}

} // verus!
