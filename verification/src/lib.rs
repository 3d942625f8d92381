//! Fraud screening of transactions: requests are read from a broker's deliveries,
//! held against rules, decided about, stored and settled at the broker.

pub mod amqp;
pub mod config;
pub mod decision;
pub mod engine;
pub mod error;
pub mod json;
pub mod ledger;
pub mod messages;
pub mod rule;
pub mod rules_cache;
pub mod sink;
pub mod storage;
pub mod text;
pub mod timestamp;
pub mod transaction;
pub mod transaction_id;

pub use amqp::amqp_consumer::AckCommand;
pub use amqp::message::{DeliveryError, TransactionMessage};
pub use config::{Config, ConfigError};
pub use decision::{Decision, TriggeredRule};
pub use engine::Engine;
pub use error::{DomainError, ParamError};
pub use json::Json;
pub use ledger::DeliveryLedger;
pub use rule::{Rule, RuleType, Verdict};
pub use timestamp::Timestamp;
pub use transaction::{AccountId, Currency, TransactionRequest};
pub use transaction_id::TransactionId;
