//! The broker's side of the pipeline.

pub mod amqp_consumer;
pub mod consumer;
pub mod handler;
pub mod message;
pub mod reconnect;
pub mod topology;
