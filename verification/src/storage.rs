//! What is kept in the database, and how work on it goes on or fails.

pub mod operation;
pub mod retry;
pub mod rows;
