//! Translation of a declarative, JSON-shaped data-transformation pipeline
//! (select a source, filter rows, aggregate) into the textual syntax of the
//! PRQL query language, which an external compiler lowers to SQL for a chosen
//! dialect (Postgres or BigQuery).
//!
//! Every renderer states the exact text it produces; the escaping and quoting
//! rules carry proofs of their round-trip behaviour.

pub mod text;
pub mod translate;
pub mod filter;
pub mod domain;
pub mod aggregate;
pub mod pipeline;
pub mod compile;
pub mod request;

pub use compile::translate;
