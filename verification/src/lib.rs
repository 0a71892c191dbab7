//! Streaming dispatch and query compilation for a small CRM back end.
//!
//! The crate holds the decisions of three services: how a stream of
//! notification requests is routed and acknowledged, how a structured
//! filter becomes the text of a query, and how content records are put
//! together. Everything that waits on a socket, a queue or a database is
//! left to the caller, which feeds events in and carries actions out.

pub mod crm;
pub mod dispatch;
pub mod metadata;
pub mod sample;
pub mod send;
pub mod status;
pub mod text;
pub mod time;
pub mod user_stat;
