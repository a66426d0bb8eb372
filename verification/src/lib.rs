//! A verified notification-to-message pipeline for canonical chain history.
//!
//! The library consumes segment events describing finalized blocks, turns
//! each block and its receipts into canonical wire records, plans the
//! broker messages (topic, key, record) those records are published as,
//! and resolves where processing resumes after a restart. Every function
//! here is pure: the surrounding host owns the node subscription, the
//! broker client and the credential fetch, and feeds this library plain
//! values.

pub mod args;
pub mod chain;
pub mod coordinator;
pub mod decimal;
pub mod publish;
pub mod resume;
pub mod token;
pub mod transform;
