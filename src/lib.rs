//! A key-value persistence service, verified where it decides: the records
//! and the request envelopes, the storage engine's statements and their
//! meaning over the table, and the dispatcher that routes a request, plans
//! its storage work and picks the reply.
pub mod dispatch;
pub mod models;
pub mod store;
