//! A small reliable task queue over a list-based key-value store.
//!
//! Producers push encoded tasks onto a named queue list; a worker fetches a
//! task by atomically moving it from the queue list to a worker-private
//! backup list, where it stays parked until the worker acknowledges success.
//! A fetched task is handed out wrapped in a [`queue::TaskGuard`]; resolving
//! the guard without marking it failed removes the parked entry, while a
//! failed (or undecodable) task remains in the backup list for manual
//! recovery.
//!
//! The queue protocol itself is verified: [`queue::Queue`] holds the state of
//! the two lists it owns and every operation carries a contract over that
//! state. Driving the same protocol against a networked store is left to a
//! thin unverified shell, which reuses the naming scheme ([`naming`]), the
//! codec ([`codec`]) and the fetch-classification logic exported here.

pub mod codec;
pub mod laws;
pub mod naming;
pub mod queue;
