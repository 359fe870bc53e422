//! Core of a payment switch: the data-transformation and next-action
//! resolution engine that sits between a canonical in-flight payment
//! aggregate and heterogeneous downstream payment connectors.
//!
//! Everything here is a pure function over owned, already-fetched data:
//! request builders project the aggregate into flow-specific request
//! records, a precedence-ordered resolver picks the single next action a
//! client must perform, response synthesizers assemble the public response
//! shapes, and the capture reconciler buckets asynchronous capture-sync
//! outcomes into local state updates.

pub mod capture;
pub mod enums;
pub mod errors;
pub mod events;
pub mod metadata;
pub mod next_action;
pub mod requests;
pub mod response;
pub mod router_record;
pub mod text;
pub mod types;
pub mod urls;
