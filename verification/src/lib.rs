//! Verified core of a device-telemetry ingestion service.
//!
//! A device submits a snapshot of its CPU, memory, network, filesystem,
//! battery and operating-system facts.  The library authenticates the
//! request against the device registry, turns the nested snapshot into an
//! ordered plan of relational rows, and drives the best-effort write of that
//! plan, one storage answer at a time.

pub mod api_key;
pub mod auth;
pub mod bot;
pub mod cli;
pub mod client;
pub mod coerce;
pub mod ingest;
pub mod models;
pub mod normalize;
pub mod options;
pub mod plan;
pub mod plan_order;
pub mod profile_key;
pub mod profile_store;
pub mod read_key;
pub mod response;
pub mod rows;
pub mod service;
pub mod tables;
pub mod text;
pub mod theorems;
pub mod timestamp;
pub mod users;
pub mod writer;
pub mod writer_rules;
