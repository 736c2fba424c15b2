//! Verified core of a signed-webhook command service for managing ship fleets:
//! the signature gate, the command registry, the catalog and collection services
//! and the orchestration that sequences them.

pub mod catalog;
pub mod command;
pub mod fleet;
pub mod gate;
pub mod orchestrator;
pub mod service;
