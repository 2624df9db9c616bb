//! Registry of VPN configuration paths and the orchestration that brings every
//! registered interface up or down, aggregating per-path outcomes into one report.

pub mod store;
pub mod toggle;
