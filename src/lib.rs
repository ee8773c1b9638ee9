//! Coordination logic for a button-driven text fetcher with a small display:
//! connectivity and readiness decisions, a bounded response buffer, and the
//! pagination engine that scrolls fetched text across a fixed-size screen.

pub mod connectivity;
pub mod fetch;
pub mod input;
pub mod orchestrator;
pub mod pagination;
pub mod readiness;
