//! Orchestration core for an Ebyte E32 radio transceiver tool.
//!
//! The crate models the logic that runs once a connection to the module
//! exists: a one-shot parameter reconciliation step and a session state
//! machine that drives one of several operating modes. All hardware I/O
//! is performed by the surrounding application, which feeds events into
//! the machine and carries out the actions it returns.

pub mod config;
pub mod laws;
pub mod params;
pub mod session;
