//! A verified core for a fleet stress-test launcher: it reserves a contiguous
//! block of user numbers against a shared remote counter, provisions one
//! credential per instance, spawns and staggers the instances, waits out the
//! run, and tears everything down with a best-effort sweep by process name.
//!
//! All sequencing, failure handling and bookkeeping live here as a verified
//! state machine; the surrounding binary performs the actual network, file
//! and process calls and feeds the outcomes back in as events.

pub mod config;
pub mod counter;
pub mod orchestrator;
pub mod provision;
pub mod supervisor;
pub mod textfmt;
