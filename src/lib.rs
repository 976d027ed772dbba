//! A background usage monitor: it runs an accounting tool, extracts the data
//! line from its output, normalizes the reported days into a snapshot, and
//! derives the status texts and poll decisions around it.
//!
//! - `extract`: finding the data line and telling a hard failure apart
//! - `model`: the snapshot and its records
//! - `normalize`: from reported days to a snapshot
//! - `fetch`: errors, degraded snapshots, settling a fetch
//! - `notify`: status label and tooltip
//! - `poller`: the decisions of a poll cycle and of the command surface
//! - `settings`: polling settings

pub mod extract;
pub mod fetch;
pub mod model;
pub mod normalize;
pub mod notify;
pub mod poller;
pub mod settings;
