//! Locating segments removed from a copy of a recording.
//!
//! The library holds the decisions of the search: a bisection that narrows
//! down where two sample streams stop matching, the range checks that every
//! window read must pass, and the scan state that turns each located cut into
//! a record. Reading samples, correlating windows and computing distance
//! profiles are done by the caller, who feeds the outcomes back in.
pub mod config;
pub mod error;
pub mod laws;
pub mod locate;
pub mod scan;

pub use config::ScanConfig;
pub use error::ScanError;
pub use locate::Locator;
pub use scan::{Action, CutRecord, Phase, Scanner};
