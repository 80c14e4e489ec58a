//! Keeps a set of named working folders in fast local scratch storage,
//! makes each home-directory entry a symbolic link into that storage, and
//! persists the content to durable remote storage.
//!
//! - `machine`: the per-folder decisions, a state machine driven by the
//!   caller, who performs each requested filesystem action and reports what
//!   happened.
//! - `model`: the effect of each action on an in-memory folder, and runs of
//!   the machine against it.
//! - `laws`: properties of whole runs, proved over that model.
//! - `layout`: the paths of each managed folder.
//! - `report`: session hooks around a run and the summary of its outcomes.
pub mod laws;
pub mod layout;
pub mod machine;
pub mod model;
pub mod report;
