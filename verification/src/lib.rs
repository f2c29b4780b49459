//! Scan-coordination core of a recursive web content-discovery tool.
//!
//! Tracks every directory/file enumeration task launched against a target
//! (`scan`, `registry`), carries the pause/resume control protocol that
//! in-flight workers honor (`pause`), and serializes enough state that an
//! interrupted run can be reconstructed from disk (`state`, `codec`).

pub mod codec;
pub mod pause;
pub mod progress;
pub mod registry;
pub mod scan;
pub mod state;
