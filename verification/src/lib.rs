//! Core logic of a conversational client that keeps a remote hosted
//! assistant in sync with local project files.
//!
//! The crate verifies the decision logic of the client: the run polling
//! state machine, the bundle packaging and synchronization planner, the
//! upload deduplication cache, message content extraction, and the
//! conversation session fallback rules. Network and file system effects
//! are performed by a thin unverified shell that feeds plain values into
//! these functions and carries their decisions out.

pub mod assistant;
pub mod bundle;
pub mod cmd;
pub mod config;
pub mod conv;
pub mod errors;
pub mod ids;
pub mod msg;
pub mod run;
pub mod strutil;
pub mod sync;
pub mod wrap;
