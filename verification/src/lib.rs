//! A per-project manager for a large binary game-engine runtime.
//!
//! The library covers the engine version resolution and installation
//! pipeline: release identifiers, platform-aware artifact naming, the
//! archive-extraction layout heuristic, the download bookkeeping, and the
//! idempotent install state machine.  All file, network and process work is
//! left to the embedding application, which drives the state machine and
//! applies the plans computed here.

pub mod project;
pub mod util;
