//! The directory layout the pipeline works inside.
//!
//! The concrete locations depend on the host (its conventions for cache and
//! data directories, an optional home override, the working directory), so
//! the embedding application computes them and hands them in; the library
//! only carries them.  The pipeline writes inside the install and download
//! directories alone, and deletes inside the download directory alone.

use vstd::prelude::*;

verus! {

/// Where a project and the shared engine cache live.
#[derive(Clone, Debug)]
pub struct Dirs {
    pub project_dir: String,
    pub absolute_project_dir: String,
    pub cache_dir: String,
    pub download_dir: String,
    pub engines_install_dir: String,
}

} // verus!
