//! Projects: a name, a configuration, and the directory layout they live in.
//!
//! Loading and saving the on-disk configuration document belong to the
//! embedding application; a loaded project is handed in as plain values.

pub mod config;
pub mod engine;
pub mod versions;

use crate::project::config::ProjectConfiguration;
use crate::util::dirs::Dirs;
use vstd::prelude::*;

verus! {

/// A loaded project.
pub struct Project {
    pub name: String,
    pub config: ProjectConfiguration,
    pub dirs: Dirs,
}

impl Project {
    /// The project's absolute directory.
    pub fn path(&self) -> (r: String)
        ensures
            r@ == self.dirs.absolute_project_dir@,
    {
        self.dirs.absolute_project_dir.clone()
    }
}

} // verus!
