//! The storage gateway's handle: a single flat base directory under which
//! every accepted file occupies one artifact named by the coordinator.
//!
//! Opening the directory (validating it exists) and creating artifacts in
//! it are filesystem work done by the surrounding program; the engine only
//! ever names artifacts and hands over bytes. The coordinator-issued
//! storage name is trusted as the artifact's one path component.

use vstd::prelude::*;

verus! {

/// Handle to the flat storage namespace.
#[derive(Debug, Clone)]
pub struct FileStorage {
    pub base_directory: String,
}

impl FileStorage {
    /// A handle rooted at `base_directory`.
    pub fn new(base_directory: String) -> (r: FileStorage)
        ensures
            r.base_directory == base_directory,
    {
        FileStorage { base_directory }
    }
}

} // verus!
