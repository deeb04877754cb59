use vstd::prelude::*;

verus! {

/// A package pinned by the lock file.
#[derive(Debug, Clone)]
pub struct Package {
    pub name: String,
    pub version: String,
    /// Where the package comes from; a package without it cannot be resolved.
    pub source: Option<String>,
}

/// The packages of a lock file, in the file's order, and its metadata table.
#[derive(Debug)]
pub struct LockFile {
    pub package: Vec<Package>,
    pub metadata: std::collections::HashMap<String, String>,
}

} // verus!
