//! The record of one discovered regular file.

use vstd::prelude::*;

verus! {

/// One discovered regular file: its path as given by the walk, its final
/// path component, and its size on disk in bytes.
#[derive(Debug, PartialEq, Eq)]
pub struct MyFile {
    pub path: String,
    pub name: String,
    pub size_bytes: u64,
}

impl MyFile {
    /// Builds a record from the probes made on one directory entry: the
    /// decoded file name, if it could be read, and the size on disk, if it
    /// could be queried. A record exists exactly when both probes succeeded;
    /// an entry that fails either probe is never materialized.
    pub fn from_path(path: &String, name: Option<String>, size_bytes: Option<u64>) -> (r: Option<
        MyFile,
    >)
        ensures
            r is Some <==> (name is Some && size_bytes is Some),
            r matches Some(f) ==> {
                &&& f.path@ == path@
                &&& Some(f.name) == name
                &&& Some(f.size_bytes) == size_bytes
            },
    {
        match (name, size_bytes) {
            (Some(name), Some(size_bytes)) => Some(
                MyFile { path: path.clone(), name, size_bytes },
            ),
            _ => None,
        }
    }
}

} // verus!
