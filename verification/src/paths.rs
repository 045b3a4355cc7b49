//! Where the application keeps its configuration and its data.
use vstd::prelude::*;

verus! {

/// The default configuration file and the data directory.
pub struct Paths {
    pub config: std::path::PathBuf,
    pub data: std::path::PathBuf,
}

} // verus!
