//! Keeping snapshots on disk.
pub mod file;
