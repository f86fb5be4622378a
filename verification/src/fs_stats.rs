//! The statistics of a filesystem, in bytes.
use vstd::prelude::*;

verus! {

/// Space statistics of the filesystem that holds a path.
///
/// Every figure is a count of bytes.
#[derive(Clone, Copy, Debug, PartialEq, Eq, Structural)]
pub struct FsStats {
    /// Bytes that are not in use.
    pub free_space: u64,
    /// Bytes that a non-privileged user may still use.
    pub available_space: u64,
    /// Bytes that the filesystem holds in all.
    pub total_space: u64,
    /// The unit in which the filesystem hands out disk space.
    pub allocation_granularity: u64,
}

impl FsStats {
    /// Returns the number of free bytes.
    pub fn free_space(&self) -> (r: u64)
        ensures
            r == self.free_space,
    {
        self.free_space
    }

    /// Returns the number of bytes available to non-privileged users.
    pub fn available_space(&self) -> (r: u64)
        ensures
            r == self.available_space,
    {
        self.available_space
    }

    /// Returns the total number of bytes.
    pub fn total_space(&self) -> (r: u64)
        ensures
            r == self.total_space,
    {
        self.total_space
    }

    /// Returns the allocation granularity in bytes.
    pub fn allocation_granularity(&self) -> (r: u64)
        ensures
            r == self.allocation_granularity,
    {
        self.allocation_granularity
    }
}

} // verus!
