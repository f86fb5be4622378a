//! Disk-space statistics, allocation and lock-outcome rules for files and
//! filesystems, verified with Verus.
//!
//! The operating-system calls (`statvfs(2)`, `fstat(2)`, `fallocate(2)`,
//! `flock(2)`) are made by the caller; this crate holds what is computed
//! from their replies and what is decided between them.
pub mod allocation;
pub mod fs_stats;
pub mod stats;
pub mod try_lock_error;

pub use fs_stats::FsStats;
pub use try_lock_error::{IoErrorInfo, TryLockError};
pub use stats::{
    allocation_granularity, available_space, free_space, statvfs, total_space, StatvfsReply,
};
