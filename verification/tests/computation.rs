use fs4::allocation::{allocate_step, allocated_size, AllocateStep};
use fs4::{
    allocation_granularity, available_space, free_space, statvfs, total_space, FsStats,
    IoErrorInfo, StatvfsReply, TryLockError,
};
use fs4::try_lock_error::try_lock_result;

fn sample() -> StatvfsReply {
    StatvfsReply { fragment_size: 4096, blocks: 1000, free_blocks: 400, available_blocks: 300 }
}

#[test]
fn statvfs_multiplies_by_fragment_size() {
    assert_eq!(
        statvfs(Ok(sample())),
        Ok(FsStats {
            free_space: 1_638_400,
            available_space: 1_228_800,
            total_space: 4_096_000,
            allocation_granularity: 4096,
        })
    );
}

#[test]
fn statvfs_passes_os_error_through() {
    assert_eq!(statvfs(Err(2)), Err(2));
    assert_eq!(free_space(Err(13)), Err(13));
    assert_eq!(available_space(Err(5)), Err(5));
    assert_eq!(total_space(Err(20)), Err(20));
    assert_eq!(allocation_granularity(Err(1)), Err(1));
}

#[test]
fn single_figures_match_statvfs() {
    let stats = statvfs(Ok(sample())).unwrap();
    assert_eq!(free_space(Ok(sample())), Ok(stats.free_space));
    assert_eq!(available_space(Ok(sample())), Ok(stats.available_space));
    assert_eq!(total_space(Ok(sample())), Ok(stats.total_space));
    assert_eq!(allocation_granularity(Ok(sample())), Ok(4096));
}

#[test]
fn figures_are_whole_units() {
    let stats = statvfs(Ok(sample())).unwrap();
    let unit = stats.allocation_granularity();
    assert_eq!(stats.free_space() % unit, 0);
    assert_eq!(stats.available_space() % unit, 0);
    assert_eq!(stats.total_space() % unit, 0);
}

#[test]
fn space_ordering_holds() {
    let stats = statvfs(Ok(sample())).unwrap();
    assert!(stats.available_space <= stats.free_space);
    assert!(stats.free_space <= stats.total_space);
}

#[test]
fn empty_filesystem_has_no_total_space() {
    let reply = StatvfsReply { fragment_size: 512, blocks: 0, free_blocks: 0, available_blocks: 0 };
    assert_eq!(total_space(Ok(reply)), Ok(0));
    let reply = StatvfsReply { fragment_size: 0, blocks: 7, free_blocks: 3, available_blocks: 1 };
    assert_eq!(total_space(Ok(reply)), Ok(0));
    assert_eq!(allocation_granularity(Ok(reply)), Ok(0));
}

#[test]
fn largest_figures_that_fit() {
    let reply = StatvfsReply {
        fragment_size: 1,
        blocks: u64::MAX,
        free_blocks: u64::MAX,
        available_blocks: 0,
    };
    assert_eq!(total_space(Ok(reply)), Ok(u64::MAX));
    assert_eq!(available_space(Ok(reply)), Ok(0));
}

#[test]
fn getters_return_fields() {
    let stats = FsStats {
        free_space: 10,
        available_space: 8,
        total_space: 20,
        allocation_granularity: 2,
    };
    assert_eq!(stats.free_space(), 10);
    assert_eq!(stats.available_space(), 8);
    assert_eq!(stats.total_space(), 20);
    assert_eq!(stats.allocation_granularity(), 2);
}

#[test]
fn allocated_size_counts_512_byte_blocks() {
    assert_eq!(allocated_size(0), 0);
    assert_eq!(allocated_size(8), 4096);
    assert_eq!(allocated_size(u64::MAX / 512), (u64::MAX / 512) * 512);
}

#[test]
fn allocate_extends_short_file() {
    assert_eq!(allocate_step(0, 8191), AllocateStep::Extend { len: 8191 });
    assert_eq!(allocate_step(4097, 8192), AllocateStep::Extend { len: 8192 });
}

#[test]
fn allocate_leaves_long_file_alone() {
    assert_eq!(allocate_step(8192, 8192), AllocateStep::AlreadyAllocated);
    assert_eq!(allocate_step(8192, 4096), AllocateStep::AlreadyAllocated);
    assert_eq!(allocate_step(0, 0), AllocateStep::AlreadyAllocated);
}

#[test]
fn allocate_idempotent() {
    let blksize: u64 = 4096;
    let first = allocate_step(0, 2 * blksize);
    let len = match first {
        AllocateStep::Extend { len } => len,
        AllocateStep::AlreadyAllocated => 0,
    };
    assert_eq!(len, 2 * blksize);
    assert_eq!(allocate_step(len, 2 * blksize), AllocateStep::AlreadyAllocated);
    assert_eq!(allocate_step(len, blksize), AllocateStep::AlreadyAllocated);
}

#[test]
fn would_block_becomes_would_block() {
    let err = IoErrorInfo { raw_os_error: Some(11), would_block: true };
    assert_eq!(TryLockError::from(err), TryLockError::WouldBlock);
    assert_eq!(try_lock_result(Err(err)), Err(TryLockError::WouldBlock));
}

#[test]
fn other_errors_stay_errors() {
    let err = IoErrorInfo { raw_os_error: Some(9), would_block: false };
    assert_eq!(TryLockError::from(err), TryLockError::Error(err));
    assert_eq!(try_lock_result(Err(err)), Err(TryLockError::Error(err)));
    assert_eq!(try_lock_result(Ok(())), Ok(()));
}

#[test]
fn try_lock_error_into_io_error() {
    let err = IoErrorInfo { raw_os_error: Some(5), would_block: false };
    assert_eq!(IoErrorInfo::from(TryLockError::Error(err)), err);
    assert_eq!(
        IoErrorInfo::from(TryLockError::WouldBlock),
        IoErrorInfo { raw_os_error: None, would_block: true }
    );
}

#[test]
fn try_lock_error_round_trip() {
    let err = TryLockError::Error(IoErrorInfo { raw_os_error: Some(22), would_block: false });
    assert_eq!(TryLockError::from(IoErrorInfo::from(err)), err);
    assert_eq!(
        TryLockError::from(IoErrorInfo::from(TryLockError::WouldBlock)),
        TryLockError::WouldBlock
    );
}
