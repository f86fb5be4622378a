use std::path::Path;

use fs4::{available_space, free_space, statvfs, total_space, FsStats, StatvfsReply};

fn tempdir() -> tempfile::TempDir {
    tempfile::TempDir::with_prefix("fs4").unwrap()
}

/// Asks the operating system for the `statvfs(2)` reply of a path.
fn reply_for(path: &Path) -> Result<StatvfsReply, i32> {
    match rustix::fs::statvfs(path) {
        Ok(stat) => Ok(StatvfsReply {
            fragment_size: stat.f_frsize,
            blocks: stat.f_blocks,
            free_blocks: stat.f_bfree,
            available_blocks: stat.f_bavail,
        }),
        Err(e) => Err(e.raw_os_error()),
    }
}

#[test]
fn free_space_returns_ok() {
    let dir = tempdir();
    let free = free_space(reply_for(dir.path())).unwrap();
    let total = total_space(reply_for(dir.path())).unwrap();
    assert!(
        free <= total,
        "free_space ({free}) must not exceed total_space ({total})",
    );
}

#[test]
fn available_space_returns_ok() {
    let dir = tempdir();
    let available = available_space(reply_for(dir.path())).unwrap();
    let total = total_space(reply_for(dir.path())).unwrap();
    assert!(
        available <= total,
        "available_space ({available}) must not exceed total_space ({total})",
    );
}

#[test]
fn total_space_is_non_zero() {
    let dir = tempdir();
    assert!(
        total_space(reply_for(dir.path())).unwrap() > 0,
        "total_space on a tempdir's volume should be non-zero",
    );
}

#[test]
fn missing_path_errors() {
    let dir = tempdir();
    let missing = dir.path().join("definitely-does-not-exist");
    assert!(free_space(reply_for(&missing)).is_err());
    assert!(available_space(reply_for(&missing)).is_err());
    assert!(total_space(reply_for(&missing)).is_err());
}

#[test]
fn filesystem_space() {
    let dir = tempdir();
    let FsStats {
        free_space,
        available_space,
        total_space,
        ..
    } = statvfs(reply_for(dir.path())).unwrap();

    assert!(total_space >= free_space);
    assert!(total_space >= available_space);
    assert!(available_space <= free_space);
}

#[test]
fn missing_path_error_is_enoent() {
    let dir = tempdir();
    let missing = dir.path().join("definitely-does-not-exist");
    assert_eq!(
        statvfs(reply_for(&missing)),
        Err(rustix::io::Errno::NOENT.raw_os_error())
    );
}
