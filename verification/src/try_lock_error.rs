//! The error of a non-blocking lock attempt, and its conversions to and from
//! an I/O error.
use vstd::prelude::*;

verus! {

/// What a lock attempt's I/O error tells: the raw operating-system error code,
/// if it has one, and whether its kind is "would block".
#[derive(Clone, Copy, Debug, PartialEq, Eq, Structural)]
pub struct IoErrorInfo {
    /// The raw operating-system error code, if the error carries one.
    pub raw_os_error: Option<i32>,
    /// The error's kind is `WouldBlock`: the operation would have blocked.
    pub would_block: bool,
}

impl IoErrorInfo {
    /// An error of kind `WouldBlock` that carries no operating-system code.
    pub open spec fn spec_would_block() -> IoErrorInfo {
        IoErrorInfo { raw_os_error: None, would_block: true }
    }
}

/// The error of `try_lock` and `try_lock_shared`.
#[derive(Clone, Copy, Debug, PartialEq, Eq, Structural)]
pub enum TryLockError {
    /// The lock could not be acquired for a reason other than contention.
    Error(IoErrorInfo),
    /// The lock is held by another handle, and the call would have blocked.
    WouldBlock,
}

/// The `TryLockError` that an I/O error becomes: an error of kind
/// `WouldBlock` means that the file is locked elsewhere.
pub open spec fn spec_try_lock_error_from(err: IoErrorInfo) -> TryLockError {
    if err.would_block {
        TryLockError::WouldBlock
    } else {
        TryLockError::Error(err)
    }
}

/// The I/O error that a `TryLockError` becomes.
pub open spec fn spec_io_error_from(err: TryLockError) -> IoErrorInfo {
    match err {
        TryLockError::Error(e) => e,
        TryLockError::WouldBlock => IoErrorInfo::spec_would_block(),
    }
}

impl From<IoErrorInfo> for TryLockError {
    fn from(err: IoErrorInfo) -> (r: TryLockError)
        ensures
            err.would_block ==> r == TryLockError::WouldBlock,
            !err.would_block ==> r == TryLockError::Error(err),
    {
        if err.would_block {
            TryLockError::WouldBlock
        } else {
            TryLockError::Error(err)
        }
    }
}

impl vstd::std_specs::convert::FromSpecImpl<IoErrorInfo> for TryLockError {
    open spec fn obeys_from_spec() -> bool {
        true
    }

    open spec fn from_spec(v: IoErrorInfo) -> TryLockError {
        spec_try_lock_error_from(v)
    }
}

impl From<TryLockError> for IoErrorInfo {
    fn from(err: TryLockError) -> (r: IoErrorInfo)
        ensures
            err matches TryLockError::Error(e) ==> r == e,
            err is WouldBlock ==> r.would_block && r.raw_os_error is None,
    {
        match err {
            TryLockError::Error(e) => e,
            TryLockError::WouldBlock => IoErrorInfo { raw_os_error: None, would_block: true },
        }
    }
}

impl vstd::std_specs::convert::FromSpecImpl<TryLockError> for IoErrorInfo {
    open spec fn obeys_from_spec() -> bool {
        true
    }

    open spec fn from_spec(v: TryLockError) -> IoErrorInfo {
        spec_io_error_from(v)
    }
}

/// The result of `try_lock` or `try_lock_shared` from the result of the
/// non-blocking `flock(2)` call: success stays success, and an error becomes
/// the `TryLockError` that it converts to.
pub fn try_lock_result(flock: Result<(), IoErrorInfo>) -> (r: Result<(), TryLockError>)
    ensures
        r == (match flock {
            Ok(()) => Ok(()),
            Err(e) => Err(spec_try_lock_error_from(e)),
        }),
        flock matches Ok(()) ==> r == Ok::<(), TryLockError>(()),
        flock matches Err(e) ==> (e.would_block ==> r == Err::<(), TryLockError>(
            TryLockError::WouldBlock,
        )),
        flock matches Err(e) ==> (!e.would_block ==> r == Err::<(), TryLockError>(
            TryLockError::Error(e),
        )),
{
    match flock {
        Ok(()) => Ok(()),
        Err(e) => Err(TryLockError::from(e)),
    }
}

/// A `TryLockError` survives the round trip through an I/O error: each one
/// comes back as itself, provided that an `Error` does not already hold an
/// error of kind `WouldBlock` (that one comes back as `WouldBlock`).
pub proof fn lemma_try_lock_error_round_trip(err: TryLockError)
    requires
        err matches TryLockError::Error(e) ==> !e.would_block,
    ensures
        spec_try_lock_error_from(spec_io_error_from(err)) == err,
{
}

/// An I/O error survives the round trip through a `TryLockError`, except that
/// an error of kind `WouldBlock` loses its operating-system code; and an
/// error is reported as contention exactly when its kind is `WouldBlock`.
pub proof fn lemma_io_error_round_trip(err: IoErrorInfo)
    ensures
        !err.would_block ==> spec_io_error_from(spec_try_lock_error_from(err)) == err,
        err.would_block ==> spec_io_error_from(spec_try_lock_error_from(err))
            == IoErrorInfo::spec_would_block(),
        (spec_try_lock_error_from(err) == TryLockError::WouldBlock) <==> err.would_block,
{
}

} // verus!
