//! The space statistics of a filesystem, computed from a `statvfs(2)` reply.
use vstd::prelude::*;

use crate::fs_stats::FsStats;

verus! {

/// The fields of a `statvfs(2)` reply that the space figures are made of.
#[derive(Clone, Copy, Debug, PartialEq, Eq, Structural)]
pub struct StatvfsReply {
    /// `f_frsize`: the fragment size, the unit of the block counts below.
    pub fragment_size: u64,
    /// `f_blocks`: the size of the filesystem, in fragments.
    pub blocks: u64,
    /// `f_bfree`: the number of free fragments.
    pub free_blocks: u64,
    /// `f_bavail`: the number of fragments free for non-privileged users.
    pub available_blocks: u64,
}

impl StatvfsReply {
    /// Every space figure of this reply fits in 64 bits.
    pub open spec fn fits(self) -> bool {
        &&& self.fragment_size * self.blocks <= u64::MAX
        &&& self.fragment_size * self.free_blocks <= u64::MAX
        &&& self.fragment_size * self.available_blocks <= u64::MAX
    }
}

/// The statistics that a reply stands for: each count of fragments times the
/// fragment size, and the fragment size as the allocation granularity.
pub open spec fn stats_of(reply: StatvfsReply) -> FsStats {
    FsStats {
        free_space: (reply.fragment_size * reply.free_blocks) as u64,
        available_space: (reply.fragment_size * reply.available_blocks) as u64,
        total_space: (reply.fragment_size * reply.blocks) as u64,
        allocation_granularity: reply.fragment_size,
    }
}

/// A reply that failed needs nothing; one that succeeded must fit in 64 bits.
pub open spec fn reply_fits(reply: Result<StatvfsReply, i32>) -> bool {
    match reply {
        Ok(r) => r.fits(),
        Err(_) => true,
    }
}

/// What `statvfs` gives for a reply: the statistics on success, and the
/// operating system's error code, unchanged, on failure.
pub open spec fn spec_statvfs(reply: Result<StatvfsReply, i32>) -> Result<FsStats, i32> {
    match reply {
        Ok(r) => Ok(stats_of(r)),
        Err(code) => Err(code),
    }
}

/// One figure of the statistics that `spec_statvfs` gives, or its error.
pub open spec fn spec_field(
    reply: Result<StatvfsReply, i32>,
    field: spec_fn(FsStats) -> u64,
) -> Result<u64, i32> {
    match spec_statvfs(reply) {
        Ok(s) => Ok(field(s)),
        Err(code) => Err(code),
    }
}

/// Gets the stats of the file system from the reply of `statvfs(2)` on a path
/// in it: `Err` carries the raw operating-system error of a failed call.
pub fn statvfs(reply: Result<StatvfsReply, i32>) -> (r: Result<FsStats, i32>)
    requires
        reply_fits(reply),
    ensures
        r == spec_statvfs(reply),
        reply matches Ok(raw) ==> r == Ok::<FsStats, i32>(
            FsStats {
                free_space: (raw.fragment_size * raw.free_blocks) as u64,
                available_space: (raw.fragment_size * raw.available_blocks) as u64,
                total_space: (raw.fragment_size * raw.blocks) as u64,
                allocation_granularity: raw.fragment_size,
            },
        ),
        reply matches Err(code) ==> r == Err::<FsStats, i32>(code),
{
    match reply {
        Ok(raw) => Ok(
            FsStats {
                free_space: raw.fragment_size * raw.free_blocks,
                available_space: raw.fragment_size * raw.available_blocks,
                total_space: raw.fragment_size * raw.blocks,
                allocation_granularity: raw.fragment_size,
            },
        ),
        Err(code) => Err(code),
    }
}

/// Returns the number of free bytes in the file system of the reply.
pub fn free_space(reply: Result<StatvfsReply, i32>) -> (r: Result<u64, i32>)
    requires
        reply_fits(reply),
    ensures
        r == spec_field(reply, |s: FsStats| s.free_space),
        reply matches Ok(raw) ==> r == Ok::<u64, i32>((raw.fragment_size * raw.free_blocks) as u64),
        reply matches Err(code) ==> r == Err::<u64, i32>(code),
{
    match statvfs(reply) {
        Ok(stats) => Ok(stats.free_space),
        Err(code) => Err(code),
    }
}

/// Returns the space in bytes available to non-privileged users in the file
/// system of the reply.
pub fn available_space(reply: Result<StatvfsReply, i32>) -> (r: Result<u64, i32>)
    requires
        reply_fits(reply),
    ensures
        r == spec_field(reply, |s: FsStats| s.available_space),
        reply matches Ok(raw) ==> r == Ok::<u64, i32>((raw.fragment_size * raw.available_blocks) as u64),
        reply matches Err(code) ==> r == Err::<u64, i32>(code),
{
    match statvfs(reply) {
        Ok(stats) => Ok(stats.available_space),
        Err(code) => Err(code),
    }
}

/// Returns the total space in bytes in the file system of the reply.
pub fn total_space(reply: Result<StatvfsReply, i32>) -> (r: Result<u64, i32>)
    requires
        reply_fits(reply),
    ensures
        r == spec_field(reply, |s: FsStats| s.total_space),
        reply matches Ok(raw) ==> r == Ok::<u64, i32>((raw.fragment_size * raw.blocks) as u64),
        reply matches Err(code) ==> r == Err::<u64, i32>(code),
{
    match statvfs(reply) {
        Ok(stats) => Ok(stats.total_space),
        Err(code) => Err(code),
    }
}

/// Returns the filesystem's disk space allocation granularity in bytes: on
/// Posix, the filesystem's fragment size.
pub fn allocation_granularity(reply: Result<StatvfsReply, i32>) -> (r: Result<u64, i32>)
    requires
        reply_fits(reply),
    ensures
        r == spec_field(reply, |s: FsStats| s.allocation_granularity),
        reply matches Ok(raw) ==> r == Ok::<u64, i32>(raw.fragment_size),
        reply matches Err(code) ==> r == Err::<u64, i32>(code),
{
    match statvfs(reply) {
        Ok(stats) => Ok(stats.allocation_granularity),
        Err(code) => Err(code),
    }
}

/// Each space figure is a whole number of allocation units: free, available
/// and total space are multiples of the allocation granularity.
pub proof fn lemma_space_in_whole_units(reply: StatvfsReply)
    requires
        reply.fits(),
        reply.fragment_size > 0,
    ensures
        stats_of(reply).free_space % stats_of(reply).allocation_granularity == 0,
        stats_of(reply).available_space % stats_of(reply).allocation_granularity == 0,
        stats_of(reply).total_space % stats_of(reply).allocation_granularity == 0,
{
    let f = reply.fragment_size as int;
    vstd::arithmetic::mul::lemma_mul_is_commutative(f, reply.free_blocks as int);
    vstd::arithmetic::mul::lemma_mul_is_commutative(f, reply.available_blocks as int);
    vstd::arithmetic::mul::lemma_mul_is_commutative(f, reply.blocks as int);
    vstd::arithmetic::div_mod::lemma_mod_multiples_basic(reply.free_blocks as int, f);
    vstd::arithmetic::div_mod::lemma_mod_multiples_basic(reply.available_blocks as int, f);
    vstd::arithmetic::div_mod::lemma_mod_multiples_basic(reply.blocks as int, f);
}

/// Free space never exceeds total space, nor available space free space, as
/// long as the filesystem reports no more free fragments than it has, and no
/// more available fragments than free ones.
pub proof fn lemma_space_ordering(reply: StatvfsReply)
    requires
        reply.fits(),
    ensures
        reply.free_blocks <= reply.blocks ==> stats_of(reply).free_space
            <= stats_of(reply).total_space,
        reply.available_blocks <= reply.blocks ==> stats_of(reply).available_space
            <= stats_of(reply).total_space,
        reply.available_blocks <= reply.free_blocks ==> stats_of(reply).available_space
            <= stats_of(reply).free_space,
{
    let f = reply.fragment_size as int;
    vstd::arithmetic::mul::lemma_mul_is_commutative(f, reply.free_blocks as int);
    vstd::arithmetic::mul::lemma_mul_is_commutative(f, reply.available_blocks as int);
    vstd::arithmetic::mul::lemma_mul_is_commutative(f, reply.blocks as int);
    if reply.free_blocks <= reply.blocks {
        vstd::arithmetic::mul::lemma_mul_inequality(
            reply.free_blocks as int,
            reply.blocks as int,
            f,
        );
    }
    if reply.available_blocks <= reply.blocks {
        vstd::arithmetic::mul::lemma_mul_inequality(
            reply.available_blocks as int,
            reply.blocks as int,
            f,
        );
    }
    if reply.available_blocks <= reply.free_blocks {
        vstd::arithmetic::mul::lemma_mul_inequality(
            reply.available_blocks as int,
            reply.free_blocks as int,
            f,
        );
    }
}

/// The total space is zero exactly when the filesystem has no fragments or
/// a fragment size of zero.
pub proof fn lemma_total_space_nonzero(reply: StatvfsReply)
    requires
        reply.fits(),
    ensures
        stats_of(reply).total_space > 0 <==> (reply.fragment_size > 0 && reply.blocks > 0),
{
    let f = reply.fragment_size as int;
    let b = reply.blocks as int;
    if f > 0 && b > 0 {
        vstd::arithmetic::mul::lemma_mul_strictly_positive(f, b);
    } else if f == 0 {
        vstd::arithmetic::mul::lemma_mul_basics(b);
    } else {
        vstd::arithmetic::mul::lemma_mul_basics(f);
    }
}

/// Each single figure is the figure of the whole statistics: asking for one
/// of them gives what `statvfs` gives for the same reply, or its error.
pub proof fn lemma_figures_agree_with_statvfs(reply: Result<StatvfsReply, i32>)
    ensures
        spec_statvfs(reply) matches Ok(s) ==> {
            &&& spec_field(reply, |t: FsStats| t.free_space) == Ok::<u64, i32>(s.free_space)
            &&& spec_field(reply, |t: FsStats| t.available_space) == Ok::<u64, i32>(
                s.available_space,
            )
            &&& spec_field(reply, |t: FsStats| t.total_space) == Ok::<u64, i32>(s.total_space)
            &&& spec_field(reply, |t: FsStats| t.allocation_granularity) == Ok::<u64, i32>(
                s.allocation_granularity,
            )
        },
        spec_statvfs(reply) matches Err(code) ==> {
            &&& spec_field(reply, |t: FsStats| t.free_space) == Err::<u64, i32>(code)
            &&& spec_field(reply, |t: FsStats| t.total_space) == Err::<u64, i32>(code)
        },
{
}

/// Each figure of a reply that fits is its own count of fragments times the
/// fragment size, as a number of bytes, and the granularity is the fragment
/// size; each single figure of a successful reply is that product.
pub proof fn lemma_figures_are_fragment_products(reply: StatvfsReply)
    requires
        reply.fits(),
    ensures
        stats_of(reply).free_space == reply.fragment_size * reply.free_blocks,
        stats_of(reply).available_space == reply.fragment_size * reply.available_blocks,
        stats_of(reply).total_space == reply.fragment_size * reply.blocks,
        stats_of(reply).allocation_granularity == reply.fragment_size,
        spec_statvfs(Ok(reply)) is Ok,
        spec_field(Ok(reply), |t: FsStats| t.free_space) == Ok::<u64, i32>(
            (reply.fragment_size * reply.free_blocks) as u64,
        ),
        spec_field(Ok(reply), |t: FsStats| t.available_space) == Ok::<u64, i32>(
            (reply.fragment_size * reply.available_blocks) as u64,
        ),
        spec_field(Ok(reply), |t: FsStats| t.total_space) == Ok::<u64, i32>(
            (reply.fragment_size * reply.blocks) as u64,
        ),
        spec_field(Ok(reply), |t: FsStats| t.allocation_granularity) == Ok::<u64, i32>(
            reply.fragment_size,
        ),
{
}

/// Each figure depends only on the fragment size and its own count: two
/// replies that agree on those give the same figure, whatever their other
/// counts are.
pub proof fn lemma_figures_depend_on_own_count(a: StatvfsReply, b: StatvfsReply)
    requires
        a.fits(),
        b.fits(),
        a.fragment_size == b.fragment_size,
    ensures
        a.free_blocks == b.free_blocks ==> stats_of(a).free_space == stats_of(b).free_space,
        a.available_blocks == b.available_blocks ==> stats_of(a).available_space
            == stats_of(b).available_space,
        a.blocks == b.blocks ==> stats_of(a).total_space == stats_of(b).total_space,
        stats_of(a).allocation_granularity == stats_of(b).allocation_granularity,
{
}

/// The figures keep the order of their counts: where the kernel reports more
/// available fragments than free ones (as on APFS), the available space
/// exceeds the free space, and likewise for any two counts.
pub proof fn lemma_figures_follow_counts(reply: StatvfsReply)
    requires
        reply.fits(),
        reply.fragment_size > 0,
    ensures
        reply.available_blocks > reply.free_blocks ==> stats_of(reply).available_space
            > stats_of(reply).free_space,
        reply.free_blocks > reply.available_blocks ==> stats_of(reply).free_space
            > stats_of(reply).available_space,
        reply.free_blocks < reply.blocks ==> stats_of(reply).free_space
            < stats_of(reply).total_space,
        reply.available_blocks < reply.blocks ==> stats_of(reply).available_space
            < stats_of(reply).total_space,
{
    let f = reply.fragment_size as int;
    vstd::arithmetic::mul::lemma_mul_is_commutative(f, reply.free_blocks as int);
    vstd::arithmetic::mul::lemma_mul_is_commutative(f, reply.available_blocks as int);
    vstd::arithmetic::mul::lemma_mul_is_commutative(f, reply.blocks as int);
    if reply.available_blocks > reply.free_blocks {
        vstd::arithmetic::mul::lemma_mul_strict_inequality(
            reply.free_blocks as int,
            reply.available_blocks as int,
            f,
        );
    }
    if reply.free_blocks > reply.available_blocks {
        vstd::arithmetic::mul::lemma_mul_strict_inequality(
            reply.available_blocks as int,
            reply.free_blocks as int,
            f,
        );
    }
    if reply.free_blocks < reply.blocks {
        vstd::arithmetic::mul::lemma_mul_strict_inequality(
            reply.free_blocks as int,
            reply.blocks as int,
            f,
        );
    }
    if reply.available_blocks < reply.blocks {
        vstd::arithmetic::mul::lemma_mul_strict_inequality(
            reply.available_blocks as int,
            reply.blocks as int,
            f,
        );
    }
}

/// A failed `statvfs(2)` call stays a failure with the same operating-system
/// error code: the statistics, and every single figure of them, are that
/// error, never a value.
pub proof fn lemma_failed_reply_stays_failed(code: i32, field: spec_fn(FsStats) -> u64)
    ensures
        spec_statvfs(Err(code)) == Err::<FsStats, i32>(code),
        spec_field(Err(code), field) == Err::<u64, i32>(code),
        spec_field(Err(code), |t: FsStats| t.free_space) == Err::<u64, i32>(code),
        spec_field(Err(code), |t: FsStats| t.available_space) == Err::<u64, i32>(code),
        spec_field(Err(code), |t: FsStats| t.total_space) == Err::<u64, i32>(code),
        spec_field(Err(code), |t: FsStats| t.allocation_granularity) == Err::<u64, i32>(code),
{
}

} // verus!
