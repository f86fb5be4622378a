//! The allocated size of a file, and the decision that `allocate` takes
//! before it asks the operating system for disk space.
use vstd::prelude::*;

verus! {

/// The unit, in bytes, in which `stat(2)` counts the blocks of a file.
pub const STAT_BLOCK_SIZE: u64 = 512;

/// The number of bytes that `blocks` units of `stat(2)` stand for.
pub open spec fn spec_allocated_size(blocks: u64) -> int {
    blocks * STAT_BLOCK_SIZE
}

/// Returns the amount of physical space allocated for a file, from the
/// number of 512-byte blocks that its metadata reports.
pub fn allocated_size(blocks: u64) -> (r: u64)
    requires
        spec_allocated_size(blocks) <= u64::MAX,
    ensures
        r == spec_allocated_size(blocks),
        r == blocks * 512,
        blocks > 0 ==> r > 0,
{
    blocks * STAT_BLOCK_SIZE
}

/// The allocated size is 512 bytes per block, for every block count whose
/// byte count fits in 64 bits: it is zero only for zero blocks, and it grows
/// strictly with the block count.
pub proof fn lemma_allocated_size_counts_512_byte_blocks(blocks: u64, more_blocks: u64)
    requires
        blocks * 512 <= u64::MAX,
        more_blocks * 512 <= u64::MAX,
    ensures
        spec_allocated_size(blocks) == blocks * 512,
        spec_allocated_size(blocks) == 0 <==> blocks == 0,
        blocks < more_blocks ==> spec_allocated_size(blocks) < spec_allocated_size(more_blocks),
        spec_allocated_size(more_blocks) - spec_allocated_size(blocks) == (more_blocks - blocks)
            * 512,
{
}

/// What `allocate` does for a file of a given length.
#[derive(Clone, Copy, Debug, PartialEq, Eq, Structural)]
pub enum AllocateStep {
    /// The file is already at least as long as asked: no call is made.
    AlreadyAllocated,
    /// Disk space is to be allocated from offset 0 up to `len` bytes, which
    /// extends the file to `len` bytes.
    Extend { len: u64 },
}

/// The step for a file of `current_len` bytes when `len` bytes are asked for.
pub open spec fn spec_allocate_step(current_len: u64, len: u64) -> AllocateStep {
    if len <= current_len {
        AllocateStep::AlreadyAllocated
    } else {
        AllocateStep::Extend { len }
    }
}

/// The length of a file of `current_len` bytes once `step` is carried out.
pub open spec fn len_after(current_len: u64, step: AllocateStep) -> u64 {
    match step {
        AllocateStep::AlreadyAllocated => current_len,
        AllocateStep::Extend { len } => if len <= current_len {
            current_len
        } else {
            len
        },
    }
}

/// Decides what `allocate(len)` does to a file of `current_len` bytes: a file
/// that is already at least `len` bytes long is left alone, and any other is
/// extended to `len` bytes.
pub fn allocate_step(current_len: u64, len: u64) -> (step: AllocateStep)
    ensures
        step == spec_allocate_step(current_len, len),
        len <= current_len ==> step == AllocateStep::AlreadyAllocated,
        len > current_len ==> step == (AllocateStep::Extend { len }),
{
    if len <= current_len {
        AllocateStep::AlreadyAllocated
    } else {
        AllocateStep::Extend { len }
    }
}

/// After `allocate(len)` the file is at least `len` bytes long, it never
/// shrinks, and it is exactly as long as the larger of its old length and
/// `len`.
pub proof fn lemma_allocate_covers(current_len: u64, len: u64)
    ensures
        len_after(current_len, spec_allocate_step(current_len, len)) >= len,
        len_after(current_len, spec_allocate_step(current_len, len)) >= current_len,
        len_after(current_len, spec_allocate_step(current_len, len)) == if len <= current_len {
            current_len
        } else {
            len
        },
{
}

/// Allocating again is a no-op: once `allocate(len)` has been carried out,
/// asking for `len` or for any smaller length makes no further call and
/// leaves the file as it is.
pub proof fn lemma_allocate_idempotent(current_len: u64, len: u64, smaller: u64)
    requires
        smaller <= len,
    ensures
        ({
            let after = len_after(current_len, spec_allocate_step(current_len, len));
            &&& spec_allocate_step(after, len) == AllocateStep::AlreadyAllocated
            &&& spec_allocate_step(after, smaller) == AllocateStep::AlreadyAllocated
            &&& len_after(after, spec_allocate_step(after, smaller)) == after
        }),
{
}

} // verus!
