//! The global allocator's bookkeeping: each allocation takes a kernel block with room for
//! the alignment and a marker byte, and the byte just before the aligned address records how
//! far it lies from the block's start.
use vstd::prelude::*;

verus! {

/// Size of the page zeroed when the heap is first used.
pub const PAGE_SIZE: usize = 4096;

/// The least multiple of `align` that is at least `x`.
pub open spec fn next_multiple(x: int, align: int) -> int {
    if x % align == 0 { x } else { x + (align - x % align) }
}

/// Size of the kernel block for an allocation: the size, the alignment, and one byte.
pub fn block_size(size: usize, align: usize) -> (n: usize)
    requires
        size + align + 1 <= usize::MAX,
    ensures
        n == size + align + 1,
{
    size + align + 1
}

/// Where an allocation is placed in a kernel block at `block`, and the marker byte written
/// just before it: the first multiple of `align` after the block's first byte, and its
/// distance from the block's start (kept in 8 bits).
pub fn place_in_block(block: usize, align: usize) -> (r: (usize, u8))
    requires
        align > 0,
        block + 1 + align <= usize::MAX,
    ensures
        r.0 == next_multiple(block + 1, align as int),
        (r.0 as int) % (align as int) == 0,
        block < r.0 <= block + align,
        r.1 == (r.0 - block) as u8,
{
    let x = block + 1;
    let rem = x % align;
    let aligned = if rem == 0 { x } else { x + (align - rem) };
    assert((aligned as int) % (align as int) == 0) by {
        if rem != 0 {
            assert(((x + (align - rem)) as int) % (align as int) == 0) by (nonlinear_arith)
                requires rem == x % align, align > 0, rem != 0;
        }
    }
    let delta = (aligned - block) as u8;
    (aligned, delta)
}

/// The start of the kernel block of an allocation, from its address and its marker byte.
pub fn block_of(ptr: usize, delta: u8) -> (block: usize)
    requires
        ptr >= delta,
    ensures
        block == ptr - delta,
{
    ptr - delta as usize
}

/// Freeing finds the block that allocating took whenever the distance fits in the marker
/// byte, which holds for every alignment up to 255.
pub proof fn lemma_marker_finds_block(block: usize, align: usize, aligned: usize, delta: u8)
    requires
        0 < align <= 255,
        aligned == next_multiple(block + 1, align as int),
        block < aligned <= block + align,
        delta == (aligned - block) as u8,
    ensures
        aligned - delta == block,
{
}

} // verus!
