//! The layout of the blocks that the codec's allocator shim hands out.
//!
//! Each block begins with a header that holds the size asked for, so that
//! the block can be given back without the codec naming its size again.

use vstd::prelude::*;

verus! {

/// Size and alignment of a block of memory.
#[derive(Copy, Clone, Debug, PartialEq, Eq, Structural)]
pub struct BlockLayout {
    /// Number of bytes.
    pub size: usize,
    /// Alignment in bytes, a power of two.
    pub align: usize,
}

/// Number of bytes of the header: the size of a `usize`.
pub open spec fn spec_header_size() -> usize {
    (usize::BITS / 8) as usize
}

/// Alignment of every block: twice the size of a `usize`.
pub open spec fn spec_alignment() -> usize {
    (usize::BITS / 4) as usize
}

/// Whether a block for `size` bytes and its header can be laid out: the
/// whole, rounded up to the alignment, does not go beyond `isize::MAX`.
pub open spec fn spec_fits(size: usize) -> bool {
    spec_header_size() + size <= isize::MAX - (spec_alignment() - 1)
}

/// Number of bytes of the header: the size of a `usize`.
pub fn header_size() -> (n: usize)
    ensures
        n == spec_header_size(),
        n == 4 || n == 8,
{
    (usize::BITS / 8) as usize
}

/// Alignment of every block: twice the size of a `usize`.
pub fn alignment() -> (n: usize)
    ensures
        n == spec_alignment(),
        n == 2 * spec_header_size(),
{
    (usize::BITS / 4) as usize
}

/// Whether a block for `size` bytes and its header can be laid out.
pub fn fits(size: usize) -> (b: bool)
    ensures
        b == spec_fits(size),
{
    let limit: usize = (isize::MAX as usize) - (alignment() - 1) - header_size();
    size <= limit
}

/// Number of bytes of `nmemb` members of `size` bytes each, if a `usize`
/// holds it.
pub fn total_size(nmemb: usize, size: usize) -> (n: Option<usize>)
    ensures
        n == (if nmemb * size <= usize::MAX {
            Some((nmemb * size) as usize)
        } else {
            None
        }),
{
    nmemb.checked_mul(size)
}

/// The layout of a block that holds the header and `size` bytes after it.
pub fn layout_with_header(size: usize) -> (l: BlockLayout)
    requires
        spec_fits(size),
    ensures
        l.size == spec_header_size() + size,
        l.align == spec_alignment(),
{
    BlockLayout { size: header_size() + size, align: alignment() }
}

} // verus!
