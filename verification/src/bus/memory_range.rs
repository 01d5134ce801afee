//! Inclusive ranges of bus addresses, packed into one word.

use vstd::prelude::*;

verus! {

/// An inclusive address range: the first address in the upper 16 bits, the
/// last address in the lower 16 bits.
pub type MemoryRange = u32;

/// The first address of `range`.
pub open spec fn spec_range_start(range: MemoryRange) -> u16 {
    (range / 0x1_0000) as u16
}

/// The last address of `range`.
pub open spec fn spec_range_end(range: MemoryRange) -> u16 {
    (range % 0x1_0000) as u16
}

/// Whether `address` lies between the bounds of `range`, both included.
pub open spec fn spec_in_range(range: MemoryRange, address: u16) -> bool {
    spec_range_start(range) <= address <= spec_range_end(range)
}

/// The number of addresses in `range`; zero when its bounds are reversed.
pub open spec fn spec_range_size(range: MemoryRange) -> nat {
    if spec_range_start(range) <= spec_range_end(range) {
        (spec_range_end(range) - spec_range_start(range) + 1) as nat
    } else {
        0
    }
}

/// Packs the bounds of an inclusive range.
pub fn make_range(start: u16, end: u16) -> (range: MemoryRange)
    ensures
        range == start * 0x1_0000 + end,
        spec_range_start(range) == start,
        spec_range_end(range) == end,
{
    (start as u32) * 0x1_0000 + (end as u32)
}

/// Returns the first address of `range`.
#[verifier::when_used_as_spec(spec_range_start)]
pub fn range_start(range: MemoryRange) -> (start: u16)
    ensures
        start == spec_range_start(range),
{
    (range / 0x1_0000) as u16
}

/// Returns the last address of `range`.
#[verifier::when_used_as_spec(spec_range_end)]
pub fn range_end(range: MemoryRange) -> (end: u16)
    ensures
        end == spec_range_end(range),
{
    (range % 0x1_0000) as u16
}

/// Returns the number of addresses in `range`.
pub fn range_size(range: MemoryRange) -> (size: usize)
    ensures
        size == spec_range_size(range),
{
    let start = range_start(range);
    let end = range_end(range);
    if start <= end {
        (end - start) as usize + 1
    } else {
        0
    }
}

/// Tells whether `address` belongs to `range`.
#[verifier::when_used_as_spec(spec_in_range)]
pub fn in_range(range: MemoryRange, address: u16) -> (inside: bool)
    ensures
        inside == spec_in_range(range, address),
{
    range_start(range) <= address && address <= range_end(range)
}

/// The offset of `address` from the start of `range`.
pub fn range_offset(range: MemoryRange, address: u16) -> (offset: usize)
    requires
        spec_in_range(range, address),
    ensures
        offset == address - spec_range_start(range),
        offset < spec_range_size(range),
{
    (address - range_start(range)) as usize
}

/// The bounds of the range `S`, for code that knows the range when it is
/// compiled.
pub trait MemoryBounds<const S: u32> {
    /// Returns the first address of the range.
    fn start() -> (start: u16)
        ensures
            start == spec_range_start(S),
    ;

    /// Returns the last address of the range.
    fn end() -> (end: u16)
        ensures
            end == spec_range_end(S),
    ;
}

impl<const S: u32> MemoryBounds<S> for () {
    fn start() -> (start: u16) {
        range_start(S)
    }

    fn end() -> (end: u16) {
        range_end(S)
    }
}

/// Membership is exactly the pair of comparisons with the packed bounds.
pub proof fn lemma_in_range_of_bounds(start: u16, end: u16, address: u16)
    ensures
        spec_in_range((start * 0x1_0000 + end) as u32, address) <==> start <= address <= end,
{
}

} // verus!
