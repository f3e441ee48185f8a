//! The address range reserved for the stack.
use core::ops::Range;
use vstd::prelude::*;

verus! {

/// A stack region as the linker lays it out: `start` is the highest address
/// (the initial stack pointer, exclusive), `end` the lowest address the stack
/// may reach. Both are word aligned and the stack grows from `start` down to
/// `end`.
pub open spec fn valid_stack(stack: Range<u32>) -> bool {
    &&& stack.end <= stack.start
    &&& stack.start % 4 == 0
    &&& stack.end % 4 == 0
}

/// The number of bytes reserved for the stack.
pub open spec fn size_bytes(stack: Range<u32>) -> int {
    stack.start - stack.end
}

/// The number of 32-bit words in the stack region.
pub open spec fn word_count(stack: Range<u32>) -> int {
    size_bytes(stack) / 4
}

/// The address of the `i`-th word of the region, counted upwards from `end`.
pub open spec fn word_address(stack: Range<u32>, i: int) -> int {
    stack.end + 4 * i
}

/// The stack range from its two delimiting addresses: `start` is where the
/// stack starts (its highest address), `end` where it ends.
///
/// The range is written in the stack's own direction, so `start >= end` and
/// the range is empty as a forward range; see [`stack_rev`].
pub fn stack(start: u32, end: u32) -> (r: Range<u32>)
    ensures
        r.start == start,
        r.end == end,
{
    start..end
}

/// The stack range written forwards, from its lowest to its highest address.
pub fn stack_rev(stack: &Range<u32>) -> (r: Range<u32>)
    ensures
        r.start == stack.end,
        r.end == stack.start,
{
    stack.end..stack.start
}

/// The number of bytes that are reserved for the stack.
pub fn stack_size(stack: &Range<u32>) -> (r: u32)
    requires
        valid_stack(*stack),
    ensures
        r == size_bytes(*stack),
        r % 4 == 0,
{
    stack.start - stack.end
}

} // verus!
