//! How much of the stack is in use and how much is free, for a sampled
//! stack pointer.
use core::ops::Range;
use vstd::prelude::*;

use crate::bounds::{size_bytes, stack_size, valid_stack, word_address, word_count};

verus! {

/// The stack pointer brought into the region: an overflowed stack (`sp` below
/// `end`) counts as full, an underflowed one (`sp` above `start`) as empty.
pub open spec fn clamped_sp(stack: Range<u32>, sp: u32) -> int {
    if sp < stack.end {
        stack.end as int
    } else if sp > stack.start {
        stack.start as int
    } else {
        sp as int
    }
}

/// Bytes in use: from the top of the stack down to the stack pointer.
pub open spec fn in_use_bytes(stack: Range<u32>, sp: u32) -> int {
    stack.start - clamped_sp(stack, sp)
}

/// Bytes free: from the stack pointer down to the end of the region.
pub open spec fn free_bytes(stack: Range<u32>, sp: u32) -> int {
    clamped_sp(stack, sp) - stack.end
}

fn clamp_sp(stack: &Range<u32>, sp: u32) -> (r: u32)
    requires
        valid_stack(*stack),
    ensures
        r == clamped_sp(*stack, sp),
{
    if sp < stack.end {
        stack.end
    } else if sp > stack.start {
        stack.start
    } else {
        sp
    }
}

/// The number of bytes of the stack in use for the stack pointer `sp`.
///
/// This is `start - sp`; a stack pointer past either end of the region counts
/// as sitting on that end, so the result never exceeds the stack's size.
pub fn current_stack_in_use(stack: &Range<u32>, sp: u32) -> (r: u32)
    requires
        valid_stack(*stack),
    ensures
        r == in_use_bytes(*stack, sp),
{
    stack.start - clamp_sp(stack, sp)
}

/// The number of bytes of the stack that are free for the stack pointer `sp`.
///
/// If the stack has overflowed, this is 0.
pub fn current_stack_free(stack: &Range<u32>, sp: u32) -> (r: u32)
    requires
        valid_stack(*stack),
    ensures
        r == free_bytes(*stack, sp),
        r == size_bytes(*stack) - in_use_bytes(*stack, sp),
{
    stack_size(stack).saturating_sub(current_stack_in_use(stack, sp))
}

/// The number of words of the region whose address lies below the stack
/// pointer: the words that painting overwrites and scanning may read.
pub open spec fn words_below(stack: Range<u32>, sp: u32) -> int {
    (free_bytes(stack, sp) + 3) / 4
}

/// The number of whole words of the region below the stack pointer: those
/// that lie entirely in the free bytes.
pub open spec fn free_words(stack: Range<u32>, sp: u32) -> int {
    free_bytes(stack, sp) / 4
}

/// The whole free words are among the words below the stack pointer, and with
/// a word-aligned stack pointer they are all of them.
pub proof fn lemma_free_words(stack: Range<u32>, sp: u32)
    requires
        valid_stack(stack),
    ensures
        0 <= free_words(stack, sp) <= words_below(stack, sp) <= word_count(stack),
        4 * free_words(stack, sp) <= free_bytes(stack, sp),
        sp % 4 == 0 ==> free_words(stack, sp) == words_below(stack, sp),
{
}

/// A word of the region lies below the stack pointer exactly when its index is
/// under [`words_below`].
pub proof fn lemma_words_below(stack: Range<u32>, sp: u32, i: int)
    requires
        valid_stack(stack),
        0 <= i < word_count(stack),
    ensures
        0 <= words_below(stack, sp) <= word_count(stack),
        i < words_below(stack, sp) <==> word_address(stack, i) < sp,
{
}

/// The number of words of the region below the stack pointer `sp`.
pub(crate) fn current_words_below(stack: &Range<u32>, sp: u32) -> (r: usize)
    requires
        valid_stack(*stack),
    ensures
        r == words_below(*stack, sp),
        r <= word_count(*stack),
{
    let free = current_stack_free(stack, sp);
    let whole = free / 4;
    if free % 4 == 0 {
        whole as usize
    } else {
        whole as usize + 1
    }
}

/// For a stack pointer inside the region, the bytes in use and the bytes free
/// add up to the stack's size, and the bytes in use are `start - sp`.
pub proof fn lemma_accounting_identity(stack: Range<u32>, sp: u32)
    requires
        valid_stack(stack),
        stack.end <= sp <= stack.start,
    ensures
        in_use_bytes(stack, sp) + free_bytes(stack, sp) == size_bytes(stack),
        in_use_bytes(stack, sp) == stack.start - sp,
{
}

/// Once the stack pointer reaches or passes the end of the region, nothing is
/// free and the whole stack counts as in use: the counts saturate rather than
/// wrap.
pub proof fn lemma_overflow_saturates(stack: Range<u32>, sp: u32)
    requires
        valid_stack(stack),
        sp <= stack.end,
    ensures
        free_bytes(stack, sp) == 0,
        in_use_bytes(stack, sp) == size_bytes(stack),
{
}

/// With a word-aligned stack pointer every byte count is a whole number of
/// words.
pub proof fn lemma_counts_word_aligned(stack: Range<u32>, sp: u32)
    requires
        valid_stack(stack),
        sp % 4 == 0,
    ensures
        size_bytes(stack) % 4 == 0,
        in_use_bytes(stack, sp) % 4 == 0,
        free_bytes(stack, sp) % 4 == 0,
{
}

} // verus!
