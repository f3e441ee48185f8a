//! Painting the free part of the stack with a known value.
use core::ops::Range;
use vstd::prelude::*;

use crate::bounds::{valid_stack, word_address, word_count};
use crate::usage::{current_words_below, lemma_words_below, words_below};
use crate::STACK_PAINT_VALUE;

verus! {

/// The stack memory after painting with the stack pointer at `sp`: every word
/// whose address lies below `sp` holds the paint value, every other word is
/// as it was.
pub open spec fn painted(stack: Range<u32>, words: Seq<u32>, sp: u32) -> Seq<u32> {
    Seq::new(
        words.len(),
        |i: int|
            if word_address(stack, i) < sp {
                STACK_PAINT_VALUE
            } else {
                words[i]
            },
    )
}

/// Paint the part of the stack that is currently not in use: every word from
/// `end` up to, but not including, the stack pointer `sp`.
///
/// **Note:** this can take some time, and an interrupt could possibly dirty up
/// the freshly painted stack. Callers who need an accurate measurement paint
/// inside a critical section.
///
/// Runs in *O(n)* where *n* is the size of the stack. Every free word is
/// written, also those that still hold [`STACK_PAINT_VALUE`].
pub fn repaint_stack(stack: &Range<u32>, words: &mut [u32], sp: u32)
    requires
        valid_stack(*stack),
        old(words)@.len() == word_count(*stack),
    ensures
        final(words)@ == painted(*stack, old(words)@, sp),
{
    let n = current_words_below(stack, sp);
    let mut i: usize = 0;
    while i < n
        invariant
            n == words_below(*stack, sp),
            n <= words@.len() == old(words)@.len() == word_count(*stack),
            i <= n,
            forall|j: int| 0 <= j < i ==> words@[j] == STACK_PAINT_VALUE,
            forall|j: int| i <= j < words@.len() ==> words@[j] == old(words)@[j],
        decreases n - i,
    {
        words[i] = STACK_PAINT_VALUE;
        i = i + 1;
    }
    proof {
        assert forall|j: int| 0 <= j < words@.len() implies words@[j] == painted(
            *stack,
            old(words)@,
            sp,
        )[j] by {
            lemma_words_below(*stack, sp, j);
        }
        assert(words@ =~= painted(*stack, old(words)@, sp));
    }
}

/// Painting twice with the stack pointer at the same place leaves the memory
/// as painting once does.
pub proof fn lemma_repaint_idempotent(stack: Range<u32>, words: Seq<u32>, sp: u32)
    ensures
        painted(stack, painted(stack, words, sp), sp) == painted(stack, words, sp),
{
    assert(painted(stack, painted(stack, words, sp), sp) =~= painted(stack, words, sp));
}

/// With the stack pointer at or below the end of the region, painting writes
/// nothing and no word lies below the stack pointer for a scan to read.
pub proof fn lemma_overflow_paints_nothing(stack: Range<u32>, words: Seq<u32>, sp: u32)
    requires
        valid_stack(stack),
        sp <= stack.end,
    ensures
        painted(stack, words, sp) == words,
        words_below(stack, sp) == 0,
{
    assert(painted(stack, words, sp) =~= words);
}

} // verus!
