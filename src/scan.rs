//! Measuring the high-water mark: the length of the unbroken run of paint
//! words at the low end of the stack.
use core::ops::Range;
use vstd::prelude::*;

use crate::bounds::{valid_stack, word_address, word_count};
use crate::usage::{
    current_stack_free, current_words_below, free_bytes, free_words, lemma_free_words,
    lemma_words_below, words_below,
};
use crate::STACK_PAINT_VALUE;

verus! {

/// The number of leading words among the first `n` that still hold the paint
/// value.
pub open spec fn painted_prefix(words: Seq<u32>, n: int) -> nat
    decreases n,
{
    if n <= 0 {
        0
    } else if painted_prefix(words, n - 1) == n - 1 && words[n - 1] == STACK_PAINT_VALUE {
        n as nat
    } else {
        painted_prefix(words, n - 1)
    }
}

/// The first `k` of the first `n` words hold the paint value, and the run
/// stops there: either at the `n`-th word or at a word that does not.
pub open spec fn is_painted_run(words: Seq<u32>, n: int, k: int) -> bool {
    &&& 0 <= k <= n
    &&& forall|i: int| 0 <= i < k ==> words[i] == STACK_PAINT_VALUE
    &&& k < n ==> words[k] != STACK_PAINT_VALUE
}

/// Among the first `n` words, no painted word lies above an overwritten one:
/// the stack was written contiguously downwards.
pub open spec fn is_contiguous(words: Seq<u32>, n: int) -> bool {
    forall|i: int, j: int|
        0 <= i < j < n && words[j] == STACK_PAINT_VALUE ==> words[i] == STACK_PAINT_VALUE
}

/// The painted prefix is the one run that starts at the first word and stops
/// at the first overwritten word, or at the `n`-th.
pub proof fn lemma_painted_run(words: Seq<u32>, n: int, k: int)
    requires
        n <= words.len(),
        is_painted_run(words, n, k),
    ensures
        painted_prefix(words, n) == k,
    decreases n,
{
    if n > 0 {
        if k == n {
            lemma_painted_run(words, n - 1, n - 1);
        } else {
            lemma_painted_run(words, n - 1, k);
            if k == n - 1 {
                lemma_painted_run(words, n - 1, n - 1);
            }
        }
    }
}

/// When the first `k` words of the stack hold the paint value and the next one,
/// which lies below the stack pointer and inside the region, does not,
/// [`stack_painted`] returns `4 * k` bytes.
pub proof fn lemma_scan_stops_at_overwrite(stack: Range<u32>, words: Seq<u32>, sp: u32, k: int)
    requires
        valid_stack(stack),
        words.len() == word_count(stack),
        0 <= k < words.len(),
        forall|i: int| 0 <= i < k ==> words[i] == STACK_PAINT_VALUE,
        words[k] != STACK_PAINT_VALUE,
        word_address(stack, k + 1) <= sp,
    ensures
        4 * painted_prefix(words, words_below(stack, sp)) == 4 * k,
{
    lemma_words_below(stack, sp, k);
    lemma_painted_run(words, words_below(stack, sp), k);
}

/// When every word below a word-aligned stack pointer inside the region holds
/// the paint value, [`stack_painted`] returns all the free bytes: `sp - end`.
pub proof fn lemma_scan_fully_painted(stack: Range<u32>, words: Seq<u32>, sp: u32)
    requires
        valid_stack(stack),
        words.len() == word_count(stack),
        stack.end <= sp <= stack.start,
        sp % 4 == 0,
        forall|i: int|
            0 <= i < words.len() && word_address(stack, i) < sp ==> words[i]
                == STACK_PAINT_VALUE,
    ensures
        4 * painted_prefix(words, words_below(stack, sp)) == sp - stack.end,
{
    let n = words_below(stack, sp);
    assert forall|i: int| 0 <= i < n implies words[i] == STACK_PAINT_VALUE by {
        lemma_words_below(stack, sp, i);
    }
    lemma_painted_run(words, n, n);
}

/// Finds the number of bytes that have not been overwritten on the stack
/// since it was last painted: the worst-case free stack space since then.
///
/// `words` is the stack region, word `i` at address `stack.end + 4 * i`. The
/// scan runs upwards from `end` and stops at the first word that does not hold
/// the paint value, and never reads at or above the stack pointer `sp`.
///
/// Runs in *O(n)* where *n* is the size of the stack.
pub fn stack_painted(stack: &Range<u32>, words: &[u32], sp: u32) -> (r: u32)
    requires
        valid_stack(*stack),
        words@.len() == word_count(*stack),
    ensures
        r == 4 * painted_prefix(words@, words_below(*stack, sp)),
        r % 4 == 0,
{
    let n = current_words_below(stack, sp);
    let mut i: usize = 0;
    while i < n && words[i] == STACK_PAINT_VALUE
        invariant
            n == words_below(*stack, sp),
            n <= words@.len() == word_count(*stack),
            i <= n,
            forall|j: int| 0 <= j < i ==> words@[j] == STACK_PAINT_VALUE,
        decreases n - i,
    {
        i = i + 1;
    }
    proof {
        lemma_painted_run(words@, n as int, i as int);
    }
    i as u32 * 4
}

/// Finds the number of bytes that have not been overwritten on the stack
/// since it was last painted, by binary search, in *O(log(n))* where *n* is the
/// size of the stack.
///
/// The search runs over the whole words of the free stack, those that lie
/// entirely below the stack pointer `sp`, so the result never exceeds the free
/// bytes. It assumes that the stack was written contiguously downwards: writing
/// somewhere out of order into the painted stack is not detected, and a word of
/// the active stack that happens to hold the paint value may throw the result
/// off. Whatever the memory holds, the result lies on a boundary between a
/// painted word and an overwritten one (or an end of the searched words). When
/// the searched words are contiguous it is the length of their painted prefix,
/// and for a word-aligned `sp` that equals the result of [`stack_painted`].
pub fn stack_painted_binary(stack: &Range<u32>, words: &[u32], sp: u32) -> (r: u32)
    requires
        valid_stack(*stack),
        words@.len() == word_count(*stack),
    ensures
        r % 4 == 0,
        r <= free_bytes(*stack, sp),
        r / 4 <= free_words(*stack, sp),
        r / 4 > 0 ==> words@[r / 4 - 1] == STACK_PAINT_VALUE,
        r / 4 < free_words(*stack, sp) ==> words@[(r / 4) as int] != STACK_PAINT_VALUE,
        is_contiguous(words@, free_words(*stack, sp)) ==> r == 4 * painted_prefix(
            words@,
            free_words(*stack, sp),
        ),
        sp % 4 == 0 && is_contiguous(words@, words_below(*stack, sp)) ==> r == 4
            * painted_prefix(words@, words_below(*stack, sp)),
{
    let n = (current_stack_free(stack, sp) / 4) as usize;
    proof {
        lemma_free_words(*stack, sp);
    }
    let mut lo: usize = 0;
    let mut hi: usize = n;
    while lo < hi
        invariant
            n == free_words(*stack, sp),
            n <= words@.len() == word_count(*stack),
            lo <= hi <= n,
            lo > 0 ==> words@[lo - 1] == STACK_PAINT_VALUE,
            hi < n ==> words@[hi as int] != STACK_PAINT_VALUE,
            is_contiguous(words@, n as int) ==> forall|j: int|
                0 <= j < lo ==> words@[j] == STACK_PAINT_VALUE,
        decreases hi - lo,
    {
        let mid = lo + (hi - lo) / 2;
        if words[mid] == STACK_PAINT_VALUE {
            lo = mid + 1;
        } else {
            hi = mid;
        }
    }
    proof {
        if is_contiguous(words@, n as int) {
            lemma_painted_run(words@, n as int, lo as int);
        }
    }
    lo as u32 * 4
}

} // verus!
