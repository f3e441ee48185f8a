//! Introspection of a single descending call stack: its bounds, how much of it
//! is in use, and a paint-and-scan measurement of its high-water mark.
//!
//! Addresses are plain `u32` values. The stack memory is handed to the
//! painting and scanning routines as a slice of words, where word `i` sits at
//! address `end + 4 * i` of the region.
use vstd::prelude::*;

pub mod bounds;
pub mod usage;
pub mod paint;
pub mod scan;

pub use bounds::{stack, stack_rev, stack_size};
pub use usage::{current_stack_free, current_stack_in_use};
pub use paint::repaint_stack;
pub use scan::{stack_painted, stack_painted_binary};

verus! {

/// The value used to paint the stack.
pub const STACK_PAINT_VALUE: u32 = 0xCCCC_CCCC;

} // verus!
