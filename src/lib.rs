//! Alignment-aware raw allocation, planned and checked.
//!
//! A block of `size` bytes aligned to `align` is obtained as a buffer of
//! `size / align` units whose natural alignment is `align`; the platform
//! allocator aligns such a buffer to its unit. This crate decides which unit
//! and how many of them a request or a release stands for, and rejects the
//! alignments it has no unit for. The caller owns the raw memory and must
//! remember `size` and `align` until it hands the block back.

use vstd::prelude::*;

pub mod laws;
pub mod plan;
pub mod unit;

verus! {

/// The address that stands for every zero-size block: not null, and never
/// backed by storage. It must not be written through nor released.
pub const EMPTY: usize = 1;

} // verus!
