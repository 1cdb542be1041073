//! Properties that hold across the planning functions.

use vstd::prelude::*;

use crate::plan::{allocation_plan, release_plan, LayoutError, Plan};
use crate::unit::supported_align;

verus! {

/// For every supported alignment and every size that is a multiple of it,
/// the allocation is served by a buffer whose units are exactly `align`
/// bytes wide and which spans exactly `size` bytes. The platform allocator
/// aligns a buffer to the width of its units, so its base is a multiple of
/// `align`.
pub proof fn lemma_allocation_aligned(size: usize, align: usize)
    requires
        supported_align(align as int),
        size % align == 0,
    ensures
        allocation_plan(size as int, align as int) matches Ok(p) && p.unit.spec_width() == align
            && p.spec_bytes() == size,
{
    let p = allocation_plan(size as int, align as int)->Ok_0;
    assert(p.spec_bytes() == size) by (nonlinear_arith)
        requires
            p.spec_bytes() == p.count * align,
            p.count == size / align,
            size % align == 0,
            align > 0,
    ;
}

/// Releasing a block with the size and alignment it was allocated with
/// rebuilds the very buffer the allocation made: same unit, same count.
pub proof fn lemma_release_matches_allocation(size: usize, align: usize)
    requires
        allocation_plan(size as int, align as int) is Ok,
    ensures
        release_plan(size as int, align as int) == allocation_plan(size as int, align as int),
{
}

/// An alignment other than 1, 2, 4 or 8 is refused both when allocating and
/// when releasing, whatever the size.
pub proof fn lemma_unsupported_alignment_refused(size: usize, align: usize)
    requires
        !supported_align(align as int),
    ensures
        allocation_plan(size as int, align as int) == Err::<Plan, LayoutError>(
            LayoutError::UnsupportedAlignment,
        ),
        release_plan(size as int, align as int) == Err::<Plan, LayoutError>(
            LayoutError::UnsupportedAlignment,
        ),
{
}

} // verus!
