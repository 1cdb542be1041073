//! What an allocation or a release asks of the platform allocator: a buffer
//! of some number of units of one width.

use vstd::prelude::*;

use crate::unit::{supported_align, Unit};

verus! {

/// A typed buffer: `count` elements of `unit`.
#[derive(Clone, Copy, Debug, PartialEq, Eq)]
pub struct Plan {
    pub unit: Unit,
    pub count: usize,
}

impl Plan {
    /// The bytes the buffer spans.
    pub open spec fn spec_bytes(self) -> int {
        self.count * self.unit.spec_width()
    }
}

/// Why a size and an alignment cannot be served.
#[derive(Clone, Copy, Debug, PartialEq, Eq)]
pub enum LayoutError {
    /// The alignment is not 1, 2, 4 or 8.
    UnsupportedAlignment,
    /// The size is not a multiple of the alignment.
    SizeNotMultiple,
}

/// The buffer that serves `size` bytes aligned to `align`.
pub open spec fn allocation_plan(size: int, align: int) -> Result<Plan, LayoutError>
    recommends
        0 <= size <= usize::MAX,
{
    if !supported_align(align) {
        Err(LayoutError::UnsupportedAlignment)
    } else if size % align != 0 {
        Err(LayoutError::SizeNotMultiple)
    } else {
        Ok(Plan { unit: Unit::spec_for_align(align), count: (size / align) as usize })
    }
}

/// The buffer that a block of `old_size` bytes aligned to `align` is handed
/// back as: whole units of the alignment's width.
pub open spec fn release_plan(old_size: int, align: int) -> Result<Plan, LayoutError>
    recommends
        0 <= old_size <= usize::MAX,
{
    if !supported_align(align) {
        Err(LayoutError::UnsupportedAlignment)
    } else {
        Ok(Plan { unit: Unit::spec_for_align(align), count: (old_size / align) as usize })
    }
}

/// Whole units of `w` bytes in `bytes` span no more than `bytes`, and exactly
/// `bytes` when `w` divides it.
proof fn lemma_whole_units(bytes: int, w: int)
    requires
        0 <= bytes,
        0 < w,
    ensures
        (bytes / w) * w <= bytes,
        bytes % w == 0 ==> (bytes / w) * w == bytes,
{
    vstd::arithmetic::div_mod::lemma_fundamental_div_mod(bytes, w);
    vstd::arithmetic::div_mod::lemma_mod_pos_bound(bytes, w);
    vstd::arithmetic::mul::lemma_mul_is_commutative(w, bytes / w);
}

/// Plans an allocation of `size` bytes aligned to `align`.
///
/// Fails with `UnsupportedAlignment` when `align` is not 1, 2, 4 or 8, and
/// otherwise with `SizeNotMultiple` when `size` is not a multiple of `align`.
/// On success the buffer's units are `align` bytes wide and span exactly
/// `size` bytes.
pub fn plan_allocate(size: usize, align: usize) -> (r: Result<Plan, LayoutError>)
    ensures
        r == allocation_plan(size as int, align as int),
        r matches Ok(p) ==> p.unit.spec_width() == align && p.spec_bytes() == size,
{
    match Unit::for_align(align) {
        None => Err(LayoutError::UnsupportedAlignment),
        Some(unit) => {
            if size % align != 0 {
                Err(LayoutError::SizeNotMultiple)
            } else {
                let count = unit.units_in(size);
                proof {
                    lemma_whole_units(size as int, align as int);
                }
                Ok(Plan { unit, count })
            }
        },
    }
}

/// Plans the release of a block of `old_size` bytes that was allocated with
/// alignment `align`.
///
/// Fails with `UnsupportedAlignment` when `align` is not 1, 2, 4 or 8. The
/// size is not checked: it is counted in whole units of `align` bytes.
pub fn plan_deallocate(old_size: usize, align: usize) -> (r: Result<Plan, LayoutError>)
    ensures
        r == release_plan(old_size as int, align as int),
        r matches Ok(p) ==> p.unit.spec_width() == align && p.spec_bytes() <= old_size,
{
    match Unit::for_align(align) {
        None => Err(LayoutError::UnsupportedAlignment),
        Some(unit) => {
            let count = unit.units_in(old_size);
            proof {
                lemma_whole_units(old_size as int, align as int);
            }
            Ok(Plan { unit, count })
        },
    }
}

} // verus!
