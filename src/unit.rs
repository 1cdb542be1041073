//! The fixed-width unsigned integers whose natural alignment gives a block
//! its alignment.

use vstd::prelude::*;

verus! {

/// True of the alignments this crate can serve: 1, 2, 4 and 8 bytes.
pub open spec fn supported_align(align: int) -> bool {
    align == 1 || align == 2 || align == 4 || align == 8
}

/// The element type of the buffer that backs a block: `u8`, `u16`, `u32` or
/// `u64`. Each is as wide as its natural alignment.
#[derive(Clone, Copy, Debug, PartialEq, Eq)]
pub enum Unit {
    Byte,
    Half,
    Word,
    Double,
}

impl Unit {
    /// Width in bytes, which is also the unit's alignment.
    pub open spec fn spec_width(self) -> nat {
        match self {
            Unit::Byte => 1,
            Unit::Half => 2,
            Unit::Word => 4,
            Unit::Double => 8,
        }
    }

    /// Base-2 logarithm of the width.
    pub open spec fn spec_shift(self) -> nat {
        match self {
            Unit::Byte => 0,
            Unit::Half => 1,
            Unit::Word => 2,
            Unit::Double => 3,
        }
    }

    /// The unit whose width is `align`; meaningful for supported alignments.
    pub open spec fn spec_for_align(align: int) -> Unit {
        if align == 1 {
            Unit::Byte
        } else if align == 2 {
            Unit::Half
        } else if align == 4 {
            Unit::Word
        } else {
            Unit::Double
        }
    }

    pub fn width(&self) -> (r: usize)
        ensures
            r == self.spec_width(),
    {
        match self {
            Unit::Byte => 1,
            Unit::Half => 2,
            Unit::Word => 4,
            Unit::Double => 8,
        }
    }

    pub fn shift(&self) -> (r: u32)
        ensures
            r == self.spec_shift(),
            r < 4,
    {
        match self {
            Unit::Byte => 0,
            Unit::Half => 1,
            Unit::Word => 2,
            Unit::Double => 3,
        }
    }

    /// The unit for `align`, or `None` when no unit is that wide.
    pub fn for_align(align: usize) -> (r: Option<Unit>)
        ensures
            r is Some <==> supported_align(align as int),
            r matches Some(u) ==> u == Unit::spec_for_align(align as int) && u.spec_width()
                == align,
    {
        match align {
            1 => Some(Unit::Byte),
            2 => Some(Unit::Half),
            4 => Some(Unit::Word),
            8 => Some(Unit::Double),
            _ => None,
        }
    }

    /// How many whole units fit in `bytes`, computed by a right shift.
    pub fn units_in(&self, bytes: usize) -> (r: usize)
        ensures
            r == bytes as int / self.spec_width() as int,
    {
        let s = self.shift();
        let r = bytes >> s;
        proof {
            match self {
                Unit::Byte => {
                    assert(bytes >> 0u32 == bytes / 1) by (bit_vector);
                },
                Unit::Half => {
                    assert(bytes >> 1u32 == bytes / 2) by (bit_vector);
                },
                Unit::Word => {
                    assert(bytes >> 2u32 == bytes / 4) by (bit_vector);
                },
                Unit::Double => {
                    assert(bytes >> 3u32 == bytes / 8) by (bit_vector);
                },
            }
        }
        r
    }
}

} // verus!
