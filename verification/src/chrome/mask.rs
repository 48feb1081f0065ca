//! Set of frozen-pane quadrants.

use vstd::prelude::*;

use crate::chrome::pane_region::PaneRegion;

verus! {

/// Bit of `region` in a quadrant bit set (TL, TR, BL, BR = 1, 2, 4, 8).
pub open spec fn region_bit(region: PaneRegion) -> u8 {
    match region {
        PaneRegion::TopLeft => 1,
        PaneRegion::TopRight => 2,
        PaneRegion::BottomLeft => 4,
        PaneRegion::BottomRight => 8,
    }
}

/// A set of the four frozen-pane quadrants. Each of the sixteen subsets is
/// its own variant, so a mask is a plain value with no invalid states.
#[derive(Copy, Clone, Debug, PartialEq, Eq, Structural)]
pub enum PaneRegionMask {
    Empty,
    TopLeft,
    TopRight,
    /// Top-left and top-right: the frozen row band.
    Top,
    BottomLeft,
    /// Top-left and bottom-left: the frozen column band.
    Left,
    /// Top-right and bottom-left.
    AntiDiagonal,
    /// Every quadrant but bottom-right.
    AllButBottomRight,
    BottomRight,
    /// Top-left and bottom-right.
    Diagonal,
    /// Top-right and bottom-right: the scrolling column band.
    Right,
    /// Every quadrant but bottom-left.
    AllButBottomLeft,
    /// Bottom-left and bottom-right: the scrolling row band.
    Bottom,
    /// Every quadrant but top-right.
    AllButTopRight,
    /// Every quadrant but top-left.
    AllButTopLeft,
    All,
}

/// The mask's quadrant bit set, `0..=15`.
pub open spec fn mask_bits(m: PaneRegionMask) -> u8 {
    match m {
        PaneRegionMask::Empty => 0,
        PaneRegionMask::TopLeft => 1,
        PaneRegionMask::TopRight => 2,
        PaneRegionMask::Top => 3,
        PaneRegionMask::BottomLeft => 4,
        PaneRegionMask::Left => 5,
        PaneRegionMask::AntiDiagonal => 6,
        PaneRegionMask::AllButBottomRight => 7,
        PaneRegionMask::BottomRight => 8,
        PaneRegionMask::Diagonal => 9,
        PaneRegionMask::Right => 10,
        PaneRegionMask::AllButBottomLeft => 11,
        PaneRegionMask::Bottom => 12,
        PaneRegionMask::AllButTopRight => 13,
        PaneRegionMask::AllButTopLeft => 14,
        PaneRegionMask::All => 15,
    }
}

/// The mask holding exactly the quadrants of bit set `b` (taken mod 16).
pub open spec fn mask_of_bits(b: u8) -> PaneRegionMask {
    let b = b & 15;
    if b == 0 {
        PaneRegionMask::Empty
    } else if b == 1 {
        PaneRegionMask::TopLeft
    } else if b == 2 {
        PaneRegionMask::TopRight
    } else if b == 3 {
        PaneRegionMask::Top
    } else if b == 4 {
        PaneRegionMask::BottomLeft
    } else if b == 5 {
        PaneRegionMask::Left
    } else if b == 6 {
        PaneRegionMask::AntiDiagonal
    } else if b == 7 {
        PaneRegionMask::AllButBottomRight
    } else if b == 8 {
        PaneRegionMask::BottomRight
    } else if b == 9 {
        PaneRegionMask::Diagonal
    } else if b == 10 {
        PaneRegionMask::Right
    } else if b == 11 {
        PaneRegionMask::AllButBottomLeft
    } else if b == 12 {
        PaneRegionMask::Bottom
    } else if b == 13 {
        PaneRegionMask::AllButTopRight
    } else if b == 14 {
        PaneRegionMask::AllButTopLeft
    } else {
        PaneRegionMask::All
    }
}

/// Every mask is recovered from its bit set.
pub proof fn lemma_mask_bits_roundtrip(m: PaneRegionMask)
    ensures
        mask_of_bits(mask_bits(m)) == m,
        mask_bits(m) < 16,
{
    let b = mask_bits(m);
    assert(b < 16 ==> b & 15 == b) by (bit_vector);
}

/// Union of quadrant sets is commutative, associative and idempotent, and
/// the full set absorbs every other.
pub proof fn lemma_mask_union_laws(a: PaneRegionMask, b: PaneRegionMask, c: PaneRegionMask)
    ensures
        mask_of_bits(mask_bits(a) | mask_bits(b)) == mask_of_bits(mask_bits(b) | mask_bits(a)),
        mask_of_bits(mask_bits(a) | mask_bits(a)) == a,
        mask_of_bits(mask_bits(mask_of_bits(mask_bits(a) | mask_bits(b))) | mask_bits(c))
            == mask_of_bits(mask_bits(a) | mask_bits(mask_of_bits(mask_bits(b) | mask_bits(c)))),
        mask_of_bits(mask_bits(a) | 15) == PaneRegionMask::All,
        mask_of_bits(15 | mask_bits(a)) == PaneRegionMask::All,
{
    lemma_mask_bits_roundtrip(a);
    let x = mask_bits(a);
    let y = mask_bits(b);
    let z = mask_bits(c);
    assert(x | y == y | x) by (bit_vector);
    assert(x | x == x) by (bit_vector);
    let ab = mask_of_bits(x | y);
    let bc = mask_of_bits(y | z);
    assert(mask_bits(ab) == (x | y) & 15) by {
        assert((x | y) & 15 < 16) by (bit_vector);
    }
    assert(mask_bits(bc) == (y | z) & 15) by {
        assert((y | z) & 15 < 16) by (bit_vector);
    }
    assert((((x | y) & 15) | z) & 15 == (x | ((y | z) & 15)) & 15) by (bit_vector);
    assert((x | 15) & 15 == 15) by (bit_vector);
    assert((15 | x) & 15 == 15) by (bit_vector);
}

impl PaneRegionMask {
    pub const EMPTY: PaneRegionMask = PaneRegionMask::Empty;
    pub const TOP_LEFT: PaneRegionMask = PaneRegionMask::TopLeft;
    pub const TOP_RIGHT: PaneRegionMask = PaneRegionMask::TopRight;
    pub const BOTTOM_LEFT: PaneRegionMask = PaneRegionMask::BottomLeft;
    pub const BOTTOM_RIGHT: PaneRegionMask = PaneRegionMask::BottomRight;
    pub const ALL: PaneRegionMask = PaneRegionMask::All;

    /// Whether `region` is in the set.
    pub open spec fn has(self, region: PaneRegion) -> bool {
        mask_bits(self) & region_bit(region) != 0
    }

    /// The quadrant bit set (TL, TR, BL, BR = 1, 2, 4, 8).
    pub fn bits(self) -> (b: u8)
        ensures
            b == mask_bits(self),
            b < 16,
    {
        match self {
            PaneRegionMask::Empty => 0,
            PaneRegionMask::TopLeft => 1,
            PaneRegionMask::TopRight => 2,
            PaneRegionMask::Top => 3,
            PaneRegionMask::BottomLeft => 4,
            PaneRegionMask::Left => 5,
            PaneRegionMask::AntiDiagonal => 6,
            PaneRegionMask::AllButBottomRight => 7,
            PaneRegionMask::BottomRight => 8,
            PaneRegionMask::Diagonal => 9,
            PaneRegionMask::Right => 10,
            PaneRegionMask::AllButBottomLeft => 11,
            PaneRegionMask::Bottom => 12,
            PaneRegionMask::AllButTopRight => 13,
            PaneRegionMask::AllButTopLeft => 14,
            PaneRegionMask::All => 15,
        }
    }

    /// The mask holding the quadrants of bit set `b`; bits above the four
    /// quadrant bits are ignored.
    pub fn from_bits(b: u8) -> (m: Self)
        ensures
            m == mask_of_bits(b),
            mask_bits(m) == b & 15,
    {
        let raw = b;
        let b = raw & 15;
        assert(b < 16 && b & 15 == b) by (bit_vector)
            requires b == (raw & 15);
        if b == 0 {
            PaneRegionMask::Empty
        } else if b == 1 {
            PaneRegionMask::TopLeft
        } else if b == 2 {
            PaneRegionMask::TopRight
        } else if b == 3 {
            PaneRegionMask::Top
        } else if b == 4 {
            PaneRegionMask::BottomLeft
        } else if b == 5 {
            PaneRegionMask::Left
        } else if b == 6 {
            PaneRegionMask::AntiDiagonal
        } else if b == 7 {
            PaneRegionMask::AllButBottomRight
        } else if b == 8 {
            PaneRegionMask::BottomRight
        } else if b == 9 {
            PaneRegionMask::Diagonal
        } else if b == 10 {
            PaneRegionMask::Right
        } else if b == 11 {
            PaneRegionMask::AllButBottomLeft
        } else if b == 12 {
            PaneRegionMask::Bottom
        } else if b == 13 {
            PaneRegionMask::AllButTopRight
        } else if b == 14 {
            PaneRegionMask::AllButTopLeft
        } else {
            PaneRegionMask::All
        }
    }

    /// Whether no quadrant is in the set.
    pub fn is_empty(self) -> (b: bool)
        ensures
            b == (self == PaneRegionMask::Empty),
    {
        match self {
            PaneRegionMask::Empty => true,
            _ => false,
        }
    }

    /// Union of two quadrant sets.
    pub fn union(self, other: Self) -> (m: Self)
        ensures
            m == mask_of_bits(mask_bits(self) | mask_bits(other)),
    {
        Self::from_bits(self.bits() | other.bits())
    }

    /// This set with `region` added.
    pub fn with(self, region: PaneRegion) -> (m: Self)
        ensures
            m == mask_of_bits(mask_bits(self) | region_bit(region)),
    {
        let bit: u8 = match region {
            PaneRegion::TopLeft => 1,
            PaneRegion::TopRight => 2,
            PaneRegion::BottomLeft => 4,
            PaneRegion::BottomRight => 8,
        };
        Self::from_bits(self.bits() | bit)
    }

    /// Whether `region` is in the set.
    pub fn contains(self, region: PaneRegion) -> (b: bool)
        ensures
            b == self.has(region),
    {
        let bit: u8 = match region {
            PaneRegion::TopLeft => 1,
            PaneRegion::TopRight => 2,
            PaneRegion::BottomLeft => 4,
            PaneRegion::BottomRight => 8,
        };
        self.bits() & bit != 0
    }
}

} // verus!
