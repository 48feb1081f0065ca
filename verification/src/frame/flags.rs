//! Diagnostic projection of queued paint work: which categories carry work.

use vstd::prelude::*;

verus! {

/// Which work categories a pending-work snapshot carries, as a 4-bit set:
/// view `0b0001`, content `0b0010`, geometry `0b0100`, overlay `0b1000`.
/// The bit values are pinned to the recorder's work-byte layout. Every one
/// of the sixteen subsets is its own variant.
#[derive(Clone, Copy, Debug, Default, PartialEq, Eq, Structural)]
pub enum WorkFlags {
    #[default]
    Empty,
    View,
    Content,
    ViewContent,
    Geometry,
    ViewGeometry,
    ContentGeometry,
    ViewContentGeometry,
    Overlay,
    ViewOverlay,
    ContentOverlay,
    ViewContentOverlay,
    GeometryOverlay,
    ViewGeometryOverlay,
    ContentGeometryOverlay,
    All,
}

/// Bit set of `f`.
pub open spec fn flag_bits(f: WorkFlags) -> u8 {
    match f {
        WorkFlags::Empty => 0,
        WorkFlags::View => 1,
        WorkFlags::Content => 2,
        WorkFlags::ViewContent => 3,
        WorkFlags::Geometry => 4,
        WorkFlags::ViewGeometry => 5,
        WorkFlags::ContentGeometry => 6,
        WorkFlags::ViewContentGeometry => 7,
        WorkFlags::Overlay => 8,
        WorkFlags::ViewOverlay => 9,
        WorkFlags::ContentOverlay => 10,
        WorkFlags::ViewContentOverlay => 11,
        WorkFlags::GeometryOverlay => 12,
        WorkFlags::ViewGeometryOverlay => 13,
        WorkFlags::ContentGeometryOverlay => 14,
        WorkFlags::All => 15,
    }
}

/// Flags with bit set `b & 15`.
pub open spec fn flags_of_bits(b: u8) -> WorkFlags {
    let b = b & 15;
    if b == 0 {
        WorkFlags::Empty
    } else
    if b == 1 {
        WorkFlags::View
    } else
    if b == 2 {
        WorkFlags::Content
    } else
    if b == 3 {
        WorkFlags::ViewContent
    } else
    if b == 4 {
        WorkFlags::Geometry
    } else
    if b == 5 {
        WorkFlags::ViewGeometry
    } else
    if b == 6 {
        WorkFlags::ContentGeometry
    } else
    if b == 7 {
        WorkFlags::ViewContentGeometry
    } else
    if b == 8 {
        WorkFlags::Overlay
    } else
    if b == 9 {
        WorkFlags::ViewOverlay
    } else
    if b == 10 {
        WorkFlags::ContentOverlay
    } else
    if b == 11 {
        WorkFlags::ViewContentOverlay
    } else
    if b == 12 {
        WorkFlags::GeometryOverlay
    } else
    if b == 13 {
        WorkFlags::ViewGeometryOverlay
    } else
    if b == 14 {
        WorkFlags::ContentGeometryOverlay
    } else
 {
        WorkFlags::All
    }
}

impl WorkFlags {
    pub const EMPTY: WorkFlags = WorkFlags::Empty;
    pub const VIEW: WorkFlags = WorkFlags::View;
    pub const CONTENT: WorkFlags = WorkFlags::Content;
    pub const GEOMETRY: WorkFlags = WorkFlags::Geometry;
    pub const OVERLAY: WorkFlags = WorkFlags::Overlay;

    /// The raw bit set.
    pub fn bits(self) -> (b: u8)
        ensures
            b == flag_bits(self),
            b < 16,
    {
        match self {
        WorkFlags::Empty => 0,
        WorkFlags::View => 1,
        WorkFlags::Content => 2,
        WorkFlags::ViewContent => 3,
        WorkFlags::Geometry => 4,
        WorkFlags::ViewGeometry => 5,
        WorkFlags::ContentGeometry => 6,
        WorkFlags::ViewContentGeometry => 7,
        WorkFlags::Overlay => 8,
        WorkFlags::ViewOverlay => 9,
        WorkFlags::ContentOverlay => 10,
        WorkFlags::ViewContentOverlay => 11,
        WorkFlags::GeometryOverlay => 12,
        WorkFlags::ViewGeometryOverlay => 13,
        WorkFlags::ContentGeometryOverlay => 14,
        WorkFlags::All => 15,
        }
    }

    /// Flags from a raw bit set; bits above the four category bits are
    /// ignored.
    pub fn from_bits_truncate(raw: u8) -> (f: Self)
        ensures
            f == flags_of_bits(raw),
            flag_bits(f) == raw & 15,
    {
        let b = raw & 15;
        assert(b < 16 && b & 15 == b) by (bit_vector)
            requires b == (raw & 15);
        if b == 0 {
            WorkFlags::Empty
        } else
        if b == 1 {
            WorkFlags::View
        } else
        if b == 2 {
            WorkFlags::Content
        } else
        if b == 3 {
            WorkFlags::ViewContent
        } else
        if b == 4 {
            WorkFlags::Geometry
        } else
        if b == 5 {
            WorkFlags::ViewGeometry
        } else
        if b == 6 {
            WorkFlags::ContentGeometry
        } else
        if b == 7 {
            WorkFlags::ViewContentGeometry
        } else
        if b == 8 {
            WorkFlags::Overlay
        } else
        if b == 9 {
            WorkFlags::ViewOverlay
        } else
        if b == 10 {
            WorkFlags::ContentOverlay
        } else
        if b == 11 {
            WorkFlags::ViewContentOverlay
        } else
        if b == 12 {
            WorkFlags::GeometryOverlay
        } else
        if b == 13 {
            WorkFlags::ViewGeometryOverlay
        } else
        if b == 14 {
            WorkFlags::ContentGeometryOverlay
        } else
 {
            WorkFlags::All
        }
    }

    /// Union of two flag sets.
    pub fn union(self, other: Self) -> (f: Self)
        ensures
            f == flags_of_bits(flag_bits(self) | flag_bits(other)),
    {
        Self::from_bits_truncate(self.bits() | other.bits())
    }

    /// Whether every flag of `other` is set in `self`.
    pub fn contains(self, other: Self) -> (b: bool)
        ensures
            b == (flag_bits(self) & flag_bits(other) == flag_bits(other)),
    {
        self.bits() & other.bits() == other.bits()
    }

    /// Whether no flag is set.
    pub fn is_empty(self) -> (b: bool)
        ensures
            b == (self == WorkFlags::Empty),
    {
        match self {
            WorkFlags::Empty => true,
            _ => false,
        }
    }
}

} // verus!
