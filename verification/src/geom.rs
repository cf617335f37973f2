//! Axis-aligned rectangles over document coordinates.
//!
//! A coordinate is carried as the bit pattern of a double-precision
//! value. Ordering two coordinates goes through a key that embeds the
//! bit patterns into `u64` monotonically: for bit patterns of finite
//! values and infinities the key order agrees with the numeric order
//! (negative values have their bits complemented, which reverses
//! their descending bit layout; positive values are shifted above
//! them by the sign bit). A NaN pattern, which geometry computation
//! never hands in, orders beyond the infinity of its sign.

use vstd::prelude::*;

verus! {

/// Sign bit of a double-precision bit pattern.
pub const COORD_SIGN_BIT: u64 = 0x8000_0000_0000_0000;

/// One coordinate, as the bit pattern of a double-precision value.
#[derive(Clone, Copy, PartialEq, Eq, Structural, Debug)]
pub struct Coord {
    pub bits: u64,
}

impl Coord {
    /// Order-preserving embedding of the bit pattern into `u64`.
    pub open spec fn key(self) -> u64 {
        if self.bits & COORD_SIGN_BIT != 0 {
            !self.bits
        } else {
            self.bits | COORD_SIGN_BIT
        }
    }

    /// Coordinate order: the order of the keys.
    pub open spec fn le(self, other: Coord) -> bool {
        self.key() <= other.key()
    }

    fn key_exec(self) -> (k: u64)
        ensures
            k == self.key(),
    {
        if self.bits & COORD_SIGN_BIT != 0 {
            !self.bits
        } else {
            self.bits | COORD_SIGN_BIT
        }
    }

    /// Decides the coordinate order.
    pub fn le_exec(self, other: Coord) -> (r: bool)
        ensures
            r == self.le(other),
    {
        self.key_exec() <= other.key_exec()
    }

    /// The smaller of two coordinates.
    pub open spec fn spec_min(self, other: Coord) -> Coord {
        if self.le(other) {
            self
        } else {
            other
        }
    }

    /// The larger of two coordinates.
    pub open spec fn spec_max(self, other: Coord) -> Coord {
        if self.le(other) {
            other
        } else {
            self
        }
    }

    pub fn min_of(self, other: Coord) -> (r: Coord)
        ensures
            r == self.spec_min(other),
    {
        if self.le_exec(other) {
            self
        } else {
            other
        }
    }

    pub fn max_of(self, other: Coord) -> (r: Coord)
        ensures
            r == self.spec_max(other),
    {
        if self.le_exec(other) {
            other
        } else {
            self
        }
    }
}

/// A rectangle as it comes from geometry computation: four coordinate
/// bit patterns with no ordering promised between the edges.
#[derive(Clone, Copy, PartialEq, Eq, Structural, Debug)]
pub struct RawRect {
    pub left: u64,
    pub top: u64,
    pub right: u64,
    pub bottom: u64,
}

/// An axis-aligned rectangle. Every `Bounds` the crate hands out is
/// well-formed: the right edge is not left of the left edge, and the
/// bottom edge is not above the top edge.
#[derive(Clone, Copy, PartialEq, Eq, Structural, Debug)]
pub struct Bounds {
    pub left: Coord,
    pub top: Coord,
    pub right: Coord,
    pub bottom: Coord,
}

impl Bounds {
    /// Well-formedness: edges are ordered.
    pub open spec fn wf(self) -> bool {
        &&& self.left.le(self.right)
        &&& self.top.le(self.bottom)
    }

    /// The rectangle a raw rectangle stands for: edges sorted into order.
    pub open spec fn spec_from_raw(r: RawRect) -> Bounds {
        Bounds {
            left: (Coord { bits: r.left }).spec_min(Coord { bits: r.right }),
            top: (Coord { bits: r.top }).spec_min(Coord { bits: r.bottom }),
            right: (Coord { bits: r.left }).spec_max(Coord { bits: r.right }),
            bottom: (Coord { bits: r.top }).spec_max(Coord { bits: r.bottom }),
        }
    }

    /// Builds a well-formed rectangle from raw edges. For edges that
    /// already are in order this keeps them as they are.
    pub fn from_raw(r: RawRect) -> (b: Bounds)
        ensures
            b == Bounds::spec_from_raw(r),
            b.wf(),
    {
        let lc = Coord { bits: r.left };
        let rc = Coord { bits: r.right };
        let tc = Coord { bits: r.top };
        let bc = Coord { bits: r.bottom };
        Bounds { left: lc.min_of(rc), top: tc.min_of(bc), right: lc.max_of(rc), bottom: tc.max_of(bc) }
    }

    /// The tight union: coordinate-wise minimum of the left/top edges
    /// and maximum of the right/bottom edges.
    pub open spec fn spec_union(self, other: Bounds) -> Bounds {
        Bounds {
            left: self.left.spec_min(other.left),
            top: self.top.spec_min(other.top),
            right: self.right.spec_max(other.right),
            bottom: self.bottom.spec_max(other.bottom),
        }
    }

    /// Merges another rectangle into this one.
    pub fn union(self, other: Bounds) -> (r: Bounds)
        ensures
            r == self.spec_union(other),
    {
        Bounds {
            left: self.left.min_of(other.left),
            top: self.top.min_of(other.top),
            right: self.right.max_of(other.right),
            bottom: self.bottom.max_of(other.bottom),
        }
    }

    /// Containment in the coordinate order.
    pub open spec fn contains(self, other: Bounds) -> bool {
        &&& self.left.le(other.left)
        &&& self.top.le(other.top)
        &&& other.right.le(self.right)
        &&& other.bottom.le(self.bottom)
    }
}

/// The union of two well-formed rectangles is well-formed and contains
/// both of them.
pub proof fn lemma_union_wf(a: Bounds, b: Bounds)
    requires
        a.wf(),
        b.wf(),
    ensures
        a.spec_union(b).wf(),
        a.spec_union(b).contains(a),
        a.spec_union(b).contains(b),
{
}

} // verus!
