//! Plain geometric values: fixed-point vectors, rational decay factors and
//! signed anchor ratios.

use vstd::prelude::*;

verus! {

/// A two-component fixed-point vector: a position, a size or a momentum.
#[derive(Clone, Copy, Debug, PartialEq, Eq, Structural)]
pub struct Vec2 {
    pub x: i64,
    pub y: i64,
}

impl Vec2 {
    /// Both components are non-negative (a well-formed size).
    pub open spec fn non_negative(self) -> bool {
        0 <= self.x && 0 <= self.y
    }
}

/// A multiplicative decay factor `num / den` in the interval zero to one,
/// applied per tick to one momentum component.
#[derive(Clone, Copy, Debug, PartialEq, Eq, Structural)]
pub struct Decay {
    pub num: u32,
    pub den: u32,
}

impl Decay {
    pub open spec fn wf(self) -> bool {
        0 < self.den && self.num <= self.den
    }
}

/// Per-axis decay factors applied to the momentum each tick.
#[derive(Clone, Copy, Debug, PartialEq, Eq, Structural)]
pub struct Friction {
    pub x: Decay,
    pub y: Decay,
}

impl Friction {
    pub open spec fn wf(self) -> bool {
        self.x.wf() && self.y.wf()
    }
}

/// A signed ratio `num / den` with a positive denominator: one normalized
/// anchor coordinate. Values outside zero to one are meaningful and select
/// points beyond the referenced bounding box.
#[derive(Clone, Copy, Debug, PartialEq, Eq, Structural)]
pub struct Ratio {
    pub num: i64,
    pub den: i64,
}

impl Ratio {
    pub open spec fn wf(self) -> bool {
        0 < self.den
    }
}

/// A pair of normalized coordinates locating a point relative to an
/// entity's bounding box.
#[derive(Clone, Copy, Debug, PartialEq, Eq, Structural)]
pub struct Anchor {
    pub x: Ratio,
    pub y: Ratio,
}

impl Anchor {
    pub open spec fn wf(self) -> bool {
        self.x.wf() && self.y.wf()
    }
}

} // verus!
