//! Constraints handed from a parent to a child in the measure pass.

use vstd::prelude::*;
use crate::geometry::extent_diff;

verus! {

/// What a parent allows a child along one axis.
#[derive(Clone, Copy, Debug, PartialEq, Eq, Structural)]
pub enum MeasureConstraint {
    /// The child may use up to this many pixels.
    AtMost(u32),
    /// The child must use exactly this many pixels.
    Exactly(u32),
    /// The child reports its natural size.
    Unspecified,
}

impl MeasureConstraint {
    /// The constraint left over once `by` pixels are set aside.
    pub open spec fn shrunk_by(self, by: u32) -> MeasureConstraint {
        match self {
            MeasureConstraint::AtMost(size) => MeasureConstraint::AtMost(extent_diff(size, by)),
            MeasureConstraint::Exactly(size) => MeasureConstraint::Exactly(extent_diff(size, by)),
            MeasureConstraint::Unspecified => MeasureConstraint::Unspecified,
        }
    }

    /// The extent that results from holding a natural extent to the
    /// constraint.
    pub open spec fn applied_to(self, measured: u32) -> u32 {
        match self {
            MeasureConstraint::AtMost(limit) => if limit < measured {
                limit
            } else {
                measured
            },
            MeasureConstraint::Exactly(size) => size,
            MeasureConstraint::Unspecified => measured,
        }
    }

    /// The largest extent the constraint admits, if it has one.
    pub open spec fn limit(self) -> Option<u32> {
        match self {
            MeasureConstraint::AtMost(size) => Some(size),
            MeasureConstraint::Exactly(size) => Some(size),
            MeasureConstraint::Unspecified => None,
        }
    }

    /// Whether an extent obeys the constraint.
    pub open spec fn admits(self, extent: u32) -> bool {
        match self {
            MeasureConstraint::AtMost(limit) => extent <= limit,
            MeasureConstraint::Exactly(size) => extent == size,
            MeasureConstraint::Unspecified => true,
        }
    }

    /// Sets `by` pixels aside, stopping at zero.
    pub fn shrink(self, by: u32) -> (r: MeasureConstraint)
        ensures
            r == self.shrunk_by(by),
    {
        match self {
            MeasureConstraint::AtMost(size) => MeasureConstraint::AtMost(size.saturating_sub(by)),
            MeasureConstraint::Exactly(size) => MeasureConstraint::Exactly(
                size.saturating_sub(by),
            ),
            MeasureConstraint::Unspecified => MeasureConstraint::Unspecified,
        }
    }

    /// Holds a natural extent to the constraint.
    pub fn apply_to_measured(self, measured: u32) -> (r: u32)
        ensures
            r == self.applied_to(measured),
            self.admits(r),
    {
        match self {
            MeasureConstraint::AtMost(limit) => if limit < measured {
                limit
            } else {
                measured
            },
            MeasureConstraint::Exactly(size) => size,
            MeasureConstraint::Unspecified => measured,
        }
    }

    /// The largest extent the constraint admits, or `None` when it is
    /// unspecified.
    pub fn largest(self) -> (r: Option<u32>)
        ensures
            r == self.limit(),
    {
        match self {
            MeasureConstraint::AtMost(size) => Some(size),
            MeasureConstraint::Exactly(size) => Some(size),
            MeasureConstraint::Unspecified => None,
        }
    }

    /// Whether the constraint is `Exactly`.
    pub fn is_exact(self) -> (r: bool)
        ensures
            r == (self is Exactly),
    {
        match self {
            MeasureConstraint::Exactly(_) => true,
            _ => false,
        }
    }
}

/// The constraints on both axes.
#[derive(Clone, Copy, Debug, PartialEq, Eq, Structural)]
pub struct MeasureSpec {
    pub width: MeasureConstraint,
    pub height: MeasureConstraint,
}

impl MeasureSpec {
    /// The constraints left over once `dw` pixels of width and `dh` pixels of
    /// height are set aside.
    pub open spec fn shrunk_by(self, dw: u32, dh: u32) -> MeasureSpec {
        MeasureSpec { width: self.width.shrunk_by(dw), height: self.height.shrunk_by(dh) }
    }

    /// Whether a size obeys both constraints.
    pub open spec fn admits(self, size: crate::geometry::MeasuredSize) -> bool {
        self.width.admits(size.width) && self.height.admits(size.height)
    }

    /// Sets `dw` pixels of width and `dh` pixels of height aside.
    pub fn shrink(self, dw: u32, dh: u32) -> (r: MeasureSpec)
        ensures
            r == self.shrunk_by(dw, dh),
    {
        MeasureSpec { width: self.width.shrink(dw), height: self.height.shrink(dh) }
    }
}

} // verus!
