//! Positions, sizes and bounding boxes.

use vstd::prelude::*;

verus! {

/// The number of distinct values of a 32-bit coordinate.
pub open spec fn coordinate_span() -> int {
    0x1_0000_0000
}

/// Brings an integer back into the `i32` range by adding or removing whole
/// multiples of the coordinate span.
pub open spec fn wrap_coordinate(v: int) -> int {
    (v + 0x8000_0000) % coordinate_span() - 0x8000_0000
}

/// The coordinate reached from `x` after moving `by` pixels towards larger
/// values, wrapping around the `i32` range.
pub open spec fn shifted_forward(x: i32, by: u32) -> i32 {
    if x + by > i32::MAX {
        (x + by - coordinate_span()) as i32
    } else {
        (x + by) as i32
    }
}

/// The coordinate reached from `x` after moving `by` pixels towards smaller
/// values, wrapping around the `i32` range.
pub open spec fn shifted_back(x: i32, by: u32) -> i32 {
    if x - by < i32::MIN {
        (x - by + coordinate_span()) as i32
    } else {
        (x - by) as i32
    }
}

/// The sum of two extents, held at `u32::MAX` when it would exceed it.
pub open spec fn extent_sum(a: u32, b: u32) -> u32 {
    if a + b > u32::MAX {
        u32::MAX
    } else {
        (a + b) as u32
    }
}

/// The difference of two extents, held at zero when it would fall below it.
pub open spec fn extent_diff(a: u32, b: u32) -> u32 {
    if a < b {
        0
    } else {
        (a - b) as u32
    }
}

/// Moving forward is addition modulo the coordinate span.
pub proof fn lemma_shifted_forward_wraps(x: i32, by: u32)
    ensures
        shifted_forward(x, by) == wrap_coordinate(x + by),
{
}

/// Moving back is subtraction modulo the coordinate span.
pub proof fn lemma_shifted_back_wraps(x: i32, by: u32)
    ensures
        shifted_back(x, by) == wrap_coordinate(x - by),
{
}

/// Moving forward and then back by the same distance returns to the start,
/// for every coordinate and every distance.
pub proof fn lemma_shift_round_trip(x: i32, by: u32)
    ensures
        shifted_back(shifted_forward(x, by), by) == x,
        shifted_forward(shifted_back(x, by), by) == x,
{
}

/// Moves a coordinate forward by `by` pixels, wrapping around.
pub fn shift_forward(x: i32, by: u32) -> (r: i32)
    ensures
        r == shifted_forward(x, by),
{
    let wide: i64 = x as i64 + by as i64;
    if wide > i32::MAX as i64 {
        (wide - 0x1_0000_0000i64) as i32
    } else {
        wide as i32
    }
}

/// Moves a coordinate back by `by` pixels, wrapping around.
pub fn shift_back(x: i32, by: u32) -> (r: i32)
    ensures
        r == shifted_back(x, by),
{
    let wide: i64 = x as i64 - by as i64;
    if wide < i32::MIN as i64 {
        (wide + 0x1_0000_0000i64) as i32
    } else {
        wide as i32
    }
}

/// A point on the display, in pixels.
#[derive(Clone, Copy, Debug, PartialEq, Eq, Structural)]
pub struct Position {
    pub x: i32,
    pub y: i32,
}

impl Position {
    /// This position moved right by `dx` and down by `dy`.
    pub open spec fn offset_by(self, dx: u32, dy: u32) -> Position {
        Position { x: shifted_forward(self.x, dx), y: shifted_forward(self.y, dy) }
    }

    /// This position moved left by `dx` and up by `dy`.
    pub open spec fn offset_back_by(self, dx: u32, dy: u32) -> Position {
        Position { x: shifted_back(self.x, dx), y: shifted_back(self.y, dy) }
    }

    /// Moves the position right by `dx` and down by `dy`.
    pub fn offset(self, dx: u32, dy: u32) -> (r: Position)
        ensures
            r == self.offset_by(dx, dy),
    {
        Position { x: shift_forward(self.x, dx), y: shift_forward(self.y, dy) }
    }

    /// Moves the position left by `dx` and up by `dy`.
    pub fn offset_back(self, dx: u32, dy: u32) -> (r: Position)
        ensures
            r == self.offset_back_by(dx, dy),
    {
        Position { x: shift_back(self.x, dx), y: shift_back(self.y, dy) }
    }
}

impl Default for Position {
    fn default() -> (r: Position)
        ensures
            r == (Position { x: 0, y: 0 }),
    {
        Position { x: 0, y: 0 }
    }
}

/// The size a widget reported in the measure pass.
#[derive(Clone, Copy, Debug, PartialEq, Eq, Structural)]
pub struct MeasuredSize {
    pub width: u32,
    pub height: u32,
}

impl MeasuredSize {
    /// This size grown by `dw` horizontally and `dh` vertically.
    pub open spec fn grown_by(self, dw: u32, dh: u32) -> MeasuredSize {
        MeasuredSize { width: extent_sum(self.width, dw), height: extent_sum(self.height, dh) }
    }

    /// Grows the size by `dw` horizontally and `dh` vertically.
    pub fn grow(self, dw: u32, dh: u32) -> (r: MeasuredSize)
        ensures
            r == self.grown_by(dw, dh),
    {
        MeasuredSize {
            width: self.width.saturating_add(dw),
            height: self.height.saturating_add(dh),
        }
    }
}

impl Default for MeasuredSize {
    fn default() -> (r: MeasuredSize)
        ensures
            r == (MeasuredSize { width: 0, height: 0 }),
    {
        MeasuredSize { width: 0, height: 0 }
    }
}

/// Where a widget was last placed and how large it measured.
#[derive(Clone, Copy, Debug, PartialEq, Eq, Structural)]
pub struct BoundingBox {
    pub position: Position,
    pub size: MeasuredSize,
}

impl BoundingBox {
    /// Whether `position` lies inside the box, edges included.
    pub open spec fn covers(self, position: Position) -> bool {
        &&& self.position.x <= position.x
        &&& self.position.y <= position.y
        &&& position.x <= self.position.x + self.size.width
        &&& position.y <= self.position.y + self.size.height
    }

    /// The box that surrounds this one with `left`, `top`, `right` and
    /// `bottom` pixels of room.
    pub open spec fn expanded_by(
        self,
        left: u32,
        top: u32,
        right: u32,
        bottom: u32,
    ) -> BoundingBox {
        BoundingBox {
            position: self.position.offset_back_by(left, top),
            size: self.size.grown_by(extent_sum(left, right), extent_sum(top, bottom)),
        }
    }

    /// Whether `position` lies inside the box, edges included.
    pub fn contains(&self, position: Position) -> (r: bool)
        ensures
            r == self.covers(position),
    {
        position.x >= self.position.x && position.y >= self.position.y && position.x as i64
            <= self.position.x as i64 + self.size.width as i64 && position.y as i64
            <= self.position.y as i64 + self.size.height as i64
    }

    /// Surrounds the box with `left`, `top`, `right` and `bottom` pixels of
    /// room.
    pub fn expand(&self, left: u32, top: u32, right: u32, bottom: u32) -> (r: BoundingBox)
        ensures
            r == self.expanded_by(left, top, right, bottom),
    {
        BoundingBox {
            position: self.position.offset_back(left, top),
            size: self.size.grow(left.saturating_add(right), top.saturating_add(bottom)),
        }
    }
}

impl Default for BoundingBox {
    fn default() -> (r: BoundingBox)
        ensures
            r == (BoundingBox {
                position: Position { x: 0, y: 0 },
                size: MeasuredSize { width: 0, height: 0 },
            }),
    {
        BoundingBox {
            position: Position { x: 0, y: 0 },
            size: MeasuredSize { width: 0, height: 0 },
        }
    }
}

} // verus!
