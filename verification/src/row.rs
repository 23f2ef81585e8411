//! A layout that places its cells from left to right.
//!
//! A row is a column seen with its axes exchanged: what a column does with
//! heights and vertical positions, a row does with widths and horizontal
//! positions. So a row is built from a column whose cells and whose own
//! geometry are looked at through `Transposed`, which exchanges the axes of
//! everything that goes in and comes out.

use vstd::prelude::*;
use crate::column::Column;
use crate::geometry::BoundingBox;
use crate::geometry::MeasuredSize;
use crate::geometry::Position;
use crate::input::Delivery;
use crate::input::InputEvent;
use crate::linear::Cell;
use crate::linear::Chain;
use crate::linear::LinearLayoutChainElement;
use crate::linear::Link;
use crate::measurement::MeasureSpec;
use crate::widget::Widget;

verus! {

/// A position with its coordinates exchanged.
pub open spec fn flipped_position(p: Position) -> Position {
    Position { x: p.y, y: p.x }
}

/// A size with width and height exchanged.
pub open spec fn flipped_size(s: MeasuredSize) -> MeasuredSize {
    MeasuredSize { width: s.height, height: s.width }
}

/// A box with its axes exchanged.
pub open spec fn flipped_box(b: BoundingBox) -> BoundingBox {
    BoundingBox { position: flipped_position(b.position), size: flipped_size(b.size) }
}

/// Constraints with the axes exchanged.
pub open spec fn flipped_spec(s: MeasureSpec) -> MeasureSpec {
    MeasureSpec { width: s.height, height: s.width }
}

/// An event with the axes of its position exchanged.
pub open spec fn flipped_event(e: InputEvent) -> InputEvent {
    match e {
        InputEvent::PointerEvent(position, what) => InputEvent::PointerEvent(
            flipped_position(position),
            what,
        ),
        _ => e,
    }
}

/// Exchanging the axes twice changes nothing.
pub proof fn lemma_flip_twice(b: BoundingBox, s: MeasureSpec, e: InputEvent)
    ensures
        flipped_box(flipped_box(b)) == b,
        flipped_spec(flipped_spec(s)) == s,
        flipped_event(flipped_event(e)) == e,
{
}

/// Exchanges the coordinates of a position.
pub fn flip_position(p: Position) -> (r: Position)
    ensures
        r == flipped_position(p),
{
    Position { x: p.y, y: p.x }
}

/// Exchanges the axes of a box.
pub fn flip_box(b: BoundingBox) -> (r: BoundingBox)
    ensures
        r == flipped_box(b),
{
    BoundingBox {
        position: flip_position(b.position),
        size: MeasuredSize { width: b.size.height, height: b.size.width },
    }
}

/// Exchanges the axes of constraints.
pub fn flip_spec(s: MeasureSpec) -> (r: MeasureSpec)
    ensures
        r == flipped_spec(s),
{
    MeasureSpec { width: s.height, height: s.width }
}

/// Exchanges the axes of the position of an event.
pub fn flip_event(e: InputEvent) -> (r: InputEvent)
    ensures
        r == flipped_event(e),
{
    match e {
        InputEvent::PointerEvent(position, what) => InputEvent::PointerEvent(
            flip_position(position),
            what,
        ),
        _ => e,
    }
}

/// A widget seen with its axes exchanged. It is no node of its own in the
/// tree: it stands for the widget it holds.
pub struct Transposed<W> {
    pub inner: W,
}

impl<W: Widget> Widget for Transposed<W> {
    open spec fn wf(&self) -> bool {
        self.inner.wf()
    }

    open spec fn bounds(&self) -> BoundingBox {
        flipped_box(self.inner.bounds())
    }

    open spec fn size_for(&self, spec: MeasureSpec) -> MeasuredSize {
        flipped_size(self.inner.size_for(flipped_spec(spec)))
    }

    open spec fn child_count(&self) -> nat {
        self.inner.child_count()
    }

    open spec fn child_bounds(&self, idx: nat) -> BoundingBox {
        flipped_box(self.inner.child_bounds(idx))
    }

    open spec fn hit(&self, event: InputEvent) -> Option<nat> {
        self.inner.hit(flipped_event(event))
    }

    open spec fn parent(&self) -> usize {
        self.inner.parent()
    }

    open spec fn with_state(&self, bits: u32) -> Self {
        Transposed { inner: self.inner.with_state(bits) }
    }

    open spec fn attached(&self, parent: usize, self_index: usize) -> Self {
        Transposed { inner: self.inner.attached(parent, self_index) }
    }

    open spec fn measured(&self, spec: MeasureSpec) -> Self {
        Transposed { inner: self.inner.measured(flipped_spec(spec)) }
    }

    open spec fn arranged(&self, position: Position) -> Self {
        Transposed { inner: self.inner.arranged(flipped_position(position)) }
    }

    open spec fn with_parent(&self, index: usize) -> Self {
        Transposed { inner: self.inner.with_parent(index) }
    }

    open spec fn updated_to(&self, after: Self) -> bool {
        self.inner.updated_to(after.inner)
    }

    open spec fn selectable(&self) -> bool {
        self.inner.selectable()
    }

    open spec fn with_selection(&self, selected: bool) -> Self {
        Transposed { inner: self.inner.with_selection(selected) }
    }

    open spec fn after_input(&self, idx: nat, event: InputEvent) -> Self {
        Transposed { inner: self.inner.after_input(idx, flipped_event(event)) }
    }

    open spec fn input_activates(&self, idx: nat, event: InputEvent) -> bool {
        self.inner.input_activates(idx, flipped_event(event))
    }

    open spec fn input_flags(&self, idx: nat, event: InputEvent) -> Option<u32> {
        self.inner.input_flags(idx, flipped_event(event))
    }

    proof fn lemma_arrange_round_trip(&self, origin: Position) {
        self.inner.lemma_arrange_round_trip(flipped_position(origin));
    }

    proof fn lemma_measured_size(&self, spec: MeasureSpec) {
        self.inner.lemma_measured_size(flipped_spec(spec));
    }

    fn attach(&mut self, parent: usize, self_index: usize) {
        self.inner.attach(parent, self_index);
        proof {
            assert forall|s: MeasureSpec| #[trigger] self.size_for(s) == old(self).size_for(s) by {
                assert(self.inner.size_for(flipped_spec(s)) == old(self).inner.size_for(
                    flipped_spec(s),
                ));
            }
        }
    }

    fn arrange(&mut self, position: Position) {
        self.inner.arrange(flip_position(position));
        proof {
            assert forall|s: MeasureSpec| #[trigger] self.size_for(s) == old(self).size_for(s) by {
                assert(self.inner.size_for(flipped_spec(s)) == old(self).inner.size_for(
                    flipped_spec(s),
                ));
            }
        }
    }

    fn bounding_box(&self) -> (b: BoundingBox) {
        flip_box(self.inner.bounding_box())
    }

    fn measure(&mut self, spec: MeasureSpec) {
        self.inner.measure(flip_spec(spec));
        proof {
            assert forall|s: MeasureSpec| #[trigger] self.size_for(s) == old(self).size_for(s) by {
                assert(self.inner.size_for(flipped_spec(s)) == old(self).inner.size_for(
                    flipped_spec(s),
                ));
            }
        }
    }

    fn children(&self) -> (n: usize) {
        self.inner.children()
    }

    fn child_bounding_box(&self, idx: usize) -> (b: BoundingBox) {
        flip_box(self.inner.child_bounding_box(idx))
    }

    fn test_input(&self, event: InputEvent) -> (r: Option<usize>) {
        self.inner.test_input(flip_event(event))
    }

    fn handle_input(&mut self, idx: usize, event: InputEvent) -> (r: Delivery) {
        self.inner.handle_input(idx, flip_event(event))
    }

    fn update(&mut self) {
        self.inner.update();
    }

    fn parent_index(&self) -> (r: usize) {
        self.inner.parent_index()
    }

    fn set_parent(&mut self, index: usize) {
        self.inner.set_parent(index);
        proof {
            assert forall|s: MeasureSpec| #[trigger] self.size_for(s) == old(self).size_for(s) by {
                assert(self.inner.size_for(flipped_spec(s)) == old(self).inner.size_for(
                    flipped_spec(s),
                ));
            }
        }
    }

    fn change_state(&mut self, state: u32) {
        self.inner.change_state(state);
    }

    fn change_selection(&mut self, selected: bool) {
        self.inner.change_selection(selected);
    }

    fn is_selectable(&self) -> bool {
        self.inner.is_selectable()
    }
}

/// A layout that places its cells from left to right. The cells of weight 0
/// take the width they measure; the others share the width that is left in
/// proportion to their weights.
pub type Row<CE> = Transposed<Column<CE>>;

impl<W: Widget> Transposed<Column<Chain<Cell<Transposed<W>>>>> {
    /// A row with one cell.
    pub fn new(cell: Cell<W>) -> (row: Self)
        ensures
            row.inner.widgets.object.widget.inner == cell.widget,
            row.inner.widgets.object.weight == cell.weight,
            row.inner.widgets.cell_count() == 1,
            row.bounds() == (BoundingBox {
                position: Position { x: 0, y: 0 },
                size: MeasuredSize { width: 0, height: 0 },
            }),
    {
        Transposed {
            inner: Column::new(
                Cell { widget: Transposed { inner: cell.widget }, weight: cell.weight },
            ),
        }
    }
}

impl<CE: LinearLayoutChainElement> Transposed<Column<CE>> {
    /// Adds a cell to the right of the others.
    pub fn add<W: Widget>(self, cell: Cell<W>) -> (row: Row<Link<Cell<Transposed<W>>, CE>>)
        ensures
            row.inner.widgets.parent == self.inner.widgets,
            row.inner.widgets.object.widget.inner == cell.widget,
            row.inner.widgets.object.weight == cell.weight,
            row.inner.widgets.cell_count() == self.inner.widgets.cell_count() + 1,
            row.inner.bounds == self.inner.bounds,
            row.inner.parent_index == self.inner.parent_index,
    {
        Transposed {
            inner: self.inner.add(
                Cell { widget: Transposed { inner: cell.widget }, weight: cell.weight },
            ),
        }
    }
}

impl<W: Widget, CE: LinearLayoutChainElement> Transposed<Column<Link<Cell<W>, CE>>> {
    /// Gives the cell that was added last a weight.
    pub fn weight(self, weight: u32) -> (row: Self)
        ensures
            row.inner.widgets.parent == self.inner.widgets.parent,
            row.inner.widgets.object.widget == self.inner.widgets.object.widget,
            row.inner.widgets.object.weight == weight,
            row.inner.bounds == self.inner.bounds,
            row.inner.parent_index == self.inner.parent_index,
    {
        Transposed { inner: self.inner.weight(weight) }
    }
}

} // verus!
