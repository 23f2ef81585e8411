//! The cells of a linear layout: widgets paired with weights, held in a
//! chain whose type lists the type of every cell.
//!
//! The chain has the shape of the chains of the crate `object_chain`: a
//! first element, and links that each hold one more object and the chain
//! before it. The two types are declared here because a layout reads the
//! fields of every link in its specifications, and a `Link` of that crate
//! can be made known to Verus as an opaque type only: its declaration is
//! bound by a sealed trait, which a specification cannot name.

use vstd::prelude::*;
use crate::geometry::BoundingBox;
use crate::geometry::MeasuredSize;
use crate::geometry::Position;
use crate::input::Delivery;
use crate::input::InputEvent;
use crate::measurement::MeasureSpec;
use crate::widget::Widget;

verus! {

/// The first element of a chain.
pub struct Chain<V> {
    /// The wrapped object.
    pub object: V,
}

/// A later element of a chain.
pub struct Link<V, C> {
    /// The elements before this one.
    pub parent: C,
    /// The object of this element.
    pub object: V,
}

impl<V> Chain<V> {
    /// Starts a chain with `object`.
    pub fn new(object: V) -> (chain: Self)
        ensures
            chain.object == object,
    {
        Chain { object }
    }
}

/// A widget in a linear layout, with its share of the space that is left
/// over. Weight 0 means the widget takes what it measures and no more.
pub struct Cell<W> {
    pub widget: W,
    pub weight: u32,
}

impl<W: Widget> Cell<W> {
    /// A cell of weight 0.
    pub fn new(widget: W) -> (cell: Self)
        ensures
            cell.widget == widget,
            cell.weight == 0,
    {
        Cell { widget, weight: 0 }
    }

    /// Gives the cell a weight.
    pub fn weight(self, weight: u32) -> (cell: Self)
        ensures
            cell.widget == self.widget,
            cell.weight == weight,
    {
        Cell { widget: self.widget, weight }
    }
}

/// A chain of cells, addressed by index in the order in which the cells were
/// added.
pub trait LinearLayoutChainElement: Sized {
    /// Whether every widget of the chain is well formed and the number of
    /// cells fits in `usize`.
    spec fn chain_wf(&self) -> bool;

    /// The number of cells: at least one.
    spec fn cell_count(&self) -> nat;

    /// The weight of cell `i`.
    spec fn weight_at(&self, i: int) -> u32;

    /// The box of the widget in cell `i`.
    spec fn bounds_at(&self, i: int) -> BoundingBox;

    /// The size the widget in cell `i` reports when measured under `spec`.
    spec fn size_at(&self, i: int, spec: MeasureSpec) -> MeasuredSize;

    /// The number of descendants of the widget in cell `i`.
    spec fn children_at(&self, i: int) -> nat;

    /// The box of descendant `idx` of the widget in cell `i`.
    spec fn child_bounds_at(&self, i: int, idx: nat) -> BoundingBox;

    /// The answer of the widget in cell `i` to a hit test.
    spec fn hit_at(&self, i: int, event: InputEvent) -> Option<nat>;

    /// The index that the widget in cell `i` has recorded as its parent's.
    spec fn parent_at(&self, i: int) -> usize;

    /// Whether `after` is what an update pass over the widget in cell `i`
    /// can make of the chain, the other cells left as they are.
    spec fn updated_at_to(&self, i: int, after: Self) -> bool;

    /// The chain after the widget in cell `i` was measured under `spec`.
    spec fn measured_at(&self, i: int, spec: MeasureSpec) -> Self;

    /// The chain after the widget in cell `i` was placed at `position`.
    spec fn arranged_at(&self, i: int, position: Position) -> Self;

    /// The chain after the widget in cell `i` was attached below `parent`
    /// as node `self_index` of the tree.
    spec fn attached_at(&self, i: int, parent: usize, self_index: usize) -> Self;

    /// The chain after `event` was delivered to node `idx` of the subtree of
    /// cell `i`.
    spec fn after_input_at(&self, i: int, idx: nat, event: InputEvent) -> Self;

    /// Whether delivering `event` to node `idx` of the subtree of cell `i`
    /// activates that node.
    spec fn input_activates_at(&self, i: int, idx: nat, event: InputEvent) -> bool;

    /// The flags that node `idx` of the subtree of cell `i` takes when
    /// `event` is delivered to it, if it keeps flags that input changes.
    spec fn input_flags_at(&self, i: int, idx: nat, event: InputEvent) -> Option<u32>;

    /// Measuring the widget in one cell gives its box the size the widget
    /// reports and leaves the box where it was. The other cells keep their
    /// boxes, and all cells keep their weights.
    proof fn lemma_measured_at(&self, i: int, spec: MeasureSpec)
        requires
            0 <= i < self.cell_count(),
        ensures
            self.measured_at(i, spec).cell_count() == self.cell_count(),
            self.measured_at(i, spec).bounds_at(i) == (BoundingBox {
                position: self.bounds_at(i).position,
                size: self.size_at(i, spec),
            }),
            forall|j: int|
                0 <= j < self.cell_count() ==> #[trigger] self.measured_at(i, spec).weight_at(j)
                    == self.weight_at(j),
            forall|j: int|
                0 <= j < self.cell_count() && j != i ==> #[trigger] self.measured_at(
                    i,
                    spec,
                ).bounds_at(j) == self.bounds_at(j),
            forall|j: int, s: MeasureSpec|
                0 <= j < self.cell_count() && j != i ==> #[trigger] self.measured_at(
                    i,
                    spec,
                ).size_at(j, s) == self.size_at(j, s),
    ;

    /// Placing the widget in one cell moves its box to the place and leaves
    /// its size as it was. The other cells keep their boxes.
    proof fn lemma_arranged_at(&self, i: int, position: Position)
        requires
            0 <= i < self.cell_count(),
        ensures
            self.arranged_at(i, position).cell_count() == self.cell_count(),
            self.arranged_at(i, position).bounds_at(i) == (BoundingBox {
                position,
                size: self.bounds_at(i).size,
            }),
            forall|j: int|
                0 <= j < self.cell_count() && j != i ==> #[trigger] self.arranged_at(
                    i,
                    position,
                ).bounds_at(j) == self.bounds_at(j),
    ;

    /// The number of cells.
    fn count(&self) -> (n: usize)
        requires
            self.chain_wf(),
        ensures
            n == self.cell_count(),
            n >= 1,
    ;

    /// The weight of cell `i`.
    fn weight(&self, i: usize) -> (w: u32)
        requires
            self.chain_wf(),
            i < self.cell_count(),
        ensures
            w == self.weight_at(i as int),
    ;

    /// The box of the widget in cell `i`.
    fn bounding_box_at(&self, i: usize) -> (b: BoundingBox)
        requires
            self.chain_wf(),
            i < self.cell_count(),
        ensures
            b == self.bounds_at(i as int),
    ;

    /// The number of descendants of the widget in cell `i`.
    fn children_of(&self, i: usize) -> (n: usize)
        requires
            self.chain_wf(),
            i < self.cell_count(),
        ensures
            n == self.children_at(i as int),
    ;

    /// The box of descendant `idx` of the widget in cell `i`.
    fn child_bounding_box_at(&self, i: usize, idx: usize) -> (b: BoundingBox)
        requires
            self.chain_wf(),
            i < self.cell_count(),
            idx < self.children_at(i as int),
        ensures
            b == self.child_bounds_at(i as int, idx as nat),
    ;

    /// Hit-tests the widget in cell `i`.
    fn test_input_at(&self, i: usize, event: InputEvent) -> (r: Option<usize>)
        requires
            self.chain_wf(),
            i < self.cell_count(),
        ensures
            r matches Some(k) ==> self.hit_at(i as int, event) == Some(k as nat) && k
                <= self.children_at(i as int),
            r is None ==> self.hit_at(i as int, event) is None,
    ;

    /// Measures the widget in cell `i` under `spec` and leaves the other
    /// cells as they are.
    fn measure_at(&mut self, i: usize, spec: MeasureSpec)
        requires
            old(self).chain_wf(),
            i < old(self).cell_count(),
        ensures
            *final(self) == old(self).measured_at(i as int, spec),
            final(self).chain_wf(),
            final(self).cell_count() == old(self).cell_count(),
            forall|j: int|
                0 <= j < old(self).cell_count() ==> #[trigger] final(self).weight_at(j)
                    == old(self).weight_at(j),
            forall|j: int|
                0 <= j < old(self).cell_count() ==> #[trigger] final(self).children_at(j)
                    == old(self).children_at(j),
            forall|j: int, s: MeasureSpec|
                0 <= j < old(self).cell_count() ==> #[trigger] final(self).size_at(j, s)
                    == old(self).size_at(j, s),
            forall|j: int|
                0 <= j < old(self).cell_count() && j != i ==> #[trigger] final(self).bounds_at(j)
                    == old(self).bounds_at(j),
            final(self).bounds_at(i as int) == (BoundingBox {
                position: old(self).bounds_at(i as int).position,
                size: old(self).size_at(i as int, spec),
            }),
    ;

    /// Places the widget in cell `i` at `position` and leaves the other
    /// cells as they are.
    fn arrange_at(&mut self, i: usize, position: Position)
        requires
            old(self).chain_wf(),
            i < old(self).cell_count(),
        ensures
            *final(self) == old(self).arranged_at(i as int, position),
            final(self).chain_wf(),
            final(self).cell_count() == old(self).cell_count(),
            forall|j: int|
                0 <= j < old(self).cell_count() ==> #[trigger] final(self).weight_at(j)
                    == old(self).weight_at(j),
            forall|j: int|
                0 <= j < old(self).cell_count() ==> #[trigger] final(self).children_at(j)
                    == old(self).children_at(j),
            forall|j: int, s: MeasureSpec|
                0 <= j < old(self).cell_count() ==> #[trigger] final(self).size_at(j, s)
                    == old(self).size_at(j, s),
            forall|j: int|
                0 <= j < old(self).cell_count() && j != i ==> #[trigger] final(self).bounds_at(j)
                    == old(self).bounds_at(j),
            final(self).bounds_at(i as int) == (BoundingBox {
                position,
                size: old(self).bounds_at(i as int).size,
            }),
    ;

    /// Records `parent` as the parent of the widget in cell `i` and numbers
    /// its subtree from `self_index`.
    fn attach_at(&mut self, i: usize, parent: usize, self_index: usize)
        requires
            old(self).chain_wf(),
            i < old(self).cell_count(),
            self_index + old(self).children_at(i as int) <= usize::MAX,
        ensures
            *final(self) == old(self).attached_at(i as int, parent, self_index),
            final(self).parent_at(i as int) == parent,
            forall|j: int|
                0 <= j < old(self).cell_count() && j != i ==> #[trigger] final(self).parent_at(j)
                    == old(self).parent_at(j),
            final(self).chain_wf(),
            final(self).cell_count() == old(self).cell_count(),
            forall|j: int|
                0 <= j < old(self).cell_count() ==> #[trigger] final(self).weight_at(j)
                    == old(self).weight_at(j),
            forall|j: int|
                0 <= j < old(self).cell_count() ==> #[trigger] final(self).children_at(j)
                    == old(self).children_at(j),
            forall|j: int, s: MeasureSpec|
                0 <= j < old(self).cell_count() ==> #[trigger] final(self).size_at(j, s)
                    == old(self).size_at(j, s),
            forall|j: int|
                0 <= j < old(self).cell_count() && j != i ==> #[trigger] final(self).bounds_at(j)
                    == old(self).bounds_at(j),
            final(self).bounds_at(i as int) == old(self).bounds_at(i as int),
    ;

    /// Delivers `event` to node `idx` of the subtree of cell `i`: the widget
    /// of the cell for 0, its descendant `idx - 1` otherwise.
    fn handle_input_at(&mut self, i: usize, idx: usize, event: InputEvent) -> (r: Delivery)
        requires
            old(self).chain_wf(),
            i < old(self).cell_count(),
            idx <= old(self).children_at(i as int),
        ensures
            *final(self) == old(self).after_input_at(i as int, idx as nat, event),
            r.activated == old(self).input_activates_at(i as int, idx as nat, event),
            r.flags == old(self).input_flags_at(i as int, idx as nat, event),
            final(self).chain_wf(),
            final(self).cell_count() == old(self).cell_count(),
            forall|j: int|
                0 <= j < old(self).cell_count() ==> #[trigger] final(self).weight_at(j)
                    == old(self).weight_at(j),
            forall|j: int|
                0 <= j < old(self).cell_count() ==> #[trigger] final(self).children_at(j)
                    == old(self).children_at(j),
    ;

    /// Lets the widget in cell `i` bring itself up to date.
    fn update_at(&mut self, i: usize)
        requires
            old(self).chain_wf(),
            i < old(self).cell_count(),
        ensures
            old(self).updated_at_to(i as int, *final(self)),
            final(self).chain_wf(),
            final(self).cell_count() == old(self).cell_count(),
            forall|j: int|
                0 <= j < old(self).cell_count() ==> #[trigger] final(self).weight_at(j)
                    == old(self).weight_at(j),
            forall|j: int|
                0 <= j < old(self).cell_count() ==> #[trigger] final(self).children_at(j)
                    == old(self).children_at(j),
            forall|j: int|
                0 <= j < old(self).cell_count() && j != i ==> #[trigger] final(self).bounds_at(j)
                    == old(self).bounds_at(j),
            forall|j: int, s: MeasureSpec|
                0 <= j < old(self).cell_count() && j != i ==> #[trigger] final(self).size_at(j, s)
                    == old(self).size_at(j, s),
    ;
}

impl<W: Widget> LinearLayoutChainElement for Chain<Cell<W>> {
    open spec fn chain_wf(&self) -> bool {
        self.object.widget.wf()
    }

    open spec fn cell_count(&self) -> nat {
        1
    }

    open spec fn weight_at(&self, i: int) -> u32 {
        self.object.weight
    }

    open spec fn bounds_at(&self, i: int) -> BoundingBox {
        self.object.widget.bounds()
    }

    open spec fn size_at(&self, i: int, spec: MeasureSpec) -> MeasuredSize {
        self.object.widget.size_for(spec)
    }

    open spec fn children_at(&self, i: int) -> nat {
        self.object.widget.child_count()
    }

    open spec fn child_bounds_at(&self, i: int, idx: nat) -> BoundingBox {
        self.object.widget.child_bounds(idx)
    }

    open spec fn hit_at(&self, i: int, event: InputEvent) -> Option<nat> {
        self.object.widget.hit(event)
    }

    open spec fn parent_at(&self, i: int) -> usize {
        self.object.widget.parent()
    }

    open spec fn updated_at_to(&self, i: int, after: Self) -> bool {
        &&& self.object.widget.updated_to(after.object.widget)
        &&& after.object.weight == self.object.weight
    }

    open spec fn measured_at(&self, i: int, spec: MeasureSpec) -> Self {
        Chain {
            object: Cell { widget: self.object.widget.measured(spec), weight: self.object.weight },
        }
    }

    open spec fn arranged_at(&self, i: int, position: Position) -> Self {
        Chain {
            object: Cell {
                widget: self.object.widget.arranged(position),
                weight: self.object.weight,
            },
        }
    }

    open spec fn attached_at(&self, i: int, parent: usize, self_index: usize) -> Self {
        Chain {
            object: Cell {
                widget: self.object.widget.attached(parent, self_index),
                weight: self.object.weight,
            },
        }
    }

    open spec fn after_input_at(&self, i: int, idx: nat, event: InputEvent) -> Self {
        Chain {
            object: Cell {
                widget: self.object.widget.after_input(idx, event),
                weight: self.object.weight,
            },
        }
    }

    open spec fn input_activates_at(&self, i: int, idx: nat, event: InputEvent) -> bool {
        self.object.widget.input_activates(idx, event)
    }

    open spec fn input_flags_at(&self, i: int, idx: nat, event: InputEvent) -> Option<u32> {
        self.object.widget.input_flags(idx, event)
    }

    proof fn lemma_measured_at(&self, i: int, spec: MeasureSpec) {
        self.object.widget.lemma_measured_size(spec);
    }

    proof fn lemma_arranged_at(&self, i: int, position: Position) {
        self.object.widget.lemma_arrange_round_trip(position);
    }

    fn count(&self) -> (n: usize) {
        1
    }

    fn weight(&self, i: usize) -> (w: u32) {
        self.object.weight
    }

    fn bounding_box_at(&self, i: usize) -> (b: BoundingBox) {
        self.object.widget.bounding_box()
    }

    fn children_of(&self, i: usize) -> (n: usize) {
        self.object.widget.children()
    }

    fn child_bounding_box_at(&self, i: usize, idx: usize) -> (b: BoundingBox) {
        self.object.widget.child_bounding_box(idx)
    }

    fn test_input_at(&self, i: usize, event: InputEvent) -> (r: Option<usize>) {
        self.object.widget.test_input(event)
    }

    fn measure_at(&mut self, i: usize, spec: MeasureSpec) {
        self.object.widget.measure(spec);
    }

    fn arrange_at(&mut self, i: usize, position: Position) {
        self.object.widget.arrange(position);
    }

    fn attach_at(&mut self, i: usize, parent: usize, self_index: usize) {
        self.object.widget.attach(parent, self_index);
    }

    fn handle_input_at(&mut self, i: usize, idx: usize, event: InputEvent) -> (r: Delivery) {
        self.object.widget.handle_input(idx, event)
    }

    fn update_at(&mut self, i: usize) {
        self.object.widget.update();
    }
}

impl<W: Widget, CE: LinearLayoutChainElement> LinearLayoutChainElement for Link<
    Cell<W>,
    CE,
> {
    open spec fn chain_wf(&self) -> bool {
        &&& self.parent.chain_wf()
        &&& self.object.widget.wf()
        &&& self.parent.cell_count() < usize::MAX
    }

    open spec fn cell_count(&self) -> nat {
        self.parent.cell_count() + 1
    }

    open spec fn weight_at(&self, i: int) -> u32 {
        if i == self.parent.cell_count() {
            self.object.weight
        } else {
            self.parent.weight_at(i)
        }
    }

    open spec fn bounds_at(&self, i: int) -> BoundingBox {
        if i == self.parent.cell_count() {
            self.object.widget.bounds()
        } else {
            self.parent.bounds_at(i)
        }
    }

    open spec fn size_at(&self, i: int, spec: MeasureSpec) -> MeasuredSize {
        if i == self.parent.cell_count() {
            self.object.widget.size_for(spec)
        } else {
            self.parent.size_at(i, spec)
        }
    }

    open spec fn children_at(&self, i: int) -> nat {
        if i == self.parent.cell_count() {
            self.object.widget.child_count()
        } else {
            self.parent.children_at(i)
        }
    }

    open spec fn child_bounds_at(&self, i: int, idx: nat) -> BoundingBox {
        if i == self.parent.cell_count() {
            self.object.widget.child_bounds(idx)
        } else {
            self.parent.child_bounds_at(i, idx)
        }
    }

    open spec fn hit_at(&self, i: int, event: InputEvent) -> Option<nat> {
        if i == self.parent.cell_count() {
            self.object.widget.hit(event)
        } else {
            self.parent.hit_at(i, event)
        }
    }

    open spec fn parent_at(&self, i: int) -> usize {
        if i == self.parent.cell_count() {
            self.object.widget.parent()
        } else {
            self.parent.parent_at(i)
        }
    }

    open spec fn updated_at_to(&self, i: int, after: Self) -> bool {
        if i == self.parent.cell_count() {
            &&& after.parent == self.parent
            &&& self.object.widget.updated_to(after.object.widget)
            &&& after.object.weight == self.object.weight
        } else {
            &&& self.parent.updated_at_to(i, after.parent)
            &&& after.object == self.object
        }
    }

    open spec fn measured_at(&self, i: int, spec: MeasureSpec) -> Self {
        if i == self.parent.cell_count() {
            Link {
                parent: self.parent,
                object: Cell {
                    widget: self.object.widget.measured(spec),
                    weight: self.object.weight,
                },
            }
        } else {
            Link { parent: self.parent.measured_at(i, spec), object: self.object }
        }
    }

    open spec fn arranged_at(&self, i: int, position: Position) -> Self {
        if i == self.parent.cell_count() {
            Link {
                parent: self.parent,
                object: Cell {
                    widget: self.object.widget.arranged(position),
                    weight: self.object.weight,
                },
            }
        } else {
            Link { parent: self.parent.arranged_at(i, position), object: self.object }
        }
    }

    open spec fn attached_at(&self, i: int, parent: usize, self_index: usize) -> Self {
        if i == self.parent.cell_count() {
            Link {
                parent: self.parent,
                object: Cell {
                    widget: self.object.widget.attached(parent, self_index),
                    weight: self.object.weight,
                },
            }
        } else {
            Link { parent: self.parent.attached_at(i, parent, self_index), object: self.object }
        }
    }

    open spec fn after_input_at(&self, i: int, idx: nat, event: InputEvent) -> Self {
        if i == self.parent.cell_count() {
            Link {
                parent: self.parent,
                object: Cell {
                    widget: self.object.widget.after_input(idx, event),
                    weight: self.object.weight,
                },
            }
        } else {
            Link { parent: self.parent.after_input_at(i, idx, event), object: self.object }
        }
    }

    open spec fn input_activates_at(&self, i: int, idx: nat, event: InputEvent) -> bool {
        if i == self.parent.cell_count() {
            self.object.widget.input_activates(idx, event)
        } else {
            self.parent.input_activates_at(i, idx, event)
        }
    }

    open spec fn input_flags_at(&self, i: int, idx: nat, event: InputEvent) -> Option<u32> {
        if i == self.parent.cell_count() {
            self.object.widget.input_flags(idx, event)
        } else {
            self.parent.input_flags_at(i, idx, event)
        }
    }

    proof fn lemma_measured_at(&self, i: int, spec: MeasureSpec) {
        if i == self.parent.cell_count() {
            self.object.widget.lemma_measured_size(spec);
        } else {
            self.parent.lemma_measured_at(i, spec);
        }
    }

    proof fn lemma_arranged_at(&self, i: int, position: Position) {
        if i == self.parent.cell_count() {
            self.object.widget.lemma_arrange_round_trip(position);
        } else {
            self.parent.lemma_arranged_at(i, position);
        }
    }

    fn count(&self) -> (n: usize) {
        self.parent.count() + 1
    }

    fn weight(&self, i: usize) -> (w: u32) {
        if i == self.parent.count() {
            self.object.weight
        } else {
            self.parent.weight(i)
        }
    }

    fn bounding_box_at(&self, i: usize) -> (b: BoundingBox) {
        if i == self.parent.count() {
            self.object.widget.bounding_box()
        } else {
            self.parent.bounding_box_at(i)
        }
    }

    fn children_of(&self, i: usize) -> (n: usize) {
        if i == self.parent.count() {
            self.object.widget.children()
        } else {
            self.parent.children_of(i)
        }
    }

    fn child_bounding_box_at(&self, i: usize, idx: usize) -> (b: BoundingBox) {
        if i == self.parent.count() {
            self.object.widget.child_bounding_box(idx)
        } else {
            self.parent.child_bounding_box_at(i, idx)
        }
    }

    fn test_input_at(&self, i: usize, event: InputEvent) -> (r: Option<usize>) {
        if i == self.parent.count() {
            self.object.widget.test_input(event)
        } else {
            self.parent.test_input_at(i, event)
        }
    }

    fn measure_at(&mut self, i: usize, spec: MeasureSpec) {
        if i == self.parent.count() {
            self.object.widget.measure(spec);
        } else {
            self.parent.measure_at(i, spec);
        }
    }

    fn arrange_at(&mut self, i: usize, position: Position) {
        if i == self.parent.count() {
            self.object.widget.arrange(position);
        } else {
            self.parent.arrange_at(i, position);
        }
    }

    fn attach_at(&mut self, i: usize, parent: usize, self_index: usize) {
        if i == self.parent.count() {
            self.object.widget.attach(parent, self_index);
        } else {
            self.parent.attach_at(i, parent, self_index);
        }
    }

    fn handle_input_at(&mut self, i: usize, idx: usize, event: InputEvent) -> (r: Delivery) {
        if i == self.parent.count() {
            self.object.widget.handle_input(idx, event)
        } else {
            self.parent.handle_input_at(i, idx, event)
        }
    }

    fn update_at(&mut self, i: usize) {
        if i == self.parent.count() {
            self.object.widget.update();
        } else {
            self.parent.update_at(i);
        }
    }
}

} // verus!
