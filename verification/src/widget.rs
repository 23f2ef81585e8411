//! What every node of the widget tree can do.

use vstd::prelude::*;
use crate::geometry::BoundingBox;
use crate::geometry::MeasuredSize;
use crate::geometry::Position;
use crate::input::Delivery;
use crate::input::InputEvent;
use crate::measurement::MeasureSpec;
use crate::state::WidgetState;

verus! {

/// A handler that reacts to a change of a widget's interaction state by
/// restyling what the widget shows. `T` is the part of the widget that the
/// handler may alter.
pub trait StateObserver<T> {
    /// What the handler turns `target` into when told of `state`.
    spec fn reaction(&self, target: T, state: WidgetState) -> T;

    /// Tells the handler that the widget now has `state`.
    fn on_state_changed(&self, target: &mut T, state: WidgetState)
        ensures
            *final(target) == self.reaction(*old(target), state),
    ;
}

/// The handler a widget has until one is registered: it changes nothing.
#[derive(Clone, Copy, Debug)]
pub struct NoObserver;

impl<T> StateObserver<T> for NoObserver {
    open spec fn reaction(&self, target: T, state: WidgetState) -> T {
        target
    }

    fn on_state_changed(&self, target: &mut T, state: WidgetState) {
    }
}

/// A node of the widget tree.
///
/// The descendants of a node are numbered in pre-order, the node itself left
/// out: index 0 is its first child, followed by that child's descendants,
/// then its next child, and so on. A hit test counts the node itself as 0
/// and its descendants from 1, so a hit on descendant `i` is reported as
/// `i + 1`.
pub trait Widget: Sized {
    /// Whether the node and everything below it can be addressed: the number
    /// of descendants of every node fits in `usize`.
    spec fn wf(&self) -> bool;

    /// The box the node occupies.
    spec fn bounds(&self) -> BoundingBox;

    /// The size the node reports when it is measured under `spec`.
    spec fn size_for(&self, spec: MeasureSpec) -> MeasuredSize;

    /// The number of descendants.
    spec fn child_count(&self) -> nat;

    /// The box of the descendant with the given index.
    spec fn child_bounds(&self, idx: nat) -> BoundingBox;

    /// The answer of a hit test for `event`.
    spec fn hit(&self, event: InputEvent) -> Option<nat>;

    /// The index of the node's parent in the numbering of the whole tree.
    spec fn parent(&self) -> usize;

    /// The node after it and everything below it were told of new
    /// interaction flags.
    spec fn with_state(&self, bits: u32) -> Self;

    /// The node after it was attached below `parent` as node `self_index` of
    /// the tree: it has recorded `parent`, and its descendants are numbered
    /// from `self_index + 1` on in pre-order, each having recorded the
    /// number of the node above it.
    spec fn attached(&self, parent: usize, self_index: usize) -> Self;

    /// The node after it was measured under `spec`.
    spec fn measured(&self, spec: MeasureSpec) -> Self;

    /// The node after it was placed at `position`.
    spec fn arranged(&self, position: Position) -> Self;

    /// The node after `index` was recorded as the index of its parent.
    spec fn with_parent(&self, index: usize) -> Self;

    /// Whether `after` is what an update pass can make of the node: every
    /// node of the subtree that is bound to data was shown the data if it
    /// had changed, and nothing else was altered.
    spec fn updated_to(&self, after: Self) -> bool;

    /// Whether the node can be selected.
    spec fn selectable(&self) -> bool;

    /// The node after it was selected or deselected.
    spec fn with_selection(&self, selected: bool) -> Self;

    /// The node after `event` was delivered to node `idx` of its subtree:
    /// the node itself for 0, its descendant `idx - 1` otherwise.
    spec fn after_input(&self, idx: nat, event: InputEvent) -> Self;

    /// Whether delivering `event` to node `idx` of the subtree activates
    /// that node.
    spec fn input_activates(&self, idx: nat, event: InputEvent) -> bool;

    /// The flags that node `idx` of the subtree takes when `event` is
    /// delivered to it, if it keeps flags that input changes.
    spec fn input_flags(&self, idx: nat, event: InputEvent) -> Option<u32>;

    /// Placing a node and asking for its box gives back the place: the box
    /// of a node that was placed at `origin` starts at `origin`, whatever
    /// room the node keeps inside itself.
    proof fn lemma_arrange_round_trip(&self, origin: Position)
        ensures
            self.arranged(origin).bounds().position == origin,
            self.arranged(origin).bounds().size == self.bounds().size,
    ;

    /// The box of a node that was measured has the size the node reports
    /// for the constraints, and is where it was.
    proof fn lemma_measured_size(&self, spec: MeasureSpec)
        ensures
            self.measured(spec).bounds().size == self.size_for(spec),
            self.measured(spec).bounds().position == self.bounds().position,
    ;

    /// Records the parent's index and numbers the subtree, the node itself
    /// being `self_index`.
    fn attach(&mut self, parent: usize, self_index: usize)
        requires
            old(self).wf(),
            self_index + old(self).child_count() <= usize::MAX,
        ensures
            *final(self) == old(self).attached(parent, self_index),
            final(self).wf(),
            final(self).parent() == parent,
            final(self).child_count() == old(self).child_count(),
            final(self).bounds() == old(self).bounds(),
            forall|s: MeasureSpec| #[trigger] final(self).size_for(s) == old(self).size_for(s),
    ;

    /// Places the node at `position`. The box it then reports starts exactly
    /// there and keeps its measured size.
    fn arrange(&mut self, position: Position)
        requires
            old(self).wf(),
        ensures
            *final(self) == old(self).arranged(position),
            final(self).wf(),
            final(self).bounds() == (BoundingBox { position, size: old(self).bounds().size }),
            final(self).child_count() == old(self).child_count(),
            forall|s: MeasureSpec| #[trigger] final(self).size_for(s) == old(self).size_for(s),
    ;

    /// The box the node occupies.
    fn bounding_box(&self) -> (b: BoundingBox)
        requires
            self.wf(),
        ensures
            b == self.bounds(),
    ;

    /// Measures the node under `spec`. Its box takes the measured size and
    /// stays where it is.
    fn measure(&mut self, spec: MeasureSpec)
        requires
            old(self).wf(),
        ensures
            *final(self) == old(self).measured(spec),
            final(self).wf(),
            final(self).bounds() == (BoundingBox {
                position: old(self).bounds().position,
                size: old(self).size_for(spec),
            }),
            final(self).child_count() == old(self).child_count(),
            forall|s: MeasureSpec| #[trigger] final(self).size_for(s) == old(self).size_for(s),
    ;

    /// The number of descendants.
    fn children(&self) -> (n: usize)
        requires
            self.wf(),
        ensures
            n == self.child_count(),
    ;

    /// The box of the descendant with index `idx`.
    fn child_bounding_box(&self, idx: usize) -> (b: BoundingBox)
        requires
            self.wf(),
            idx < self.child_count(),
        ensures
            b == self.child_bounds(idx as nat),
    ;

    /// Finds the deepest node that `event` hits: `Some(0)` for the node
    /// itself, `Some(i + 1)` for its descendant `i`, `None` for a miss.
    fn test_input(&self, event: InputEvent) -> (r: Option<usize>)
        requires
            self.wf(),
        ensures
            r matches Some(i) ==> self.hit(event) == Some(i as nat) && i <= self.child_count(),
            r is None ==> self.hit(event) is None,
    ;

    /// Delivers `event` to node `idx` of the subtree: the node itself for 0,
    /// its descendant `idx - 1` otherwise, as a hit test numbers them. The
    /// flags that the node takes are taken by every node on the path from
    /// this node down to it as well, so that a decorator around a button can
    /// react to what happens to the button. Nodes off that path do not see
    /// the event. Returns whether the event activated the node it was
    /// delivered to, and the flags that node took.
    fn handle_input(&mut self, idx: usize, event: InputEvent) -> (r: Delivery)
        requires
            old(self).wf(),
            idx <= old(self).child_count(),
        ensures
            *final(self) == old(self).after_input(idx as nat, event),
            r.activated == old(self).input_activates(idx as nat, event),
            r.flags == old(self).input_flags(idx as nat, event),
            final(self).wf(),
            final(self).child_count() == old(self).child_count(),
    ;

    /// Brings the node up to date with the data it is bound to.
    fn update(&mut self)
        requires
            old(self).wf(),
        ensures
            old(self).updated_to(*final(self)),
            final(self).wf(),
            final(self).child_count() == old(self).child_count(),
    ;

    /// The index of the node's parent.
    fn parent_index(&self) -> (r: usize)
        ensures
            r == self.parent(),
    ;

    /// Records the index of the node's parent.
    fn set_parent(&mut self, index: usize)
        requires
            old(self).wf(),
        ensures
            *final(self) == old(self).with_parent(index),
            final(self).wf(),
            final(self).parent() == index,
            final(self).child_count() == old(self).child_count(),
            final(self).bounds() == old(self).bounds(),
            forall|s: MeasureSpec| #[trigger] final(self).size_for(s) == old(self).size_for(s),
    ;

    /// Tells the node and everything below it of new interaction flags.
    fn change_state(&mut self, state: u32)
        requires
            old(self).wf(),
        ensures
            *final(self) == old(self).with_state(state),
            final(self).wf(),
            final(self).child_count() == old(self).child_count(),
    ;

    /// Selects or deselects the node, where it can be selected.
    fn change_selection(&mut self, selected: bool)
        requires
            old(self).wf(),
        ensures
            *final(self) == old(self).with_selection(selected),
            final(self).wf(),
            final(self).child_count() == old(self).child_count(),
    ;

    /// Whether the node can be selected.
    fn is_selectable(&self) -> (r: bool)
        ensures
            r == self.selectable(),
    ;
}

} // verus!
