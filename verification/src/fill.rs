//! A decorator that makes its child fill the room its parent offers.

use vstd::prelude::*;
use crate::geometry::BoundingBox;
use crate::geometry::MeasuredSize;
use crate::geometry::Position;
use crate::input::Delivery;
use crate::input::InputEvent;
use crate::measurement::MeasureConstraint;
use crate::measurement::MeasureSpec;
use crate::widget::Widget;

verus! {

/// A limit made mandatory: where the constraint names an extent, exactly
/// that extent; where it names none, no constraint.
pub open spec fn forced(constraint: MeasureConstraint) -> MeasureConstraint {
    match constraint {
        MeasureConstraint::AtMost(size) => MeasureConstraint::Exactly(size),
        MeasureConstraint::Exactly(size) => MeasureConstraint::Exactly(size),
        MeasureConstraint::Unspecified => MeasureConstraint::Unspecified,
    }
}

/// Makes a limit mandatory.
pub fn force(constraint: MeasureConstraint) -> (r: MeasureConstraint)
    ensures
        r == forced(constraint),
{
    match constraint {
        MeasureConstraint::AtMost(size) => MeasureConstraint::Exactly(size),
        MeasureConstraint::Exactly(size) => MeasureConstraint::Exactly(size),
        MeasureConstraint::Unspecified => MeasureConstraint::Unspecified,
    }
}

/// A widget that is told to take all the room there is along one axis or
/// both, whatever it would take by itself.
pub struct FillParent<W> {
    pub inner: W,
    pub horizontal: bool,
    pub vertical: bool,
    pub parent_index: usize,
}

impl<W: Widget> FillParent<W> {
    /// The constraints the child is measured under.
    pub open spec fn filled(&self, spec: MeasureSpec) -> MeasureSpec {
        MeasureSpec {
            width: if self.horizontal {
                forced(spec.width)
            } else {
                spec.width
            },
            height: if self.vertical {
                forced(spec.height)
            } else {
                spec.height
            },
        }
    }

    /// Makes `inner` fill the width.
    pub fn horizontal(inner: W) -> (r: Self)
        ensures
            r == (FillParent { inner, horizontal: true, vertical: false, parent_index: 0 }),
    {
        FillParent { inner, horizontal: true, vertical: false, parent_index: 0 }
    }

    /// Makes `inner` fill the height.
    pub fn vertical(inner: W) -> (r: Self)
        ensures
            r == (FillParent { inner, horizontal: false, vertical: true, parent_index: 0 }),
    {
        FillParent { inner, horizontal: false, vertical: true, parent_index: 0 }
    }

    /// Makes `inner` fill both the width and the height.
    pub fn both(inner: W) -> (r: Self)
        ensures
            r == (FillParent { inner, horizontal: true, vertical: true, parent_index: 0 }),
    {
        FillParent { inner, horizontal: true, vertical: true, parent_index: 0 }
    }
}

impl<W: Widget> Widget for FillParent<W> {
    open spec fn wf(&self) -> bool {
        self.inner.wf() && self.inner.child_count() < usize::MAX
    }

    open spec fn bounds(&self) -> BoundingBox {
        self.inner.bounds()
    }

    open spec fn size_for(&self, spec: MeasureSpec) -> MeasuredSize {
        self.inner.size_for(self.filled(spec))
    }

    open spec fn child_count(&self) -> nat {
        1 + self.inner.child_count()
    }

    open spec fn child_bounds(&self, idx: nat) -> BoundingBox {
        if idx == 0 {
            self.inner.bounds()
        } else {
            self.inner.child_bounds((idx - 1) as nat)
        }
    }

    open spec fn hit(&self, event: InputEvent) -> Option<nat> {
        match self.inner.hit(event) {
            Some(i) => Some(i + 1),
            None => None,
        }
    }

    open spec fn parent(&self) -> usize {
        self.parent_index
    }

    open spec fn with_state(&self, bits: u32) -> Self {
        FillParent { inner: self.inner.with_state(bits), ..*self }
    }

    open spec fn attached(&self, parent: usize, self_index: usize) -> Self {
        FillParent {
            parent_index: parent,
            inner: self.inner.attached(self_index, (self_index + 1) as usize),
            ..*self
        }
    }

    open spec fn measured(&self, spec: MeasureSpec) -> Self {
        FillParent { inner: self.inner.measured(self.filled(spec)), ..*self }
    }

    open spec fn arranged(&self, position: Position) -> Self {
        FillParent { inner: self.inner.arranged(position), ..*self }
    }

    open spec fn with_parent(&self, index: usize) -> Self {
        FillParent { parent_index: index, ..*self }
    }

    open spec fn updated_to(&self, after: Self) -> bool {
        &&& self.inner.updated_to(after.inner)
        &&& after == (FillParent { inner: after.inner, ..*self })
    }

    open spec fn selectable(&self) -> bool {
        false
    }

    open spec fn with_selection(&self, selected: bool) -> Self {
        *self
    }

    open spec fn after_input(&self, idx: nat, event: InputEvent) -> Self {
        if idx == 0 {
            *self
        } else {
            FillParent { inner: self.inner.after_input((idx - 1) as nat, event), ..*self }
        }
    }

    open spec fn input_activates(&self, idx: nat, event: InputEvent) -> bool {
        idx != 0 && self.inner.input_activates((idx - 1) as nat, event)
    }

    open spec fn input_flags(&self, idx: nat, event: InputEvent) -> Option<u32> {
        if idx == 0 {
            None
        } else {
            self.inner.input_flags((idx - 1) as nat, event)
        }
    }

    proof fn lemma_arrange_round_trip(&self, origin: Position) {
        self.inner.lemma_arrange_round_trip(origin);
    }

    proof fn lemma_measured_size(&self, spec: MeasureSpec) {
        self.inner.lemma_measured_size(self.filled(spec));
    }

    /// Records `parent` and attaches the child below this node: the child
    /// records `self_index` as its parent and is node `self_index + 1`.
    fn attach(&mut self, parent: usize, self_index: usize)
        ensures
            final(self).inner.parent() == self_index,
            final(self).inner == old(self).inner.attached(self_index, (self_index + 1) as usize),
    {
        self.parent_index = parent;
        self.inner.attach(self_index, self_index + 1);
    }

    fn arrange(&mut self, position: Position) {
        self.inner.arrange(position);
    }

    fn bounding_box(&self) -> (b: BoundingBox) {
        self.inner.bounding_box()
    }

    /// Measures the child with the limit made mandatory along each axis it
    /// fills.
    fn measure(&mut self, spec: MeasureSpec)
        ensures
            final(self).horizontal == old(self).horizontal,
            final(self).vertical == old(self).vertical,
    {
        let width = if self.horizontal {
            force(spec.width)
        } else {
            spec.width
        };
        let height = if self.vertical {
            force(spec.height)
        } else {
            spec.height
        };
        self.inner.measure(MeasureSpec { width, height });
    }

    fn children(&self) -> (n: usize) {
        1 + self.inner.children()
    }

    fn child_bounding_box(&self, idx: usize) -> (b: BoundingBox) {
        if idx == 0 {
            self.inner.bounding_box()
        } else {
            self.inner.child_bounding_box(idx - 1)
        }
    }

    fn test_input(&self, event: InputEvent) -> (r: Option<usize>) {
        match self.inner.test_input(event) {
            Some(i) => Some(i + 1),
            None => None,
        }
    }

    /// The decorator takes no input itself and keeps no flags; an event for
    /// a node below it is passed on.
    fn handle_input(&mut self, idx: usize, event: InputEvent) -> (r: Delivery) {
        if idx == 0 {
            Delivery { activated: false, flags: None }
        } else {
            self.inner.handle_input(idx - 1, event)
        }
    }

    fn update(&mut self)
        ensures
            final(self).horizontal == old(self).horizontal,
            final(self).vertical == old(self).vertical,
    {
        self.inner.update();
    }

    fn parent_index(&self) -> (r: usize) {
        self.parent_index
    }

    fn set_parent(&mut self, index: usize) {
        self.parent_index = index;
    }

    fn change_state(&mut self, state: u32) {
        self.inner.change_state(state);
    }

    /// Does nothing: the decorator cannot be selected.
    fn change_selection(&mut self, selected: bool)
        ensures
            *final(self) == *old(self),
    {
    }

    fn is_selectable(&self) -> (r: bool)
        ensures
            !r,
    {
        false
    }
}

} // verus!
