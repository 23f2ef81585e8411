//! A decorator that shows or hides its child.

use vstd::prelude::*;
use crate::data::KeepWidget;
use crate::data::WidgetData;
use crate::geometry::BoundingBox;
use crate::geometry::MeasuredSize;
use crate::geometry::Position;
use crate::input::Delivery;
use crate::input::InputEvent;
use crate::measurement::MeasureSpec;
use crate::widget::Widget;
use crate::wrapper::Wrapper;

verus! {

/// What a hidden widget does to the layout around it.
#[derive(Clone, Copy, Debug, PartialEq, Eq, Structural)]
pub enum HiddenPolicy {
    /// The hidden widget keeps the room it would take if it were shown.
    Reserve,
    /// The hidden widget takes no room.
    Collapse,
}

/// A widget that can be hidden. While hidden it is not arranged, not drawn
/// and takes no input. It is still measured, so that the layout around it
/// does not move when it is shown again, unless the policy is `Collapse`.
/// The decorator remembers where it was placed last, shown or hidden.
pub struct Visibility<W> {
    pub inner: W,
    pub visible: bool,
    pub policy: HiddenPolicy,
    pub position: Position,
    pub parent_index: usize,
}

impl<W: Widget> Visibility<W> {
    /// Shows `inner`; when hidden later, it keeps its room.
    pub fn new(inner: W) -> (r: Self)
        ensures
            r.inner == inner,
            r.visible,
            r.policy == HiddenPolicy::Reserve,
            r.position == (Position { x: 0, y: 0 }),
            r.parent_index == 0,
    {
        Visibility {
            inner,
            visible: true,
            policy: HiddenPolicy::Reserve,
            position: Position::default(),
            parent_index: 0,
        }
    }

    /// Whether the widget is hidden and takes no room.
    pub open spec fn collapsed(&self) -> bool {
        !self.visible && self.policy == HiddenPolicy::Collapse
    }

    /// Shows or hides the widget.
    pub fn set_visible(&mut self, visible: bool)
        ensures
            *final(self) == (Visibility { visible, ..*old(self) }),
    {
        self.visible = visible;
    }

    /// Chooses what the widget does to the layout while hidden.
    pub fn when_hidden(self, policy: HiddenPolicy) -> (r: Self)
        ensures
            r == (Visibility { policy, ..self }),
    {
        let mut this = self;
        this.policy = policy;
        this
    }

    /// Binds the widget to `data`, with no handler for the data yet.
    pub fn bind<D: WidgetData>(self, data: D) -> (r: Wrapper<Visibility<W>, D, KeepWidget>)
        ensures
            r.widget == self,
            r.data_holder.data == data,
            r.data_holder.last_version is None,
    {
        Wrapper::wrap(self, data)
    }

    /// Whether the widget is to be drawn.
    pub fn is_drawn(&self) -> (r: bool)
        ensures
            r == self.visible,
    {
        self.visible
    }
}

impl<W: Widget> Widget for Visibility<W> {
    open spec fn wf(&self) -> bool {
        &&& self.inner.wf()
        &&& self.inner.child_count() < usize::MAX
    }

    open spec fn bounds(&self) -> BoundingBox {
        BoundingBox {
            position: self.position,
            size: if self.collapsed() {
                MeasuredSize { width: 0, height: 0 }
            } else {
                self.inner.bounds().size
            },
        }
    }

    open spec fn size_for(&self, spec: MeasureSpec) -> MeasuredSize {
        if self.collapsed() {
            MeasuredSize { width: 0, height: 0 }
        } else {
            self.inner.size_for(spec)
        }
    }

    open spec fn child_count(&self) -> nat {
        1 + self.inner.child_count()
    }

    open spec fn child_bounds(&self, idx: nat) -> BoundingBox {
        if idx == 0 {
            self.inner.bounds()
        } else {
            self.inner.child_bounds((idx - 1) as nat)
        }
    }

    open spec fn hit(&self, event: InputEvent) -> Option<nat> {
        if self.visible {
            match self.inner.hit(event) {
                Some(i) => Some(i + 1),
                None => None,
            }
        } else {
            None
        }
    }

    open spec fn parent(&self) -> usize {
        self.parent_index
    }

    open spec fn with_state(&self, bits: u32) -> Self {
        Visibility { inner: self.inner.with_state(bits), ..*self }
    }

    open spec fn attached(&self, parent: usize, self_index: usize) -> Self {
        Visibility {
            parent_index: parent,
            inner: self.inner.attached(self_index, (self_index + 1) as usize),
            ..*self
        }
    }

    open spec fn measured(&self, spec: MeasureSpec) -> Self {
        Visibility { inner: self.inner.measured(spec), ..*self }
    }

    open spec fn arranged(&self, position: Position) -> Self {
        Visibility {
            position,
            inner: if self.visible {
                self.inner.arranged(position)
            } else {
                self.inner
            },
            ..*self
        }
    }

    open spec fn with_parent(&self, index: usize) -> Self {
        Visibility { parent_index: index, ..*self }
    }

    open spec fn updated_to(&self, after: Self) -> bool {
        &&& self.inner.updated_to(after.inner)
        &&& after == (Visibility { inner: after.inner, ..*self })
    }

    open spec fn selectable(&self) -> bool {
        false
    }

    open spec fn with_selection(&self, selected: bool) -> Self {
        *self
    }

    open spec fn after_input(&self, idx: nat, event: InputEvent) -> Self {
        if idx == 0 {
            *self
        } else {
            Visibility { inner: self.inner.after_input((idx - 1) as nat, event), ..*self }
        }
    }

    open spec fn input_activates(&self, idx: nat, event: InputEvent) -> bool {
        idx != 0 && self.inner.input_activates((idx - 1) as nat, event)
    }

    open spec fn input_flags(&self, idx: nat, event: InputEvent) -> Option<u32> {
        if idx == 0 {
            None
        } else {
            self.inner.input_flags((idx - 1) as nat, event)
        }
    }

    proof fn lemma_arrange_round_trip(&self, origin: Position) {
        self.inner.lemma_arrange_round_trip(origin);
    }

    proof fn lemma_measured_size(&self, spec: MeasureSpec) {
        self.inner.lemma_measured_size(spec);
    }

    /// Records `parent` and attaches the child below this node: the child
    /// records `self_index` as its parent and is node `self_index + 1`.
    fn attach(&mut self, parent: usize, self_index: usize)
        ensures
            final(self).inner.parent() == self_index,
            final(self).inner == old(self).inner.attached(self_index, (self_index + 1) as usize),
    {
        self.parent_index = parent;
        self.inner.attach(self_index, self_index + 1);
    }

    /// Records the position and, if the widget is shown, places the child
    /// there. A hidden child stays where it was.
    fn arrange(&mut self, position: Position)
        ensures
            final(self).visible == old(self).visible,
            final(self).policy == old(self).policy,
            !old(self).visible ==> final(self).inner == old(self).inner,
            old(self).visible ==> final(self).inner.bounds().position == position,
    {
        self.position = position;
        if self.visible {
            self.inner.arrange(position);
        }
    }

    fn bounding_box(&self) -> (b: BoundingBox) {
        let inner = self.inner.bounding_box();
        let collapsed = !self.visible && match self.policy {
            HiddenPolicy::Collapse => true,
            HiddenPolicy::Reserve => false,
        };
        BoundingBox {
            position: self.position,
            size: if collapsed {
                MeasuredSize { width: 0, height: 0 }
            } else {
                inner.size
            },
        }
    }

    /// Measures the child, shown or hidden.
    fn measure(&mut self, spec: MeasureSpec)
        ensures
            final(self).visible == old(self).visible,
            final(self).policy == old(self).policy,
            final(self).inner.bounds().size == old(self).inner.size_for(spec),
    {
        self.inner.measure(spec);
    }

    fn children(&self) -> (n: usize) {
        1 + self.inner.children()
    }

    fn child_bounding_box(&self, idx: usize) -> (b: BoundingBox) {
        if idx == 0 {
            self.inner.bounding_box()
        } else {
            self.inner.child_bounding_box(idx - 1)
        }
    }

    /// A hidden widget answers no hit test.
    fn test_input(&self, event: InputEvent) -> (r: Option<usize>) {
        if self.visible {
            match self.inner.test_input(event) {
                Some(i) => Some(i + 1),
                None => None,
            }
        } else {
            None
        }
    }

    /// The decorator takes no input itself and keeps no flags; an event for
    /// a node below it is passed on.
    fn handle_input(&mut self, idx: usize, event: InputEvent) -> (r: Delivery) {
        if idx == 0 {
            Delivery { activated: false, flags: None }
        } else {
            self.inner.handle_input(idx - 1, event)
        }
    }

    fn update(&mut self)
        ensures
            final(self).visible == old(self).visible,
            final(self).policy == old(self).policy,
    {
        self.inner.update();
    }

    fn parent_index(&self) -> (r: usize) {
        self.parent_index
    }

    fn set_parent(&mut self, index: usize) {
        self.parent_index = index;
    }

    fn change_state(&mut self, state: u32) {
        self.inner.change_state(state);
    }

    /// Does nothing: the decorator cannot be selected.
    fn change_selection(&mut self, selected: bool)
        ensures
            *final(self) == *old(self),
    {
    }

    fn is_selectable(&self) -> (r: bool)
        ensures
            !r,
    {
        false
    }
}

} // verus!
