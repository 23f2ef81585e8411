//! A decorator that paints the box of its child before the child is drawn.

use vstd::prelude::*;
use crate::data::KeepWidget;
use crate::data::NoDataHolder;
use crate::geometry::BoundingBox;
use crate::geometry::MeasuredSize;
use crate::geometry::Position;
use crate::input::Delivery;
use crate::input::InputEvent;
use crate::measurement::MeasureSpec;
use crate::state::STATE_IDLE;
use crate::widget::Widget;
use crate::wrapper::WidgetWrapper;

verus! {

/// How a background looks: its colour, in the colour type of the display.
pub trait BackgroundProperties: Sized {
    type Color;

    /// The properties with the colour replaced.
    spec fn with_color(&self, color: Self::Color) -> Self;

    /// Replaces the colour.
    fn background_color(&mut self, color: Self::Color)
        ensures
            *final(self) == old(self).with_color(color),
    ;
}

/// A background of one colour.
#[derive(Debug)]
pub struct BackgroundStyle<C> {
    pub color: C,
}

impl<C> BackgroundStyle<C> {
    /// A background of the given colour.
    pub fn new(color: C) -> (r: Self)
        ensures
            r.color == color,
    {
        BackgroundStyle { color }
    }
}

impl<C> BackgroundProperties for BackgroundStyle<C> {
    type Color = C;

    open spec fn with_color(&self, color: C) -> Self {
        BackgroundStyle { color }
    }

    fn background_color(&mut self, color: C) {
        self.color = color;
    }
}

/// A widget with a painted background. It takes the room of the widget and
/// no more.
pub struct Background<W, P> {
    pub inner: W,
    pub background_properties: P,
    pub parent_index: usize,
}

impl<W: Widget, P: BackgroundProperties> Background<W, P> {
    /// Paints the box of `inner` with the given properties.
    pub fn with_properties(inner: W, background_properties: P) -> (r: WidgetWrapper<
        Self,
        NoDataHolder,
        KeepWidget,
    >)
        ensures
            r.widget.inner == inner,
            r.widget.background_properties == background_properties,
            r.widget.parent_index == 0,
            r.parent_index == 0,
            r.state.bits == STATE_IDLE,
    {
        WidgetWrapper::new(Background { inner, background_properties, parent_index: 0 })
    }

    /// Replaces the colour of the background.
    pub fn set_background_color(&mut self, color: P::Color)
        ensures
            final(self).background_properties == old(self).background_properties.with_color(
                color,
            ),
            final(self).inner == old(self).inner,
            final(self).parent_index == old(self).parent_index,
    {
        self.background_properties.background_color(color);
    }
}

impl<W: Widget, P: BackgroundProperties, DH, O> WidgetWrapper<Background<W, P>, DH, O> {
    /// Replaces the colour of the background.
    pub fn background_color(self, color: P::Color) -> (r: Self)
        ensures
            r.widget.background_properties == self.widget.background_properties.with_color(
                color,
            ),
            r.widget.inner == self.widget.inner,
            r.widget.parent_index == self.widget.parent_index,
            r.parent_index == self.parent_index,
            r.data_holder == self.data_holder,
            r.on_state_changed == self.on_state_changed,
            r.state == self.state,
    {
        let mut this = self;
        this.widget.set_background_color(color);
        this
    }
}

impl<W: Widget, P: BackgroundProperties> Widget for Background<W, P> {
    open spec fn wf(&self) -> bool {
        self.inner.wf() && self.inner.child_count() < usize::MAX
    }

    open spec fn bounds(&self) -> BoundingBox {
        self.inner.bounds()
    }

    open spec fn size_for(&self, spec: MeasureSpec) -> MeasuredSize {
        self.inner.size_for(spec)
    }

    open spec fn child_count(&self) -> nat {
        1 + self.inner.child_count()
    }

    open spec fn child_bounds(&self, idx: nat) -> BoundingBox {
        if idx == 0 {
            self.inner.bounds()
        } else {
            self.inner.child_bounds((idx - 1) as nat)
        }
    }

    open spec fn hit(&self, event: InputEvent) -> Option<nat> {
        match self.inner.hit(event) {
            Some(i) => Some(i + 1),
            None => None,
        }
    }

    open spec fn parent(&self) -> usize {
        self.parent_index
    }

    open spec fn with_state(&self, bits: u32) -> Self {
        Background { inner: self.inner.with_state(bits), ..*self }
    }

    open spec fn attached(&self, parent: usize, self_index: usize) -> Self {
        Background {
            parent_index: parent,
            inner: self.inner.attached(self_index, (self_index + 1) as usize),
            ..*self
        }
    }

    open spec fn measured(&self, spec: MeasureSpec) -> Self {
        Background { inner: self.inner.measured(spec), ..*self }
    }

    open spec fn arranged(&self, position: Position) -> Self {
        Background { inner: self.inner.arranged(position), ..*self }
    }

    open spec fn with_parent(&self, index: usize) -> Self {
        Background { parent_index: index, ..*self }
    }

    open spec fn updated_to(&self, after: Self) -> bool {
        &&& self.inner.updated_to(after.inner)
        &&& after == (Background { inner: after.inner, ..*self })
    }

    open spec fn selectable(&self) -> bool {
        false
    }

    open spec fn with_selection(&self, selected: bool) -> Self {
        *self
    }

    open spec fn after_input(&self, idx: nat, event: InputEvent) -> Self {
        if idx == 0 {
            *self
        } else {
            Background { inner: self.inner.after_input((idx - 1) as nat, event), ..*self }
        }
    }

    open spec fn input_activates(&self, idx: nat, event: InputEvent) -> bool {
        idx != 0 && self.inner.input_activates((idx - 1) as nat, event)
    }

    open spec fn input_flags(&self, idx: nat, event: InputEvent) -> Option<u32> {
        if idx == 0 {
            None
        } else {
            self.inner.input_flags((idx - 1) as nat, event)
        }
    }

    proof fn lemma_arrange_round_trip(&self, origin: Position) {
        self.inner.lemma_arrange_round_trip(origin);
    }

    proof fn lemma_measured_size(&self, spec: MeasureSpec) {
        self.inner.lemma_measured_size(spec);
    }

    /// Records `parent` and attaches the child below this node: the child
    /// records `self_index` as its parent and is node `self_index + 1`.
    fn attach(&mut self, parent: usize, self_index: usize)
        ensures
            final(self).inner.parent() == self_index,
            final(self).inner == old(self).inner.attached(self_index, (self_index + 1) as usize),
    {
        self.parent_index = parent;
        self.inner.attach(self_index, self_index + 1);
    }

    fn arrange(&mut self, position: Position) {
        self.inner.arrange(position);
    }

    fn bounding_box(&self) -> (b: BoundingBox) {
        self.inner.bounding_box()
    }

    fn measure(&mut self, spec: MeasureSpec) {
        self.inner.measure(spec);
    }

    fn children(&self) -> (n: usize) {
        1 + self.inner.children()
    }

    fn child_bounding_box(&self, idx: usize) -> (b: BoundingBox) {
        if idx == 0 {
            self.inner.bounding_box()
        } else {
            self.inner.child_bounding_box(idx - 1)
        }
    }

    fn test_input(&self, event: InputEvent) -> (r: Option<usize>) {
        match self.inner.test_input(event) {
            Some(i) => Some(i + 1),
            None => None,
        }
    }

    /// The decorator takes no input itself and keeps no flags; an event for
    /// a node below it is passed on.
    fn handle_input(&mut self, idx: usize, event: InputEvent) -> (r: Delivery) {
        if idx == 0 {
            Delivery { activated: false, flags: None }
        } else {
            self.inner.handle_input(idx - 1, event)
        }
    }

    fn update(&mut self)
        ensures
            final(self).background_properties == old(self).background_properties,
    {
        self.inner.update();
    }

    fn parent_index(&self) -> (r: usize) {
        self.parent_index
    }

    fn set_parent(&mut self, index: usize) {
        self.parent_index = index;
    }

    /// Tells the child of the new flags. The background keeps no flags
    /// itself: the wrapper around it does.
    fn change_state(&mut self, state: u32) {
        self.inner.change_state(state);
    }

    /// Does nothing: a background cannot be selected.
    fn change_selection(&mut self, selected: bool)
        ensures
            *final(self) == *old(self),
    {
    }

    fn is_selectable(&self) -> (r: bool)
        ensures
            !r,
    {
        false
    }
}

} // verus!
