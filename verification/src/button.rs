//! A widget that can be pressed.

use vstd::prelude::*;
use crate::geometry::BoundingBox;
use crate::geometry::MeasuredSize;
use crate::geometry::Position;
use crate::input::activates;
use crate::input::interact;
use crate::input::is_hit;
use crate::input::hit_test;
use crate::input::next_state;
use crate::input::Delivery;
use crate::input::InputEvent;
use crate::measurement::MeasureSpec;
use crate::state::WidgetState;
use crate::state::STATE_IDLE;
use crate::state::STATE_INACTIVE;
use crate::widget::Widget;

verus! {

/// What a button does when it is activated.
pub trait ClickHandler {
    /// Called once for each activation.
    fn on_clicked(&self);
}

/// The handler a button has until one is registered: it does nothing.
#[derive(Clone, Copy, Debug)]
pub struct NoAction;

impl ClickHandler for NoAction {
    fn on_clicked(&self) {
    }
}

/// A widget that reacts to the pointer: it is hovered, pressed and, when the
/// pointer is released on it after a press, activated. Its box is the box of
/// what it shows, and it answers hit tests for all of it.
pub struct Button<W, A> {
    pub inner: W,
    pub parent_index: usize,
    pub state: WidgetState,
    pub on_clicked: A,
}

impl<W: Widget> Button<W, NoAction> {
    /// A button that shows `inner`: idle and active, with no handler.
    pub fn new(inner: W) -> (r: Self)
        ensures
            r.inner == inner,
            r.parent_index == 0,
            r.state.bits == STATE_IDLE,
    {
        Button { inner, parent_index: 0, state: WidgetState::default(), on_clicked: NoAction }
    }
}

impl<W: Widget, A: ClickHandler> Button<W, A> {
    /// The flags the button has once it is made active or inactive.
    pub open spec fn activity_bits(&self, active: bool) -> u32 {
        if active {
            self.state.bits & !STATE_INACTIVE
        } else {
            self.state.bits | STATE_INACTIVE
        }
    }

    /// Registers the handler for activations, replacing the one before.
    pub fn on_clicked<A2: ClickHandler>(self, handler: A2) -> (r: Button<W, A2>)
        ensures
            r.inner == self.inner,
            r.parent_index == self.parent_index,
            r.state == self.state,
            r.on_clicked == handler,
    {
        Button {
            inner: self.inner,
            parent_index: self.parent_index,
            state: self.state,
            on_clicked: handler,
        }
    }

    /// Makes the button active or inactive. An inactive button takes no
    /// input; it is measured, arranged and drawn as before.
    pub fn active(self, active: bool) -> (r: Self)
        ensures
            r.inner == self.inner,
            r.parent_index == self.parent_index,
            r.on_clicked == self.on_clicked,
            r.state.bits == self.activity_bits(active),
            r.state.holds(STATE_INACTIVE) == !active,
    {
        let bits = self.state.bits;
        proof {
            assert((bits & !STATE_INACTIVE) & STATE_INACTIVE != STATE_INACTIVE) by (bit_vector);
            assert((bits | STATE_INACTIVE) & STATE_INACTIVE == STATE_INACTIVE) by (bit_vector);
        }
        let next = if active {
            bits & !STATE_INACTIVE
        } else {
            bits | STATE_INACTIVE
        };
        Button {
            inner: self.inner,
            parent_index: self.parent_index,
            state: WidgetState::new(next),
            on_clicked: self.on_clicked,
        }
    }

    /// Applies one input event to the button and what it shows. If the event
    /// activates the button, the handler is invoked first and the button
    /// takes its new flags after that. Returns whether it was activated.
    ///
    /// Only a release inside the box of a button that is pressed activates
    /// it. A release outside the box, or the pointer leaving it, ends the
    /// press without activating.
    pub fn press(&mut self, event: InputEvent) -> (activated: bool)
        requires
            old(self).wf(),
        ensures
            activated == activates(old(self).state, event, event.lands_in(old(self).bounds())),
            *final(self) == old(self).with_state(
                next_state(old(self).state, event, event.lands_in(old(self).bounds())).bits,
            ),
            final(self).wf(),
            final(self).child_count() == old(self).child_count(),
    {
        let bounds = self.inner.bounding_box();
        let inside = event.is_inside(&bounds);
        let outcome = interact(self.state, event, inside);
        if outcome.activated {
            self.on_clicked.on_clicked();
        }
        self.change_state(outcome.state.bits);
        outcome.activated
    }
}

impl<W: Widget, A: ClickHandler> Widget for Button<W, A> {
    open spec fn wf(&self) -> bool {
        self.inner.wf() && self.inner.child_count() < usize::MAX
    }

    open spec fn bounds(&self) -> BoundingBox {
        self.inner.bounds()
    }

    open spec fn size_for(&self, spec: MeasureSpec) -> MeasuredSize {
        self.inner.size_for(spec)
    }

    open spec fn child_count(&self) -> nat {
        1 + self.inner.child_count()
    }

    open spec fn child_bounds(&self, idx: nat) -> BoundingBox {
        if idx == 0 {
            self.inner.bounds()
        } else {
            self.inner.child_bounds((idx - 1) as nat)
        }
    }

    open spec fn hit(&self, event: InputEvent) -> Option<nat> {
        if is_hit(self.state, self.inner.bounds(), event) {
            Some(0)
        } else {
            None
        }
    }

    open spec fn parent(&self) -> usize {
        self.parent_index
    }

    open spec fn with_state(&self, bits: u32) -> Self {
        Button {
            inner: self.inner.with_state(bits),
            parent_index: self.parent_index,
            state: WidgetState { bits },
            on_clicked: self.on_clicked,
        }
    }

    open spec fn attached(&self, parent: usize, self_index: usize) -> Self {
        Button {
            parent_index: parent,
            inner: self.inner.attached(self_index, (self_index + 1) as usize),
            ..*self
        }
    }

    open spec fn measured(&self, spec: MeasureSpec) -> Self {
        Button { inner: self.inner.measured(spec), ..*self }
    }

    open spec fn arranged(&self, position: Position) -> Self {
        Button { inner: self.inner.arranged(position), ..*self }
    }

    open spec fn with_parent(&self, index: usize) -> Self {
        Button { parent_index: index, ..*self }
    }

    open spec fn updated_to(&self, after: Self) -> bool {
        &&& self.inner.updated_to(after.inner)
        &&& after == (Button { inner: after.inner, ..*self })
    }

    open spec fn selectable(&self) -> bool {
        false
    }

    open spec fn with_selection(&self, selected: bool) -> Self {
        *self
    }

    open spec fn after_input(&self, idx: nat, event: InputEvent) -> Self {
        if idx == 0 {
            self.with_state(
                next_state(self.state, event, event.lands_in(self.bounds())).bits,
            )
        } else {
            Button {
                inner: self.inner.after_input((idx - 1) as nat, event),
                state: match self.inner.input_flags((idx - 1) as nat, event) {
                    Some(bits) => WidgetState { bits },
                    None => self.state,
                },
                ..*self
            }
        }
    }

    open spec fn input_activates(&self, idx: nat, event: InputEvent) -> bool {
        if idx == 0 {
            activates(self.state, event, event.lands_in(self.bounds()))
        } else {
            self.inner.input_activates((idx - 1) as nat, event)
        }
    }

    open spec fn input_flags(&self, idx: nat, event: InputEvent) -> Option<u32> {
        if idx == 0 {
            Some(next_state(self.state, event, event.lands_in(self.bounds())).bits)
        } else {
            self.inner.input_flags((idx - 1) as nat, event)
        }
    }

    proof fn lemma_arrange_round_trip(&self, origin: Position) {
        self.inner.lemma_arrange_round_trip(origin);
    }

    proof fn lemma_measured_size(&self, spec: MeasureSpec) {
        self.inner.lemma_measured_size(spec);
    }

    /// Records `parent` and attaches the child below this node: the child
    /// records `self_index` as its parent and is node `self_index + 1`.
    fn attach(&mut self, parent: usize, self_index: usize)
        ensures
            final(self).inner.parent() == self_index,
            final(self).inner == old(self).inner.attached(self_index, (self_index + 1) as usize),
    {
        self.parent_index = parent;
        self.inner.attach(self_index, self_index + 1);
    }

    fn arrange(&mut self, position: Position) {
        self.inner.arrange(position);
    }

    fn bounding_box(&self) -> (b: BoundingBox) {
        self.inner.bounding_box()
    }

    fn measure(&mut self, spec: MeasureSpec) {
        self.inner.measure(spec);
    }

    fn children(&self) -> (n: usize) {
        1 + self.inner.children()
    }

    fn child_bounding_box(&self, idx: usize) -> (b: BoundingBox) {
        if idx == 0 {
            self.inner.bounding_box()
        } else {
            self.inner.child_bounding_box(idx - 1)
        }
    }

    /// The button answers for everything inside its box; what it shows is
    /// not asked. An inactive button answers nothing.
    fn test_input(&self, event: InputEvent) -> (r: Option<usize>) {
        let bounds = self.inner.bounding_box();
        if hit_test(self.state, &bounds, event) {
            Some(0)
        } else {
            None
        }
    }

    /// An event for the button itself is applied as `press` does. An event
    /// for a node below it is passed on, and the button takes the flags that
    /// the node took.
    fn handle_input(&mut self, idx: usize, event: InputEvent) -> (r: Delivery) {
        if idx == 0 {
            let activated = self.press(event);
            Delivery { activated, flags: Some(self.state.bits) }
        } else {
            let r = self.inner.handle_input(idx - 1, event);
            match r.flags {
                Some(bits) => {
                    self.state.change_state(bits);
                },
                None => {},
            }
            r
        }
    }

    fn update(&mut self)
        ensures
            final(self).state == old(self).state,
    {
        self.inner.update();
    }

    fn parent_index(&self) -> (r: usize) {
        self.parent_index
    }

    fn set_parent(&mut self, index: usize) {
        self.parent_index = index;
    }

    /// Tells what the button shows of the new flags, then takes them itself.
    fn change_state(&mut self, state: u32) {
        self.inner.change_state(state);
        self.state.change_state(state);
    }

    /// Does nothing: a button cannot be selected.
    fn change_selection(&mut self, selected: bool)
        ensures
            *final(self) == *old(self),
    {
    }

    fn is_selectable(&self) -> (r: bool)
        ensures
            !r,
    {
        false
    }
}

} // verus!
