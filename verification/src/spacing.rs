//! A decorator that keeps room around its child.

use vstd::prelude::*;
use crate::data::KeepWidget;
use crate::data::WidgetData;
use crate::geometry::extent_sum;
use crate::geometry::lemma_shift_round_trip;
use crate::geometry::BoundingBox;
use crate::geometry::MeasuredSize;
use crate::geometry::Position;
use crate::input::Delivery;
use crate::input::InputEvent;
use crate::measurement::MeasureSpec;
use crate::state::WidgetState;
use crate::state::STATE_IDLE;
use crate::widget::NoObserver;
use crate::widget::StateObserver;
use crate::widget::Widget;
use crate::wrapper::Wrapper;

verus! {

/// The room kept on each side, in pixels.
#[derive(Clone, Copy, Debug, PartialEq, Eq, Structural)]
pub struct SpacingSpec {
    pub top: u32,
    pub right: u32,
    pub bottom: u32,
    pub left: u32,
}

impl SpacingSpec {
    /// The room kept on the left and right together.
    pub open spec fn horizontal(self) -> u32 {
        extent_sum(self.left, self.right)
    }

    /// The room kept above and below together.
    pub open spec fn vertical(self) -> u32 {
        extent_sum(self.top, self.bottom)
    }
}

impl Default for SpacingSpec {
    fn default() -> (r: SpacingSpec)
        ensures
            r == (SpacingSpec { top: 0, right: 0, bottom: 0, left: 0 }),
    {
        SpacingSpec { top: 0, right: 0, bottom: 0, left: 0 }
    }
}

/// A widget surrounded by room on each side. The observer may change the
/// room when the interaction state changes.
pub struct Spacing<W, O> {
    pub inner: W,
    pub spacing: SpacingSpec,
    pub parent_index: usize,
    pub on_state_changed: O,
    pub state: WidgetState,
}

impl<W: Widget> Spacing<W, NoObserver> {
    /// Wraps `inner` with no room on any side.
    pub fn new(inner: W) -> (r: Spacing<W, NoObserver>)
        ensures
            r.inner == inner,
            r.spacing == (SpacingSpec { top: 0, right: 0, bottom: 0, left: 0 }),
            r.parent_index == 0,
            r.state.bits == STATE_IDLE,
    {
        Spacing {
            parent_index: 0,
            spacing: SpacingSpec::default(),
            inner,
            on_state_changed: NoObserver,
            state: WidgetState::default(),
        }
    }
}

impl<W: Widget, O: StateObserver<SpacingSpec>> Spacing<W, O> {
    /// Sets the room on the left.
    pub fn left(self, space: u32) -> (r: Self)
        ensures
            r == (Spacing { spacing: SpacingSpec { left: space, ..self.spacing }, ..self }),
    {
        let mut this = self;
        this.spacing.left = space;
        this
    }

    /// Sets the room on the right.
    pub fn right(self, space: u32) -> (r: Self)
        ensures
            r == (Spacing { spacing: SpacingSpec { right: space, ..self.spacing }, ..self }),
    {
        let mut this = self;
        this.spacing.right = space;
        this
    }

    /// Sets the room above.
    pub fn top(self, space: u32) -> (r: Self)
        ensures
            r == (Spacing { spacing: SpacingSpec { top: space, ..self.spacing }, ..self }),
    {
        let mut this = self;
        this.spacing.top = space;
        this
    }

    /// Sets the room below.
    pub fn bottom(self, space: u32) -> (r: Self)
        ensures
            r == (Spacing { spacing: SpacingSpec { bottom: space, ..self.spacing }, ..self }),
    {
        let mut this = self;
        this.spacing.bottom = space;
        this
    }

    /// Sets the same room on all four sides.
    pub fn all(self, space: u32) -> (r: Self)
        ensures
            r == (Spacing {
                spacing: SpacingSpec { top: space, right: space, bottom: space, left: space },
                ..self
            }),
    {
        let this = self.top(space);
        let this = this.right(space);
        let this = this.bottom(space);
        this.left(space)
    }

    /// Registers the handler for state changes, replacing the one before.
    pub fn on_state_changed<O2: StateObserver<SpacingSpec>>(self, observer: O2) -> (r: Spacing<
        W,
        O2,
    >)
        ensures
            r.inner == self.inner,
            r.spacing == self.spacing,
            r.parent_index == self.parent_index,
            r.state == self.state,
            r.on_state_changed == observer,
    {
        Spacing {
            inner: self.inner,
            spacing: self.spacing,
            parent_index: self.parent_index,
            on_state_changed: observer,
            state: self.state,
        }
    }

    /// Whether telling the widget of `bits` would invoke the observer.
    pub open spec fn notifies(&self, bits: u32) -> bool {
        self.state.differs_from(bits)
    }

    /// The spacing after it took new flags itself, its child left as it is:
    /// the observer has reacted if the flags differ from those it had.
    pub open spec fn took_state(&self, bits: u32) -> Self {
        Spacing {
            spacing: if self.notifies(bits) {
                self.on_state_changed.reaction(self.spacing, WidgetState { bits })
            } else {
                self.spacing
            },
            state: WidgetState { bits },
            ..*self
        }
    }

    /// Takes new flags and invokes the observer if they differ from the
    /// flags the spacing had. The child is not told.
    pub fn take_state(&mut self, bits: u32)
        ensures
            *final(self) == old(self).took_state(bits),
            !final(self).notifies(bits),
    {
        if self.state.change_state(bits) {
            self.on_state_changed.on_state_changed(&mut self.spacing, self.state);
        }
    }

    /// Binds the widget to `data`, with no handler for the data yet.
    pub fn bind<D: WidgetData>(self, data: D) -> (r: Wrapper<Spacing<W, O>, D, KeepWidget>)
        ensures
            r.widget == self,
            r.data_holder.data == data,
            r.data_holder.last_version is None,
    {
        Wrapper::wrap(self, data)
    }
}

/// A spacing that was placed at `origin` has put its child `left` pixels to
/// the right of and `top` pixels below `origin`, and its own box starts at
/// `origin`, for every origin and every amount of room.
pub proof fn lemma_spacing_places_child<W: Widget, O: StateObserver<SpacingSpec>>(
    spacing: Spacing<W, O>,
    origin: Position,
)
    ensures
        spacing.arranged(origin).bounds().position == origin,
        spacing.arranged(origin).inner.bounds().position == origin.offset_by(
            spacing.spacing.left,
            spacing.spacing.top,
        ),
{
    spacing.lemma_arrange_round_trip(origin);
    spacing.inner.lemma_arrange_round_trip(
        origin.offset_by(spacing.spacing.left, spacing.spacing.top),
    );
}

/// Telling a spacing the same flags twice invokes its observer at most once:
/// the second time the spacing is not notified, and its room and its flags
/// stay as the first time left them.
pub proof fn lemma_spacing_notified_once<W: Widget, O: StateObserver<SpacingSpec>>(
    spacing: Spacing<W, O>,
    bits: u32,
)
    ensures
        !spacing.with_state(bits).notifies(bits),
        spacing.with_state(bits).with_state(bits).spacing == spacing.with_state(bits).spacing,
        spacing.with_state(bits).with_state(bits).state == spacing.with_state(bits).state,
        !spacing.notifies(bits) ==> spacing.with_state(bits).spacing == spacing.spacing,
{
}

impl<W: Widget, O: StateObserver<SpacingSpec>, D: WidgetData, H> Wrapper<Spacing<W, O>, D, H> {
    /// Sets the room on the left of the bound widget.
    pub fn left(self, space: u32) -> (r: Self)
        ensures
            r.data_holder == self.data_holder,
            r.widget == (Spacing {
                spacing: SpacingSpec { left: space, ..self.widget.spacing },
                ..self.widget
            }),
    {
        Wrapper { widget: self.widget.left(space), data_holder: self.data_holder }
    }

    /// Sets the room on the right of the bound widget.
    pub fn right(self, space: u32) -> (r: Self)
        ensures
            r.data_holder == self.data_holder,
            r.widget == (Spacing {
                spacing: SpacingSpec { right: space, ..self.widget.spacing },
                ..self.widget
            }),
    {
        Wrapper { widget: self.widget.right(space), data_holder: self.data_holder }
    }

    /// Sets the room above the bound widget.
    pub fn top(self, space: u32) -> (r: Self)
        ensures
            r.data_holder == self.data_holder,
            r.widget == (Spacing {
                spacing: SpacingSpec { top: space, ..self.widget.spacing },
                ..self.widget
            }),
    {
        Wrapper { widget: self.widget.top(space), data_holder: self.data_holder }
    }

    /// Sets the room below the bound widget.
    pub fn bottom(self, space: u32) -> (r: Self)
        ensures
            r.data_holder == self.data_holder,
            r.widget == (Spacing {
                spacing: SpacingSpec { bottom: space, ..self.widget.spacing },
                ..self.widget
            }),
    {
        Wrapper { widget: self.widget.bottom(space), data_holder: self.data_holder }
    }

    /// Sets the same room on all four sides of the bound widget.
    pub fn all(self, space: u32) -> (r: Self)
        ensures
            r.data_holder == self.data_holder,
            r.widget == (Spacing {
                spacing: SpacingSpec { top: space, right: space, bottom: space, left: space },
                ..self.widget
            }),
    {
        Wrapper { widget: self.widget.all(space), data_holder: self.data_holder }
    }
}

impl<W: Widget, O: StateObserver<SpacingSpec>> Widget for Spacing<W, O> {
    open spec fn wf(&self) -> bool {
        self.inner.wf() && self.inner.child_count() < usize::MAX
    }

    open spec fn bounds(&self) -> BoundingBox {
        self.inner.bounds().expanded_by(
            self.spacing.left,
            self.spacing.top,
            self.spacing.right,
            self.spacing.bottom,
        )
    }

    open spec fn size_for(&self, spec: MeasureSpec) -> MeasuredSize {
        self.inner.size_for(
            spec.shrunk_by(self.spacing.horizontal(), self.spacing.vertical()),
        ).grown_by(self.spacing.horizontal(), self.spacing.vertical())
    }

    open spec fn child_count(&self) -> nat {
        1 + self.inner.child_count()
    }

    open spec fn child_bounds(&self, idx: nat) -> BoundingBox {
        if idx == 0 {
            self.inner.bounds()
        } else {
            self.inner.child_bounds((idx - 1) as nat)
        }
    }

    open spec fn hit(&self, event: InputEvent) -> Option<nat> {
        match self.inner.hit(event) {
            Some(i) => Some(i + 1),
            None => None,
        }
    }

    open spec fn parent(&self) -> usize {
        self.parent_index
    }

    open spec fn with_state(&self, bits: u32) -> Self {
        Spacing {
            inner: self.inner.with_state(bits),
            spacing: if self.notifies(bits) {
                self.on_state_changed.reaction(self.spacing, WidgetState { bits })
            } else {
                self.spacing
            },
            parent_index: self.parent_index,
            on_state_changed: self.on_state_changed,
            state: WidgetState { bits },
        }
    }

    open spec fn attached(&self, parent: usize, self_index: usize) -> Self {
        Spacing {
            parent_index: parent,
            inner: self.inner.attached(self_index, (self_index + 1) as usize),
            ..*self
        }
    }

    open spec fn measured(&self, spec: MeasureSpec) -> Self {
        Spacing {
            inner: self.inner.measured(
                spec.shrunk_by(self.spacing.horizontal(), self.spacing.vertical()),
            ),
            ..*self
        }
    }

    open spec fn arranged(&self, position: Position) -> Self {
        Spacing {
            inner: self.inner.arranged(position.offset_by(self.spacing.left, self.spacing.top)),
            ..*self
        }
    }

    open spec fn with_parent(&self, index: usize) -> Self {
        Spacing { parent_index: index, ..*self }
    }

    open spec fn updated_to(&self, after: Self) -> bool {
        &&& self.inner.updated_to(after.inner)
        &&& after == (Spacing { inner: after.inner, ..*self })
    }

    open spec fn selectable(&self) -> bool {
        false
    }

    open spec fn with_selection(&self, selected: bool) -> Self {
        *self
    }

    open spec fn after_input(&self, idx: nat, event: InputEvent) -> Self {
        if idx == 0 {
            *self
        } else {
            let passed = Spacing {
                inner: self.inner.after_input((idx - 1) as nat, event),
                ..*self
            };
            match self.inner.input_flags((idx - 1) as nat, event) {
                Some(bits) => passed.took_state(bits),
                None => passed,
            }
        }
    }

    open spec fn input_activates(&self, idx: nat, event: InputEvent) -> bool {
        idx != 0 && self.inner.input_activates((idx - 1) as nat, event)
    }

    open spec fn input_flags(&self, idx: nat, event: InputEvent) -> Option<u32> {
        if idx == 0 {
            None
        } else {
            self.inner.input_flags((idx - 1) as nat, event)
        }
    }

    proof fn lemma_arrange_round_trip(&self, origin: Position) {
        let place = origin.offset_by(self.spacing.left, self.spacing.top);
        self.inner.lemma_arrange_round_trip(place);
        lemma_shift_round_trip(origin.x, self.spacing.left);
        lemma_shift_round_trip(origin.y, self.spacing.top);
    }

    proof fn lemma_measured_size(&self, spec: MeasureSpec) {
        self.inner.lemma_measured_size(
            spec.shrunk_by(self.spacing.horizontal(), self.spacing.vertical()),
        );
    }

    /// Records `parent` and attaches the child below this node: the child
    /// records `self_index` as its parent and is node `self_index + 1`.
    fn attach(&mut self, parent: usize, self_index: usize)
        ensures
            final(self).inner.parent() == self_index,
            final(self).inner == old(self).inner.attached(self_index, (self_index + 1) as usize),
    {
        self.parent_index = parent;
        self.inner.attach(self_index, self_index + 1);
    }

    /// Places the child `left` pixels to the right of and `top` pixels below
    /// `position`.
    fn arrange(&mut self, position: Position)
        ensures
            final(self).inner.bounds().position == position.offset_by(
                old(self).spacing.left,
                old(self).spacing.top,
            ),
            final(self).spacing == old(self).spacing,
    {
        let spacing = self.spacing;
        self.inner.arrange(position.offset(spacing.left, spacing.top));
        proof {
            lemma_shift_round_trip(position.x, spacing.left);
            lemma_shift_round_trip(position.y, spacing.top);
        }
    }

    fn bounding_box(&self) -> (b: BoundingBox) {
        let spacing = self.spacing;
        let bounds = self.inner.bounding_box();
        bounds.expand(spacing.left, spacing.top, spacing.right, spacing.bottom)
    }

    /// Measures the child under the constraints that remain once the room is
    /// set aside.
    fn measure(&mut self, spec: MeasureSpec)
        ensures
            final(self).inner.bounds().size == old(self).inner.size_for(
                spec.shrunk_by(old(self).spacing.horizontal(), old(self).spacing.vertical()),
            ),
            final(self).spacing == old(self).spacing,
    {
        let spacing = self.spacing;
        self.inner.measure(
            spec.shrink(
                spacing.left.saturating_add(spacing.right),
                spacing.top.saturating_add(spacing.bottom),
            ),
        );
    }

    fn children(&self) -> (n: usize) {
        1 + self.inner.children()
    }

    fn child_bounding_box(&self, idx: usize) -> (b: BoundingBox) {
        if idx == 0 {
            self.inner.bounding_box()
        } else {
            self.inner.child_bounding_box(idx - 1)
        }
    }

    fn test_input(&self, event: InputEvent) -> (r: Option<usize>) {
        match self.inner.test_input(event) {
            Some(i) => Some(i + 1),
            None => None,
        }
    }

    /// The spacing takes no input itself. An event for a node below it is
    /// passed on, and the spacing takes the flags that the node took, as
    /// every node on the way to it does.
    fn handle_input(&mut self, idx: usize, event: InputEvent) -> (r: Delivery) {
        if idx == 0 {
            Delivery { activated: false, flags: None }
        } else {
            let r = self.inner.handle_input(idx - 1, event);
            match r.flags {
                Some(bits) => {
                    self.take_state(bits);
                },
                None => {},
            }
            r
        }
    }

    fn update(&mut self)
        ensures
            final(self).spacing == old(self).spacing,
            final(self).state == old(self).state,
    {
        self.inner.update();
    }

    fn parent_index(&self) -> (r: usize) {
        self.parent_index
    }

    fn set_parent(&mut self, index: usize) {
        self.parent_index = index;
    }

    /// Tells the child of the new flags, then takes them itself. The
    /// observer is invoked only if the widget's own flags changed, so telling
    /// the widget the same flags again does not invoke it.
    fn change_state(&mut self, state: u32)
        ensures
            !final(self).notifies(state),
    {
        self.inner.change_state(state);
        if self.state.change_state(state) {
            self.on_state_changed.on_state_changed(&mut self.spacing, self.state);
        }
    }

    /// Does nothing: a spacing cannot be selected.
    fn change_selection(&mut self, selected: bool)
        ensures
            *final(self) == *old(self),
    {
    }

    fn is_selectable(&self) -> (r: bool)
        ensures
            !r,
    {
        false
    }
}

} // verus!
