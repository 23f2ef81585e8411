//! The round mark of a radio button.

use vstd::prelude::*;
use crate::data::DataObserver;
use crate::data::KeepWidget;
use crate::data::WidgetData;
use crate::geometry::BoundingBox;
use crate::geometry::MeasuredSize;
use crate::geometry::Position;
use crate::input::Delivery;
use crate::input::InputEvent;
use crate::measurement::MeasureSpec;
use crate::state::WidgetState;
use crate::state::STATE_IDLE;
use crate::state::STATE_SELECTED;
use crate::widget::NoObserver;
use crate::widget::StateObserver;
use crate::widget::Widget;
use crate::wrapper::Wrapper;

verus! {

/// How the mark looks and how large it is.
pub trait RadioButtonProperties {
    type Color;

    /// The size of the mark under `spec`.
    spec fn measured(&self, spec: MeasureSpec) -> MeasuredSize;

    /// The size of the mark under `spec`.
    fn measure(&self, spec: MeasureSpec) -> (size: MeasuredSize)
        ensures
            size == self.measured(spec),
    ;
}

/// A mark of a fixed size, held to the constraints it is measured under.
#[derive(Clone, Copy, Debug, PartialEq, Eq, Structural)]
pub struct FixedMark {
    pub size: MeasuredSize,
}

impl RadioButtonProperties for FixedMark {
    type Color = ();

    open spec fn measured(&self, spec: MeasureSpec) -> MeasuredSize {
        MeasuredSize {
            width: spec.width.applied_to(self.size.width),
            height: spec.height.applied_to(self.size.height),
        }
    }

    fn measure(&self, spec: MeasureSpec) -> (size: MeasuredSize) {
        MeasuredSize {
            width: spec.width.apply_to_measured(self.size.width),
            height: spec.height.apply_to_measured(self.size.height),
        }
    }
}

/// The mark of a radio button: a leaf that can be selected. The observer
/// may restyle the mark when its interaction state changes.
pub struct RadioButton<P, O> {
    pub radio_properties: P,
    pub parent_index: usize,
    pub on_state_changed: O,
    pub bounds: BoundingBox,
    pub state: WidgetState,
}

impl<P: RadioButtonProperties> RadioButton<P, NoObserver> {
    /// A mark with the given properties: idle, not selected, with an empty
    /// box at the origin.
    pub fn with_properties(radio_properties: P) -> (r: Self)
        ensures
            r.radio_properties == radio_properties,
            r.parent_index == 0,
            r.bounds == (BoundingBox {
                position: Position { x: 0, y: 0 },
                size: MeasuredSize { width: 0, height: 0 },
            }),
            r.state.bits == STATE_IDLE,
    {
        RadioButton {
            parent_index: 0,
            radio_properties,
            bounds: BoundingBox::default(),
            on_state_changed: NoObserver,
            state: WidgetState::default(),
        }
    }

    /// A mark with the default properties of `P`.
    pub fn new() -> (r: Self) where P: Default
        ensures
            r.parent_index == 0,
            r.bounds == (BoundingBox {
                position: Position { x: 0, y: 0 },
                size: MeasuredSize { width: 0, height: 0 },
            }),
            r.state.bits == STATE_IDLE,
    {
        Self::with_properties(P::default())
    }
}

impl<P: RadioButtonProperties, O: StateObserver<P>> RadioButton<P, O> {
    /// Whether telling the mark of `bits` would invoke the observer.
    pub open spec fn notifies(&self, bits: u32) -> bool {
        self.state.differs_from(bits)
    }

    /// Whether the mark is selected.
    pub open spec fn selected(&self) -> bool {
        self.state.holds(STATE_SELECTED)
    }

    /// The flags the mark has once it is selected or deselected.
    pub open spec fn selection_bits(&self, selected: bool) -> u32 {
        if selected {
            self.state.bits | STATE_SELECTED
        } else {
            self.state.bits & !STATE_SELECTED
        }
    }

    /// Registers the handler for state changes, replacing the one before.
    pub fn on_state_changed<O2: StateObserver<P>>(self, callback: O2) -> (r: RadioButton<P, O2>)
        ensures
            r.radio_properties == self.radio_properties,
            r.parent_index == self.parent_index,
            r.on_state_changed == callback,
            r.bounds == self.bounds,
            r.state == self.state,
    {
        RadioButton {
            radio_properties: self.radio_properties,
            parent_index: self.parent_index,
            on_state_changed: callback,
            bounds: self.bounds,
            state: self.state,
        }
    }

    /// Binds the mark to `data`, with no handler for the data yet.
    pub fn bind<D: WidgetData>(self, data: D) -> (r: Wrapper<RadioButton<P, O>, D, KeepWidget>)
        ensures
            r.widget == self,
            r.data_holder.data == data,
            r.data_holder.last_version is None,
    {
        Wrapper::wrap(self, data)
    }

    /// Whether the mark is selected.
    pub fn is_selected(&self) -> (r: bool)
        ensures
            r == self.selected(),
    {
        self.state.has_state(STATE_SELECTED)
    }

    /// The box of the mark, for the caller to change. A leaf keeps its box
    /// itself; a decorator derives its box from its child and offers no such
    /// access.
    pub fn bounding_box_mut(&mut self) -> (r: &mut BoundingBox)
        ensures
            *r == old(self).bounds,
            *final(self) == (RadioButton { bounds: *final(r), ..*old(self) }),
    {
        &mut self.bounds
    }

    /// Records the measured size. The box stays where it is.
    pub fn set_measured_size(&mut self, size: MeasuredSize)
        ensures
            *final(self) == (RadioButton {
                bounds: BoundingBox { position: old(self).bounds.position, size },
                ..*old(self)
            }),
    {
        self.bounds.size = size;
    }
}

impl<P: RadioButtonProperties, O: StateObserver<P>, D: WidgetData, H> Wrapper<
    RadioButton<P, O>,
    D,
    H,
> {
    /// Registers the handler for state changes of the bound mark, replacing
    /// the one before. The handler for the data stays.
    pub fn on_state_changed<O2: StateObserver<P>>(self, callback: O2) -> (r: Wrapper<
        RadioButton<P, O2>,
        D,
        H,
    >)
        ensures
            r.widget.radio_properties == self.widget.radio_properties,
            r.widget.parent_index == self.widget.parent_index,
            r.widget.on_state_changed == callback,
            r.widget.bounds == self.widget.bounds,
            r.widget.state == self.widget.state,
            r.data_holder == self.data_holder,
    {
        Wrapper {
            widget: self.widget.on_state_changed(callback),
            data_holder: self.data_holder,
        }
    }
}

impl<P: RadioButtonProperties, O: StateObserver<P>> Widget for RadioButton<P, O> {
    open spec fn wf(&self) -> bool {
        true
    }

    open spec fn bounds(&self) -> BoundingBox {
        self.bounds
    }

    open spec fn size_for(&self, spec: MeasureSpec) -> MeasuredSize {
        self.radio_properties.measured(spec)
    }

    open spec fn child_count(&self) -> nat {
        0
    }

    open spec fn child_bounds(&self, idx: nat) -> BoundingBox {
        self.bounds
    }

    open spec fn hit(&self, event: InputEvent) -> Option<nat> {
        None
    }

    open spec fn parent(&self) -> usize {
        self.parent_index
    }

    open spec fn with_state(&self, bits: u32) -> Self {
        RadioButton {
            radio_properties: if self.notifies(bits) {
                self.on_state_changed.reaction(self.radio_properties, WidgetState { bits })
            } else {
                self.radio_properties
            },
            parent_index: self.parent_index,
            on_state_changed: self.on_state_changed,
            bounds: self.bounds,
            state: WidgetState { bits },
        }
    }

    open spec fn attached(&self, parent: usize, self_index: usize) -> Self {
        RadioButton { parent_index: parent, ..*self }
    }

    open spec fn measured(&self, spec: MeasureSpec) -> Self {
        RadioButton {
            bounds: BoundingBox { position: self.bounds.position, size: self.size_for(spec) },
            ..*self
        }
    }

    open spec fn arranged(&self, position: Position) -> Self {
        RadioButton { bounds: BoundingBox { position, size: self.bounds.size }, ..*self }
    }

    open spec fn with_parent(&self, index: usize) -> Self {
        RadioButton { parent_index: index, ..*self }
    }

    open spec fn updated_to(&self, after: Self) -> bool {
        after == *self
    }

    open spec fn selectable(&self) -> bool {
        true
    }

    open spec fn with_selection(&self, selected: bool) -> Self {
        self.with_state(self.selection_bits(selected))
    }

    open spec fn after_input(&self, idx: nat, event: InputEvent) -> Self {
        *self
    }

    open spec fn input_activates(&self, idx: nat, event: InputEvent) -> bool {
        false
    }

    open spec fn input_flags(&self, idx: nat, event: InputEvent) -> Option<u32> {
        None
    }

    proof fn lemma_arrange_round_trip(&self, origin: Position) {
    }

    proof fn lemma_measured_size(&self, spec: MeasureSpec) {
    }

    fn attach(&mut self, parent: usize, self_index: usize) {
        self.parent_index = parent;
    }

    fn arrange(&mut self, position: Position) {
        self.bounds.position = position;
    }

    fn bounding_box(&self) -> (b: BoundingBox) {
        self.bounds
    }

    /// Asks the properties for the size of the mark and records it.
    fn measure(&mut self, spec: MeasureSpec) {
        let size = self.radio_properties.measure(spec);
        self.set_measured_size(size);
    }

    fn children(&self) -> (n: usize) {
        0
    }

    fn child_bounding_box(&self, idx: usize) -> (b: BoundingBox) {
        self.bounds
    }

    /// The mark takes no input itself: the button around it does.
    fn test_input(&self, event: InputEvent) -> (r: Option<usize>) {
        None
    }

    /// Does nothing: the widget takes no input.
    fn handle_input(&mut self, idx: usize, event: InputEvent) -> (r: Delivery) {
        Delivery { activated: false, flags: None }
    }

    /// Does nothing: the mark has nothing to bring up to date.
    fn update(&mut self)
        ensures
            *final(self) == *old(self),
    {
    }

    fn parent_index(&self) -> (r: usize) {
        self.parent_index
    }

    fn set_parent(&mut self, index: usize) {
        self.parent_index = index;
    }

    /// Takes the new flags. The observer is invoked only if they differ from
    /// the flags the mark had, so telling it the same flags again does not
    /// invoke it.
    fn change_state(&mut self, state: u32)
        ensures
            !final(self).notifies(state),
    {
        if self.state.change_state(state) {
            self.on_state_changed.on_state_changed(&mut self.radio_properties, self.state);
        }
    }

    /// Selects or deselects the mark and leaves its other flags as they are.
    /// The observer is invoked only if the selection changed.
    fn change_selection(&mut self, selected: bool)
        ensures
            *final(self) == old(self).with_state(old(self).selection_bits(selected)),
            final(self).selected() == selected,
    {
        let bits = self.state.bits;
        proof {
            assert((bits | STATE_SELECTED) & STATE_SELECTED == STATE_SELECTED) by (bit_vector);
            assert((bits & !STATE_SELECTED) & STATE_SELECTED != STATE_SELECTED) by (bit_vector);
        }
        let next = if selected {
            bits | STATE_SELECTED
        } else {
            bits & !STATE_SELECTED
        };
        self.change_state(next);
    }

    fn is_selectable(&self) -> (r: bool)
        ensures
            r,
    {
        true
    }
}

/// Telling a mark the same flags twice invokes its observer at most once:
/// the second time changes nothing at all.
pub proof fn lemma_mark_notified_once<P: RadioButtonProperties, O: StateObserver<P>>(
    mark: RadioButton<P, O>,
    bits: u32,
)
    ensures
        !mark.with_state(bits).notifies(bits),
        mark.with_state(bits).with_state(bits) == mark.with_state(bits),
        !mark.notifies(bits) ==> mark.with_state(bits) == mark,
{
}

/// A handler for bound data that selects a mark exactly when the data equals
/// the value the mark stands for. Several marks bound to one cell, each with
/// a value of its own, form a group in which the cell decides which mark is
/// selected.
#[derive(Clone, Copy, Debug)]
pub struct SelectWhen {
    pub value: usize,
}

impl<P: RadioButtonProperties, O: StateObserver<P>> DataObserver<
    RadioButton<P, O>,
    usize,
> for SelectWhen {
    open spec fn applied(&self, widget: RadioButton<P, O>, data: usize) -> RadioButton<P, O> {
        widget.with_state(widget.selection_bits(data == self.value))
    }

    fn on_data_changed(&self, widget: &mut RadioButton<P, O>, data: &usize)
        ensures
            final(widget).selected() == (*data == self.value),
    {
        widget.change_selection(*data == self.value);
    }
}

/// Of the marks of a group, each selected exactly when the data equals its
/// value, at most the marks that stand for the current value are selected:
/// with distinct values, exactly one mark at most.
pub proof fn lemma_group_selection_is_exclusive<P: RadioButtonProperties, O: StateObserver<P>>(
    first: RadioButton<P, O>,
    second: RadioButton<P, O>,
    first_value: usize,
    second_value: usize,
    data: usize,
)
    requires
        first_value != second_value,
    ensures
        ({
            let a = (SelectWhen { value: first_value }).applied(first, data);
            let b = (SelectWhen { value: second_value }).applied(second, data);
            &&& a.selected() == (data == first_value)
            &&& b.selected() == (data == second_value)
            &&& !(a.selected() && b.selected())
        }),
{
    let x = first.state.bits;
    let y = second.state.bits;
    assert((x | STATE_SELECTED) & STATE_SELECTED == STATE_SELECTED) by (bit_vector);
    assert((x & !STATE_SELECTED) & STATE_SELECTED != STATE_SELECTED) by (bit_vector);
    assert((y | STATE_SELECTED) & STATE_SELECTED == STATE_SELECTED) by (bit_vector);
    assert((y & !STATE_SELECTED) & STATE_SELECTED != STATE_SELECTED) by (bit_vector);
}

} // verus!
