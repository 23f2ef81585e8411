//! Wrappers that add data binding and interaction state to a widget.

use vstd::prelude::*;
use crate::data::DataObserver;
use crate::data::KeepWidget;
use crate::data::NoDataHolder;
use crate::data::WidgetData;
use crate::data::WidgetDataHolder;
use crate::data::WidgetDataHolderTrait;
use crate::geometry::BoundingBox;
use crate::geometry::MeasuredSize;
use crate::geometry::Position;
use crate::input::Delivery;
use crate::input::InputEvent;
use crate::measurement::MeasureSpec;
use crate::state::WidgetState;
use crate::state::STATE_IDLE;
use crate::widget::Widget;

verus! {

/// A widget bound to data. It behaves as the widget does; in the update pass
/// it first shows the widget the data, if the data changed since it was last
/// shown.
pub struct Wrapper<W, D, H> {
    pub widget: W,
    pub data_holder: WidgetDataHolder<D, H>,
}

impl<W: Widget, D: WidgetData> Wrapper<W, D, KeepWidget> {
    /// Binds `widget` to `data`, with no handler yet.
    pub fn wrap(widget: W, data: D) -> (r: Self)
        ensures
            r.widget == widget,
            r.data_holder.data == data,
            r.data_holder.last_version is None,
    {
        Wrapper { widget, data_holder: WidgetDataHolder::new(data) }
    }
}

impl<W: Widget, D: WidgetData, H> Wrapper<W, D, H> {
    /// Registers the handler for changes of the data, replacing the one
    /// before, and invokes it at once with the data as it is, so that the
    /// widget shows the data from the start. After that the handler is
    /// invoked in the update pass that follows a change of the data.
    pub fn on_data_changed<H2: DataObserver<W, D::Data>>(self, observer: H2) -> (r: Wrapper<
        W,
        D,
        H2,
    >)
        requires
            self.widget.wf(),
        ensures
            exists|value: D::Data| r.widget == observer.applied(self.widget, value),
            r.data_holder.data == self.data_holder.data,
            r.data_holder.last_version is Some,
            r.data_holder.on_data_changed == observer,
            r.widget.wf(),
            r.widget.child_count() == self.widget.child_count(),
    {
        let mut bound = Wrapper {
            widget: self.widget,
            data_holder: self.data_holder.on_data_changed(observer),
        };
        bound.data_holder.update(&mut bound.widget);
        bound
    }
}

impl<W: Widget, D: WidgetData, H: DataObserver<W, D::Data>> Widget for Wrapper<W, D, H> {
    open spec fn wf(&self) -> bool {
        self.widget.wf()
    }

    open spec fn bounds(&self) -> BoundingBox {
        self.widget.bounds()
    }

    open spec fn size_for(&self, spec: MeasureSpec) -> MeasuredSize {
        self.widget.size_for(spec)
    }

    open spec fn child_count(&self) -> nat {
        self.widget.child_count()
    }

    open spec fn child_bounds(&self, idx: nat) -> BoundingBox {
        self.widget.child_bounds(idx)
    }

    open spec fn hit(&self, event: InputEvent) -> Option<nat> {
        self.widget.hit(event)
    }

    open spec fn parent(&self) -> usize {
        self.widget.parent()
    }

    open spec fn with_state(&self, bits: u32) -> Self {
        Wrapper { widget: self.widget.with_state(bits), data_holder: self.data_holder }
    }

    open spec fn attached(&self, parent: usize, self_index: usize) -> Self {
        Wrapper { widget: self.widget.attached(parent, self_index), ..*self }
    }

    open spec fn measured(&self, spec: MeasureSpec) -> Self {
        Wrapper { widget: self.widget.measured(spec), ..*self }
    }

    open spec fn arranged(&self, position: Position) -> Self {
        Wrapper { widget: self.widget.arranged(position), ..*self }
    }

    open spec fn with_parent(&self, index: usize) -> Self {
        Wrapper { widget: self.widget.with_parent(index), ..*self }
    }

    open spec fn updated_to(&self, after: Self) -> bool {
        exists|shown: W|
            {
                &&& #[trigger] self.data_holder.synced(self.widget, after.data_holder, shown)
                &&& shown.updated_to(after.widget)
            }
    }

    open spec fn selectable(&self) -> bool {
        self.widget.selectable()
    }

    open spec fn with_selection(&self, selected: bool) -> Self {
        Wrapper { widget: self.widget.with_selection(selected), ..*self }
    }

    open spec fn after_input(&self, idx: nat, event: InputEvent) -> Self {
        Wrapper { widget: self.widget.after_input(idx, event), ..*self }
    }

    open spec fn input_activates(&self, idx: nat, event: InputEvent) -> bool {
        self.widget.input_activates(idx, event)
    }

    open spec fn input_flags(&self, idx: nat, event: InputEvent) -> Option<u32> {
        self.widget.input_flags(idx, event)
    }

    proof fn lemma_arrange_round_trip(&self, origin: Position) {
        self.widget.lemma_arrange_round_trip(origin);
    }

    proof fn lemma_measured_size(&self, spec: MeasureSpec) {
        self.widget.lemma_measured_size(spec);
    }

    fn attach(&mut self, parent: usize, self_index: usize) {
        self.widget.attach(parent, self_index);
    }

    fn arrange(&mut self, position: Position) {
        self.widget.arrange(position);
    }

    fn bounding_box(&self) -> (b: BoundingBox) {
        self.widget.bounding_box()
    }

    fn measure(&mut self, spec: MeasureSpec) {
        self.widget.measure(spec);
    }

    fn children(&self) -> (n: usize) {
        self.widget.children()
    }

    fn child_bounding_box(&self, idx: usize) -> (b: BoundingBox) {
        self.widget.child_bounding_box(idx)
    }

    fn test_input(&self, event: InputEvent) -> (r: Option<usize>) {
        self.widget.test_input(event)
    }

    fn handle_input(&mut self, idx: usize, event: InputEvent) -> (r: Delivery) {
        self.widget.handle_input(idx, event)
    }

    /// Shows the widget the data if it changed since it was last shown, then
    /// lets the widget update itself.
    fn update(&mut self)
        ensures
            final(self).data_holder.last_version is Some,
            final(self).data_holder.data == old(self).data_holder.data,
            final(self).data_holder.on_data_changed == old(self).data_holder.on_data_changed,
    {
        self.data_holder.update(&mut self.widget);
        let ghost shown = self.widget;
        self.widget.update();
        assert(old(self).data_holder.synced(old(self).widget, self.data_holder, shown));
    }

    fn parent_index(&self) -> (r: usize) {
        self.widget.parent_index()
    }

    fn set_parent(&mut self, index: usize) {
        self.widget.set_parent(index);
    }

    fn change_state(&mut self, state: u32) {
        self.widget.change_state(state);
    }

    fn change_selection(&mut self, selected: bool)
        ensures
            final(self).data_holder == old(self).data_holder,
    {
        self.widget.change_selection(selected);
    }

    fn is_selectable(&self) -> bool {
        self.widget.is_selectable()
    }
}

/// A widget with interaction state of its own, a handler that restyles it
/// when that state changes, and optionally data it is bound to.
pub struct WidgetWrapper<W, DH, O> {
    pub parent_index: usize,
    pub widget: W,
    pub data_holder: DH,
    pub on_state_changed: O,
    pub state: WidgetState,
}

impl<W: Widget> WidgetWrapper<W, NoDataHolder, KeepWidget> {
    /// Wraps `widget`: idle, bound to nothing, with no handler.
    pub fn new(widget: W) -> (r: Self)
        ensures
            r.widget == widget,
            r.parent_index == 0,
            r.state.bits == STATE_IDLE,
    {
        WidgetWrapper {
            parent_index: 0,
            widget,
            data_holder: NoDataHolder,
            on_state_changed: KeepWidget,
            state: WidgetState::default(),
        }
    }
}

impl<W: Widget, DH, O> WidgetWrapper<W, DH, O> {
    /// Whether telling the widget of `bits` would invoke the handler.
    pub open spec fn notifies(&self, bits: u32) -> bool {
        self.state.differs_from(bits)
    }

    /// Registers the handler for state changes, replacing the one before.
    pub fn on_state_changed<O2: DataObserver<W, WidgetState>>(self, observer: O2) -> (r:
        WidgetWrapper<W, DH, O2>)
        ensures
            r.parent_index == self.parent_index,
            r.widget == self.widget,
            r.data_holder == self.data_holder,
            r.on_state_changed == observer,
            r.state == self.state,
    {
        WidgetWrapper {
            parent_index: self.parent_index,
            widget: self.widget,
            data_holder: self.data_holder,
            on_state_changed: observer,
            state: self.state,
        }
    }
}

/// Telling a wrapper the same flags twice invokes its handler at most once:
/// the second time the wrapped widget is told of the flags again, and the
/// handler is left out.
pub proof fn lemma_wrapper_notified_once<
    W: Widget,
    DH: WidgetDataHolderTrait<W>,
    O: DataObserver<W, WidgetState>,
>(wrapper: WidgetWrapper<W, DH, O>, bits: u32)
    ensures
        !wrapper.with_state(bits).notifies(bits),
        wrapper.with_state(bits).with_state(bits).widget == wrapper.with_state(
            bits,
        ).widget.with_state(bits),
        wrapper.with_state(bits).with_state(bits).state == wrapper.with_state(bits).state,
        !wrapper.notifies(bits) ==> wrapper.with_state(bits).widget == wrapper.widget.with_state(
            bits,
        ),
{
}

impl<W: Widget, D: WidgetData, H, O> WidgetWrapper<W, WidgetDataHolder<D, H>, O> {
    /// Registers the handler for changes of the data, replacing the one
    /// before, and invokes it at once with the data as it is. After that the
    /// handler is invoked in the update pass that follows a change of the
    /// data.
    pub fn on_data_changed<H2: DataObserver<W, D::Data>>(self, observer: H2) -> (r: WidgetWrapper<
        W,
        WidgetDataHolder<D, H2>,
        O,
    >)
        requires
            self.widget.wf(),
        ensures
            exists|value: D::Data| r.widget == observer.applied(self.widget, value),
            r.parent_index == self.parent_index,
            r.data_holder.data == self.data_holder.data,
            r.data_holder.last_version is Some,
            r.data_holder.on_data_changed == observer,
            r.on_state_changed == self.on_state_changed,
            r.state == self.state,
            r.widget.wf(),
            r.widget.child_count() == self.widget.child_count(),
    {
        let mut bound = WidgetWrapper {
            parent_index: self.parent_index,
            widget: self.widget,
            data_holder: self.data_holder.on_data_changed(observer),
            on_state_changed: self.on_state_changed,
            state: self.state,
        };
        bound.data_holder.update(&mut bound.widget);
        bound
    }
}

impl<W, DH, O> Widget for WidgetWrapper<W, DH, O> where
    W: Widget,
    DH: WidgetDataHolderTrait<W>,
    O: DataObserver<W, WidgetState>,
 {
    open spec fn wf(&self) -> bool {
        self.widget.wf()
    }

    open spec fn bounds(&self) -> BoundingBox {
        self.widget.bounds()
    }

    open spec fn size_for(&self, spec: MeasureSpec) -> MeasuredSize {
        self.widget.size_for(spec)
    }

    open spec fn child_count(&self) -> nat {
        self.widget.child_count()
    }

    open spec fn child_bounds(&self, idx: nat) -> BoundingBox {
        self.widget.child_bounds(idx)
    }

    open spec fn hit(&self, event: InputEvent) -> Option<nat> {
        self.widget.hit(event)
    }

    open spec fn parent(&self) -> usize {
        self.parent_index
    }

    open spec fn with_state(&self, bits: u32) -> Self {
        WidgetWrapper {
            parent_index: self.parent_index,
            widget: if self.notifies(bits) {
                self.on_state_changed.applied(self.widget.with_state(bits), WidgetState { bits })
            } else {
                self.widget.with_state(bits)
            },
            data_holder: self.data_holder,
            on_state_changed: self.on_state_changed,
            state: WidgetState { bits },
        }
    }

    open spec fn attached(&self, parent: usize, self_index: usize) -> Self {
        WidgetWrapper {
            parent_index: parent,
            widget: self.widget.attached(parent, self_index),
            ..*self
        }
    }

    open spec fn measured(&self, spec: MeasureSpec) -> Self {
        WidgetWrapper { widget: self.widget.measured(spec), ..*self }
    }

    open spec fn arranged(&self, position: Position) -> Self {
        WidgetWrapper { widget: self.widget.arranged(position), ..*self }
    }

    open spec fn with_parent(&self, index: usize) -> Self {
        WidgetWrapper { parent_index: index, ..*self }
    }

    open spec fn updated_to(&self, after: Self) -> bool {
        &&& exists|shown: W|
            {
                &&& #[trigger] self.data_holder.synced(self.widget, after.data_holder, shown)
                &&& shown.updated_to(after.widget)
            }
        &&& after == (WidgetWrapper {
            data_holder: after.data_holder,
            widget: after.widget,
            ..*self
        })
    }

    open spec fn selectable(&self) -> bool {
        false
    }

    open spec fn with_selection(&self, selected: bool) -> Self {
        *self
    }

    open spec fn after_input(&self, idx: nat, event: InputEvent) -> Self {
        let passed = self.widget.after_input(idx, event);
        match self.widget.input_flags(idx, event) {
            Some(bits) => WidgetWrapper {
                widget: if self.notifies(bits) {
                    self.on_state_changed.applied(passed, WidgetState { bits })
                } else {
                    passed
                },
                state: WidgetState { bits },
                ..*self
            },
            None => WidgetWrapper { widget: passed, ..*self },
        }
    }

    open spec fn input_activates(&self, idx: nat, event: InputEvent) -> bool {
        self.widget.input_activates(idx, event)
    }

    open spec fn input_flags(&self, idx: nat, event: InputEvent) -> Option<u32> {
        self.widget.input_flags(idx, event)
    }

    proof fn lemma_arrange_round_trip(&self, origin: Position) {
        self.widget.lemma_arrange_round_trip(origin);
    }

    proof fn lemma_measured_size(&self, spec: MeasureSpec) {
        self.widget.lemma_measured_size(spec);
    }

    fn attach(&mut self, parent: usize, self_index: usize) {
        self.parent_index = parent;
        self.widget.attach(parent, self_index);
    }

    fn arrange(&mut self, position: Position) {
        self.widget.arrange(position);
    }

    fn bounding_box(&self) -> (b: BoundingBox) {
        self.widget.bounding_box()
    }

    fn measure(&mut self, spec: MeasureSpec) {
        self.widget.measure(spec);
    }

    fn children(&self) -> (n: usize) {
        self.widget.children()
    }

    fn child_bounding_box(&self, idx: usize) -> (b: BoundingBox) {
        self.widget.child_bounding_box(idx)
    }

    fn test_input(&self, event: InputEvent) -> (r: Option<usize>) {
        self.widget.test_input(event)
    }

    /// Passes the event on to the wrapped widget, whose numbering the
    /// wrapper shares, and takes the flags that the node it was delivered to
    /// took: the handler is invoked if they differ from the wrapper's own.
    fn handle_input(&mut self, idx: usize, event: InputEvent) -> (r: Delivery) {
        let r = self.widget.handle_input(idx, event);
        match r.flags {
            Some(bits) => {
                if self.state.change_state(bits) {
                    self.on_state_changed.on_data_changed(&mut self.widget, &self.state);
                }
            },
            None => {},
        }
        r
    }

    /// Shows the widget the data it is bound to, then lets the widget update
    /// itself.
    fn update(&mut self)
        ensures
            final(self).state == old(self).state,
            final(self).parent_index == old(self).parent_index,
            final(self).on_state_changed == old(self).on_state_changed,
    {
        self.data_holder.update(&mut self.widget);
        let ghost shown = self.widget;
        self.widget.update();
        assert(old(self).data_holder.synced(old(self).widget, self.data_holder, shown));
    }

    fn parent_index(&self) -> (r: usize) {
        self.parent_index
    }

    fn set_parent(&mut self, index: usize) {
        self.parent_index = index;
    }

    /// Tells the wrapped widget of the new flags, then takes them itself.
    /// The handler is invoked only if the wrapper's own flags changed, so
    /// telling it the same flags again does not invoke it.
    fn change_state(&mut self, state: u32)
        ensures
            !final(self).notifies(state),
    {
        self.widget.change_state(state);
        if self.state.change_state(state) {
            self.on_state_changed.on_data_changed(&mut self.widget, &self.state);
        }
    }

    /// Does nothing: the wrapper cannot be selected.
    fn change_selection(&mut self, selected: bool)
        ensures
            *final(self) == *old(self),
    {
    }

    fn is_selectable(&self) -> (r: bool)
        ensures
            !r,
    {
        false
    }
}

} // verus!
