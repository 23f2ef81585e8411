//! A widget that shows a line of text.

use vstd::prelude::*;
use crate::data::KeepWidget;
use crate::data::WidgetData;
use crate::geometry::BoundingBox;
use crate::geometry::MeasuredSize;
use crate::geometry::Position;
use crate::input::Delivery;
use crate::input::InputEvent;
use crate::measurement::MeasureSpec;
use crate::state::WidgetState;
use crate::state::STATE_IDLE;
use crate::widget::NoObserver;
use crate::widget::StateObserver;
use crate::widget::Widget;
use crate::wrapper::Wrapper;

verus! {

/// How text looks and how large it is.
pub trait LabelProperties {
    /// The size of `text` under `spec`.
    spec fn text_size(&self, text: Seq<char>, spec: MeasureSpec) -> MeasuredSize;

    /// The size of `text` under `spec`.
    fn measure_text(&self, text: &str, spec: MeasureSpec) -> (size: MeasuredSize)
        ensures
            size == self.text_size(text@, spec),
    ;
}

/// Text in a font whose characters all have the same size, on one line,
/// held to the constraints it is measured under.
#[derive(Clone, Copy, Debug, PartialEq, Eq, Structural)]
pub struct FixedPitch {
    pub character_width: u32,
    pub character_height: u32,
}

impl FixedPitch {
    /// The width of a line of `count` characters, held at `u32::MAX`.
    pub open spec fn line_width(&self, count: nat) -> u32 {
        if count * self.character_width > u32::MAX {
            u32::MAX
        } else {
            (count * self.character_width) as u32
        }
    }
}

impl LabelProperties for FixedPitch {
    open spec fn text_size(&self, text: Seq<char>, spec: MeasureSpec) -> MeasuredSize {
        MeasuredSize {
            width: spec.width.applied_to(self.line_width(text.len())),
            height: spec.height.applied_to(self.character_height),
        }
    }

    fn measure_text(&self, text: &str, spec: MeasureSpec) -> (size: MeasuredSize) {
        let count = text.unicode_len();
        assert(count as u128 * self.character_width as u128 <= 0xffff_ffff_ffff_ffff
            * 0xffff_ffff) by (nonlinear_arith)
            requires
                count <= 0xffff_ffff_ffff_ffff,
                self.character_width <= 0xffff_ffff,
        ;
        let wide: u128 = count as u128 * self.character_width as u128;
        let natural: u32 = if wide > u32::MAX as u128 {
            u32::MAX
        } else {
            wide as u32
        };
        MeasuredSize {
            width: spec.width.apply_to_measured(natural),
            height: spec.height.apply_to_measured(self.character_height),
        }
    }
}

/// A line of text: a leaf. The observer may restyle the text when the
/// interaction state changes.
pub struct Label<P, O> {
    pub text: String,
    pub label_properties: P,
    pub parent_index: usize,
    pub on_state_changed: O,
    pub bounds: BoundingBox,
    pub state: WidgetState,
}

impl<P: LabelProperties> Label<P, NoObserver> {
    /// A label that shows `text`: idle, with an empty box at the origin.
    pub fn new(text: String, label_properties: P) -> (r: Self)
        ensures
            r.text == text,
            r.label_properties == label_properties,
            r.parent_index == 0,
            r.bounds == (BoundingBox {
                position: Position { x: 0, y: 0 },
                size: MeasuredSize { width: 0, height: 0 },
            }),
            r.state.bits == STATE_IDLE,
    {
        Label {
            text,
            label_properties,
            parent_index: 0,
            on_state_changed: NoObserver,
            bounds: BoundingBox::default(),
            state: WidgetState::default(),
        }
    }
}

impl<P: LabelProperties, O: StateObserver<P>> Label<P, O> {
    /// Whether telling the label of `bits` would invoke the observer.
    pub open spec fn notifies(&self, bits: u32) -> bool {
        self.state.differs_from(bits)
    }

    /// Registers the handler for state changes, replacing the one before.
    pub fn on_state_changed<O2: StateObserver<P>>(self, callback: O2) -> (r: Label<P, O2>)
        ensures
            r.text == self.text,
            r.label_properties == self.label_properties,
            r.parent_index == self.parent_index,
            r.on_state_changed == callback,
            r.bounds == self.bounds,
            r.state == self.state,
    {
        Label {
            text: self.text,
            label_properties: self.label_properties,
            parent_index: self.parent_index,
            on_state_changed: callback,
            bounds: self.bounds,
            state: self.state,
        }
    }

    /// Binds the label to `data`, with no handler for the data yet.
    pub fn bind<D: WidgetData>(self, data: D) -> (r: Wrapper<Label<P, O>, D, KeepWidget>)
        ensures
            r.widget == self,
            r.data_holder.data == data,
            r.data_holder.last_version is None,
    {
        Wrapper::wrap(self, data)
    }

    /// Replaces the text. The box keeps its size until the label is measured
    /// again.
    pub fn set_text(&mut self, text: String)
        ensures
            *final(self) == (Label { text, ..*old(self) }),
    {
        self.text = text;
    }
}

impl<P: LabelProperties, O: StateObserver<P>> Widget for Label<P, O> {
    open spec fn wf(&self) -> bool {
        true
    }

    open spec fn bounds(&self) -> BoundingBox {
        self.bounds
    }

    open spec fn size_for(&self, spec: MeasureSpec) -> MeasuredSize {
        self.label_properties.text_size(self.text@, spec)
    }

    open spec fn child_count(&self) -> nat {
        0
    }

    open spec fn child_bounds(&self, idx: nat) -> BoundingBox {
        self.bounds
    }

    open spec fn hit(&self, event: InputEvent) -> Option<nat> {
        None
    }

    open spec fn parent(&self) -> usize {
        self.parent_index
    }

    open spec fn with_state(&self, bits: u32) -> Self {
        Label {
            text: self.text,
            label_properties: if self.notifies(bits) {
                self.on_state_changed.reaction(self.label_properties, WidgetState { bits })
            } else {
                self.label_properties
            },
            parent_index: self.parent_index,
            on_state_changed: self.on_state_changed,
            bounds: self.bounds,
            state: WidgetState { bits },
        }
    }

    open spec fn attached(&self, parent: usize, self_index: usize) -> Self {
        Label { parent_index: parent, ..*self }
    }

    open spec fn measured(&self, spec: MeasureSpec) -> Self {
        Label {
            bounds: BoundingBox { position: self.bounds.position, size: self.size_for(spec) },
            ..*self
        }
    }

    open spec fn arranged(&self, position: Position) -> Self {
        Label { bounds: BoundingBox { position, size: self.bounds.size }, ..*self }
    }

    open spec fn with_parent(&self, index: usize) -> Self {
        Label { parent_index: index, ..*self }
    }

    open spec fn updated_to(&self, after: Self) -> bool {
        after == *self
    }

    open spec fn selectable(&self) -> bool {
        false
    }

    open spec fn with_selection(&self, selected: bool) -> Self {
        *self
    }

    open spec fn after_input(&self, idx: nat, event: InputEvent) -> Self {
        *self
    }

    open spec fn input_activates(&self, idx: nat, event: InputEvent) -> bool {
        false
    }

    open spec fn input_flags(&self, idx: nat, event: InputEvent) -> Option<u32> {
        None
    }

    proof fn lemma_arrange_round_trip(&self, origin: Position) {
    }

    proof fn lemma_measured_size(&self, spec: MeasureSpec) {
    }

    fn attach(&mut self, parent: usize, self_index: usize) {
        self.parent_index = parent;
    }

    fn arrange(&mut self, position: Position) {
        self.bounds.position = position;
    }

    fn bounding_box(&self) -> (b: BoundingBox) {
        self.bounds
    }

    /// Asks the properties for the size of the text and records it.
    fn measure(&mut self, spec: MeasureSpec) {
        let size = self.label_properties.measure_text(self.text.as_str(), spec);
        self.bounds.size = size;
    }

    fn children(&self) -> (n: usize) {
        0
    }

    fn child_bounding_box(&self, idx: usize) -> (b: BoundingBox) {
        self.bounds
    }

    /// A label takes no input.
    fn test_input(&self, event: InputEvent) -> (r: Option<usize>) {
        None
    }

    /// Does nothing: the widget takes no input.
    fn handle_input(&mut self, idx: usize, event: InputEvent) -> (r: Delivery) {
        Delivery { activated: false, flags: None }
    }

    /// Does nothing: a label has nothing to bring up to date.
    fn update(&mut self)
        ensures
            *final(self) == *old(self),
    {
    }

    fn parent_index(&self) -> (r: usize) {
        self.parent_index
    }

    fn set_parent(&mut self, index: usize) {
        self.parent_index = index;
    }

    /// Takes the new flags. The observer is invoked only if they differ from
    /// the flags the label had.
    fn change_state(&mut self, state: u32)
        ensures
            !final(self).notifies(state),
    {
        if self.state.change_state(state) {
            self.on_state_changed.on_state_changed(&mut self.label_properties, self.state);
        }
    }

    /// Does nothing: a label cannot be selected.
    fn change_selection(&mut self, selected: bool)
        ensures
            *final(self) == *old(self),
    {
    }

    fn is_selectable(&self) -> (r: bool)
        ensures
            !r,
    {
        false
    }
}

} // verus!
