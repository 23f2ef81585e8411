//! A decorator that draws a frame around its child.

use vstd::prelude::*;
use crate::data::KeepWidget;
use crate::data::NoDataHolder;
use crate::data::WidgetData;
use crate::data::WidgetDataHolder;
use crate::geometry::extent_sum;
use crate::geometry::lemma_shift_round_trip;
use crate::geometry::BoundingBox;
use crate::geometry::MeasuredSize;
use crate::geometry::Position;
use crate::input::Delivery;
use crate::input::InputEvent;
use crate::measurement::MeasureSpec;
use crate::state::WidgetState;
use crate::state::STATE_IDLE;
use crate::data::DataObserver;
use crate::data::WidgetDataHolderTrait;
use crate::spacing::Spacing;
use crate::spacing::SpacingSpec;
use crate::widget::StateObserver;
use crate::widget::Widget;
use crate::wrapper::WidgetWrapper;

verus! {

/// How a frame looks: its colour, in the colour type of the display, and its
/// width.
pub trait BorderProperties: Sized {
    type Color;

    /// The width of the frame in pixels.
    spec fn width(&self) -> u32;

    /// The properties with the colour replaced.
    spec fn with_color(&self, color: Self::Color) -> Self;

    /// Replaces the colour. The width stays as it is.
    fn border_color(&mut self, color: Self::Color)
        ensures
            *final(self) == old(self).with_color(color),
            final(self).width() == old(self).width(),
    ;

    /// The width of the frame in pixels.
    fn get_border_width(&self) -> (w: u32)
        ensures
            w == self.width(),
    ;
}

/// A frame of one colour.
#[derive(Debug)]
pub struct BorderStyle<C> {
    pub color: C,
    pub width: u32,
}

impl<C> BorderStyle<C> {
    /// A frame of the given colour and width.
    pub fn new(color: C, width: u32) -> (r: Self)
        ensures
            r.color == color,
            r.width == width,
    {
        BorderStyle { color, width }
    }
}

impl<C> BorderProperties for BorderStyle<C> {
    type Color = C;

    open spec fn width(&self) -> u32 {
        self.width
    }

    open spec fn with_color(&self, color: C) -> Self {
        BorderStyle { color, width: self.width }
    }

    fn border_color(&mut self, color: C) {
        self.color = color;
    }

    fn get_border_width(&self) -> (w: u32) {
        self.width
    }
}

/// A widget with a frame around it. The frame takes room on all four sides.
pub struct Border<W, P> {
    pub inner: W,
    pub border_properties: P,
    pub parent_index: usize,
}

impl<W: Widget, P: BorderProperties> Border<W, P> {
    /// The room the frame takes on two opposite sides together.
    pub open spec fn thickness(&self) -> u32 {
        extent_sum(self.border_properties.width(), self.border_properties.width())
    }

    /// Frames `inner` with the given properties.
    pub fn with_properties(inner: W, border_properties: P) -> (r: WidgetWrapper<
        Self,
        NoDataHolder,
        KeepWidget,
    >)
        ensures
            r.widget.inner == inner,
            r.widget.border_properties == border_properties,
            r.widget.parent_index == 0,
            r.parent_index == 0,
            r.state.bits == STATE_IDLE,
    {
        WidgetWrapper::new(Border { inner, border_properties, parent_index: 0 })
    }

    /// Frames `inner` with the default properties of `P`.
    pub fn new(inner: W) -> (r: WidgetWrapper<Self, NoDataHolder, KeepWidget>) where P: Default
        ensures
            r.widget.inner == inner,
            r.widget.parent_index == 0,
            r.parent_index == 0,
            r.state.bits == STATE_IDLE,
    {
        Self::with_properties(inner, P::default())
    }

    /// Replaces the colour of the frame.
    pub fn border_color(&mut self, color: P::Color)
        ensures
            final(self).border_properties == old(self).border_properties.with_color(color),
            final(self).inner == old(self).inner,
            final(self).parent_index == old(self).parent_index,
            final(self).bounds() == old(self).bounds(),
    {
        self.border_properties.border_color(color);
    }
}

impl<W: Widget, P: BorderProperties, O> WidgetWrapper<Border<W, P>, NoDataHolder, O> {
    /// Binds the framed widget to `data`. The handler for state changes is
    /// dropped and the widget starts idle again.
    pub fn bind<D: WidgetData>(self, data: D) -> (r: WidgetWrapper<
        Border<W, P>,
        WidgetDataHolder<D, KeepWidget>,
        KeepWidget,
    >)
        ensures
            r.parent_index == self.parent_index,
            r.widget == self.widget,
            r.data_holder.data == data,
            r.data_holder.last_version is None,
            r.state.bits == STATE_IDLE,
    {
        WidgetWrapper {
            parent_index: self.parent_index,
            widget: self.widget,
            data_holder: WidgetDataHolder::new(data),
            on_state_changed: KeepWidget,
            state: WidgetState::default(),
        }
    }
}

impl<W: Widget, P: BorderProperties, DH, O> WidgetWrapper<Border<W, P>, DH, O> {
    /// Replaces the colour of the frame.
    pub fn border_color(self, color: P::Color) -> (r: Self)
        ensures
            r.widget.border_properties == self.widget.border_properties.with_color(color),
            r.widget.inner == self.widget.inner,
            r.widget.parent_index == self.widget.parent_index,
            r.parent_index == self.parent_index,
            r.data_holder == self.data_holder,
            r.on_state_changed == self.on_state_changed,
            r.state == self.state,
    {
        let mut this = self;
        this.widget.border_color(color);
        this
    }
}

/// A frame around a spacing around a widget: the box of the whole is the
/// box of the widget, surrounded first by the room of the spacing and then by
/// the width of the frame. The same holds of the size it measures: the widget
/// is measured under what the frame and then the spacing leave of the
/// constraints, and its size is grown by the room and then by the frame.
pub proof fn lemma_border_around_spacing<
    W: Widget,
    O: StateObserver<SpacingSpec>,
    P: BorderProperties,
    DH: WidgetDataHolderTrait<Border<Spacing<W, O>, P>>,
    O2: DataObserver<Border<Spacing<W, O>, P>, WidgetState>,
>(framed: WidgetWrapper<Border<Spacing<W, O>, P>, DH, O2>, spec: MeasureSpec)
    ensures
        ({
            let border = framed.widget;
            let spacing = border.inner.spacing;
            let width = border.border_properties.width();
            let widget = border.inner.inner;
            &&& framed.bounds() == widget.bounds().expanded_by(
                spacing.left,
                spacing.top,
                spacing.right,
                spacing.bottom,
            ).expanded_by(width, width, width, width)
            &&& framed.size_for(spec) == widget.size_for(
                spec.shrunk_by(border.thickness(), border.thickness()).shrunk_by(
                    spacing.horizontal(),
                    spacing.vertical(),
                ),
            ).grown_by(spacing.horizontal(), spacing.vertical()).grown_by(
                border.thickness(),
                border.thickness(),
            )
            &&& framed.bounds() == border.bounds()
            &&& border.bounds() == border.inner.bounds().expanded_by(width, width, width, width)
            &&& framed.measured(spec).bounds().size == framed.size_for(spec)
        }),
{
    framed.lemma_measured_size(spec);
}

/// A frame that was placed at `origin` has put its child the width of the
/// frame to the right of and below `origin`, and its own box starts at
/// `origin`.
pub proof fn lemma_border_places_child<W: Widget, P: BorderProperties>(
    border: Border<W, P>,
    origin: Position,
)
    ensures
        border.arranged(origin).bounds().position == origin,
        border.arranged(origin).inner.bounds().position == origin.offset_by(
            border.border_properties.width(),
            border.border_properties.width(),
        ),
{
    border.lemma_arrange_round_trip(origin);
    border.inner.lemma_arrange_round_trip(
        origin.offset_by(border.border_properties.width(), border.border_properties.width()),
    );
}

/// While nothing saturates, surrounding a box by a spacing and then by a
/// frame surrounds it by the sum of both on every side.
pub proof fn lemma_insets_add_up(
    inner: BoundingBox,
    spacing: SpacingSpec,
    width: u32,
)
    requires
        spacing.left + width <= u32::MAX,
        spacing.top + width <= u32::MAX,
        spacing.right + width <= u32::MAX,
        spacing.bottom + width <= u32::MAX,
        spacing.left + spacing.right + 2 * width <= u32::MAX,
        spacing.top + spacing.bottom + 2 * width <= u32::MAX,
    ensures
        inner.expanded_by(spacing.left, spacing.top, spacing.right, spacing.bottom).expanded_by(
            width,
            width,
            width,
            width,
        ) == inner.expanded_by(
            (spacing.left + width) as u32,
            (spacing.top + width) as u32,
            (spacing.right + width) as u32,
            (spacing.bottom + width) as u32,
        ),
{
}

impl<W: Widget, P: BorderProperties> Widget for Border<W, P> {
    open spec fn wf(&self) -> bool {
        self.inner.wf() && self.inner.child_count() < usize::MAX
    }

    open spec fn bounds(&self) -> BoundingBox {
        self.inner.bounds().expanded_by(
            self.border_properties.width(),
            self.border_properties.width(),
            self.border_properties.width(),
            self.border_properties.width(),
        )
    }

    open spec fn size_for(&self, spec: MeasureSpec) -> MeasuredSize {
        self.inner.size_for(spec.shrunk_by(self.thickness(), self.thickness())).grown_by(
            self.thickness(),
            self.thickness(),
        )
    }

    open spec fn child_count(&self) -> nat {
        1 + self.inner.child_count()
    }

    open spec fn child_bounds(&self, idx: nat) -> BoundingBox {
        if idx == 0 {
            self.inner.bounds()
        } else {
            self.inner.child_bounds((idx - 1) as nat)
        }
    }

    open spec fn hit(&self, event: InputEvent) -> Option<nat> {
        match self.inner.hit(event) {
            Some(i) => Some(i + 1),
            None => None,
        }
    }

    open spec fn parent(&self) -> usize {
        self.parent_index
    }

    open spec fn with_state(&self, bits: u32) -> Self {
        Border {
            inner: self.inner.with_state(bits),
            border_properties: self.border_properties,
            parent_index: self.parent_index,
        }
    }

    open spec fn attached(&self, parent: usize, self_index: usize) -> Self {
        Border {
            parent_index: parent,
            inner: self.inner.attached(self_index, (self_index + 1) as usize),
            ..*self
        }
    }

    open spec fn measured(&self, spec: MeasureSpec) -> Self {
        Border {
            inner: self.inner.measured(spec.shrunk_by(self.thickness(), self.thickness())),
            ..*self
        }
    }

    open spec fn arranged(&self, position: Position) -> Self {
        Border {
            inner: self.inner.arranged(
                position.offset_by(
                    self.border_properties.width(),
                    self.border_properties.width(),
                ),
            ),
            ..*self
        }
    }

    open spec fn with_parent(&self, index: usize) -> Self {
        Border { parent_index: index, ..*self }
    }

    open spec fn updated_to(&self, after: Self) -> bool {
        &&& self.inner.updated_to(after.inner)
        &&& after == (Border { inner: after.inner, ..*self })
    }

    open spec fn selectable(&self) -> bool {
        false
    }

    open spec fn with_selection(&self, selected: bool) -> Self {
        *self
    }

    open spec fn after_input(&self, idx: nat, event: InputEvent) -> Self {
        if idx == 0 {
            *self
        } else {
            Border { inner: self.inner.after_input((idx - 1) as nat, event), ..*self }
        }
    }

    open spec fn input_activates(&self, idx: nat, event: InputEvent) -> bool {
        idx != 0 && self.inner.input_activates((idx - 1) as nat, event)
    }

    open spec fn input_flags(&self, idx: nat, event: InputEvent) -> Option<u32> {
        if idx == 0 {
            None
        } else {
            self.inner.input_flags((idx - 1) as nat, event)
        }
    }

    proof fn lemma_arrange_round_trip(&self, origin: Position) {
        let width = self.border_properties.width();
        self.inner.lemma_arrange_round_trip(origin.offset_by(width, width));
        lemma_shift_round_trip(origin.x, width);
        lemma_shift_round_trip(origin.y, width);
    }

    proof fn lemma_measured_size(&self, spec: MeasureSpec) {
        self.inner.lemma_measured_size(spec.shrunk_by(self.thickness(), self.thickness()));
    }

    /// Records `parent` and attaches the child below this node: the child
    /// records `self_index` as its parent and is node `self_index + 1`.
    fn attach(&mut self, parent: usize, self_index: usize)
        ensures
            final(self).inner.parent() == self_index,
            final(self).inner == old(self).inner.attached(self_index, (self_index + 1) as usize),
    {
        self.parent_index = parent;
        self.inner.attach(self_index, self_index + 1);
    }

    /// Places the child inside the frame: the width of the frame to the right
    /// of and below `position`.
    fn arrange(&mut self, position: Position)
        ensures
            final(self).inner.bounds().position == position.offset_by(
                old(self).border_properties.width(),
                old(self).border_properties.width(),
            ),
            final(self).border_properties == old(self).border_properties,
    {
        let bw = self.border_properties.get_border_width();
        self.inner.arrange(position.offset(bw, bw));
        proof {
            lemma_shift_round_trip(position.x, bw);
            lemma_shift_round_trip(position.y, bw);
        }
    }

    fn bounding_box(&self) -> (b: BoundingBox) {
        let bw = self.border_properties.get_border_width();
        let bounds = self.inner.bounding_box();
        bounds.expand(bw, bw, bw, bw)
    }

    /// Measures the child under the constraints that remain once the frame
    /// is set aside on both sides of each axis.
    fn measure(&mut self, spec: MeasureSpec)
        ensures
            final(self).inner.bounds().size == old(self).inner.size_for(
                spec.shrunk_by(old(self).thickness(), old(self).thickness()),
            ),
            final(self).border_properties == old(self).border_properties,
    {
        let bw = self.border_properties.get_border_width();
        let both = bw.saturating_add(bw);
        self.inner.measure(spec.shrink(both, both));
    }

    fn children(&self) -> (n: usize) {
        1 + self.inner.children()
    }

    fn child_bounding_box(&self, idx: usize) -> (b: BoundingBox) {
        if idx == 0 {
            self.inner.bounding_box()
        } else {
            self.inner.child_bounding_box(idx - 1)
        }
    }

    fn test_input(&self, event: InputEvent) -> (r: Option<usize>) {
        match self.inner.test_input(event) {
            Some(i) => Some(i + 1),
            None => None,
        }
    }

    /// The decorator takes no input itself and keeps no flags; an event for
    /// a node below it is passed on.
    fn handle_input(&mut self, idx: usize, event: InputEvent) -> (r: Delivery) {
        if idx == 0 {
            Delivery { activated: false, flags: None }
        } else {
            self.inner.handle_input(idx - 1, event)
        }
    }

    fn update(&mut self)
        ensures
            final(self).border_properties == old(self).border_properties,
    {
        self.inner.update();
    }

    fn parent_index(&self) -> (r: usize) {
        self.parent_index
    }

    fn set_parent(&mut self, index: usize) {
        self.parent_index = index;
    }

    /// Tells the child of the new flags. The frame keeps no flags itself:
    /// the wrapper around it does.
    fn change_state(&mut self, state: u32) {
        self.inner.change_state(state);
    }

    /// Does nothing: a frame cannot be selected.
    fn change_selection(&mut self, selected: bool)
        ensures
            *final(self) == *old(self),
    {
    }

    fn is_selectable(&self) -> (r: bool)
        ensures
            !r,
    {
        false
    }
}

} // verus!
