use embedded_gui::border::{Border, BorderProperties, BorderStyle};
use embedded_gui::button::Button;
use embedded_gui::data::DataObserver;
use embedded_gui::geometry::{BoundingBox, MeasuredSize, Position};
use embedded_gui::input::{InputEvent, PointerEvent};
use embedded_gui::measurement::{MeasureConstraint, MeasureSpec};
use embedded_gui::radio::{FixedMark, RadioButton};
use embedded_gui::spacing::{Spacing, SpacingSpec};
use embedded_gui::state::{WidgetState, STATE_HOVERED, STATE_IDLE, STATE_PRESSED};
use embedded_gui::widget::{NoObserver, StateObserver, Widget};

type Mark = RadioButton<FixedMark, NoObserver>;

fn mark(width: u32, height: u32) -> Mark {
    RadioButton::with_properties(FixedMark { size: MeasuredSize { width, height } })
}

fn at_most(width: u32, height: u32) -> MeasureSpec {
    MeasureSpec {
        width: MeasureConstraint::AtMost(width),
        height: MeasureConstraint::AtMost(height),
    }
}

/// Adds one pixel of room on the left each time it is notified.
struct Widening;

impl StateObserver<SpacingSpec> for Widening {
    fn reaction(&self, target: SpacingSpec, _state: WidgetState) -> SpacingSpec {
        SpacingSpec { left: target.left + 1, ..target }
    }

    fn on_state_changed(&self, target: &mut SpacingSpec, _state: WidgetState) {
        target.left += 1;
    }
}

/// Paints the frame with the flags it is told.
struct PaintWithFlags;

impl<W: Widget> DataObserver<Border<W, BorderStyle<u8>>, WidgetState> for PaintWithFlags {
    fn applied(
        &self,
        widget: Border<W, BorderStyle<u8>>,
        data: WidgetState,
    ) -> Border<W, BorderStyle<u8>> {
        let mut widget = widget;
        widget.border_color(data.bits as u8);
        widget
    }

    fn on_data_changed(&self, widget: &mut Border<W, BorderStyle<u8>>, data: &WidgetState) {
        widget.border_color(data.bits as u8);
    }
}

#[test]
fn spacing_builders_set_each_side() {
    let s = Spacing::new(mark(1, 1)).left(1).right(2).top(3).bottom(4);
    assert_eq!(s.spacing, SpacingSpec { top: 3, right: 2, bottom: 4, left: 1 });
    let s = s.all(9);
    assert_eq!(s.spacing, SpacingSpec { top: 9, right: 9, bottom: 9, left: 9 });
    let s = s.top(0);
    assert_eq!(s.spacing, SpacingSpec { top: 0, right: 9, bottom: 9, left: 9 });
    assert_eq!(Spacing::new(mark(1, 1)).spacing, SpacingSpec::default());
}

#[test]
fn spacing_measures_the_child_under_what_is_left() {
    let mut s = Spacing::new(mark(100, 100)).left(3).right(4).top(5).bottom(6);
    s.measure(at_most(50, 40));
    // the child is allowed 50 - 7 by 40 - 11
    assert_eq!(s.inner.bounding_box().size, MeasuredSize { width: 43, height: 29 });
    assert_eq!(s.bounding_box().size, MeasuredSize { width: 50, height: 40 });
}

#[test]
fn spacing_larger_than_the_constraint_leaves_the_child_nothing() {
    let mut s = Spacing::new(mark(100, 100)).all(10);
    s.measure(MeasureSpec {
        width: MeasureConstraint::Exactly(10),
        height: MeasureConstraint::AtMost(5),
    });
    assert_eq!(s.inner.bounding_box().size, MeasuredSize { width: 0, height: 0 });
    assert_eq!(s.bounding_box().size, MeasuredSize { width: 20, height: 20 });
}

#[test]
fn arrange_then_bounding_box_gives_back_the_origin() {
    let mut s = Spacing::new(mark(10, 10)).left(3).top(5).right(1).bottom(2);
    s.measure(at_most(100, 100));
    s.arrange(Position { x: -7, y: 20 });
    assert_eq!(s.inner.bounding_box().position, Position { x: -4, y: 25 });
    assert_eq!(
        s.bounding_box(),
        BoundingBox {
            position: Position { x: -7, y: 20 },
            size: MeasuredSize { width: 14, height: 17 },
        }
    );
    let mut leaf = mark(10, 10);
    leaf.arrange(Position { x: 9, y: 8 });
    assert_eq!(leaf.bounding_box().position, Position { x: 9, y: 8 });
}

#[test]
fn arrange_round_trip_survives_the_edge_of_the_coordinate_range() {
    let mut s = Spacing::new(mark(10, 10)).left(30).top(u32::MAX);
    s.arrange(Position { x: i32::MAX - 10, y: i32::MIN });
    assert_eq!(s.bounding_box().position, Position { x: i32::MAX - 10, y: i32::MIN });
}

#[test]
fn border_around_spacing_expands_in_that_order() {
    let spaced = Spacing::new(mark(10, 20)).left(1).top(2).right(3).bottom(4);
    let mut framed = Border::with_properties(spaced, BorderStyle::new(0u8, 5));
    framed.measure(at_most(100, 100));
    framed.arrange(Position { x: 50, y: 60 });
    let inner = framed.widget.inner.inner.bounding_box();
    assert_eq!(
        inner,
        BoundingBox {
            position: Position { x: 56, y: 67 },
            size: MeasuredSize { width: 10, height: 20 },
        }
    );
    let spacing_box = framed.widget.inner.bounding_box();
    assert_eq!(spacing_box, inner.expand(1, 2, 3, 4));
    assert_eq!(framed.bounding_box(), spacing_box.expand(5, 5, 5, 5));
    assert_eq!(
        framed.bounding_box(),
        BoundingBox {
            position: Position { x: 50, y: 60 },
            size: MeasuredSize { width: 24, height: 36 },
        }
    );
    // the child was measured under what frame and spacing left
    let mut tight = Border::with_properties(
        Spacing::new(mark(100, 100)).left(1).top(2).right(3).bottom(4),
        BorderStyle::new(0u8, 5),
    );
    tight.measure(at_most(40, 30));
    assert_eq!(
        tight.widget.inner.inner.bounding_box().size,
        MeasuredSize { width: 40 - 10 - 4, height: 30 - 10 - 6 }
    );
    assert_eq!(tight.bounding_box().size, MeasuredSize { width: 40, height: 30 });
}

#[test]
fn border_color_keeps_the_width() {
    let framed = Border::with_properties(mark(1, 1), BorderStyle::new(1u8, 2)).border_color(7);
    assert_eq!(framed.widget.border_properties.color, 7);
    assert_eq!(framed.widget.border_properties.get_border_width(), 2);
    let mut style = BorderStyle::new('a', 3);
    style.border_color('b');
    assert_eq!(style.color, 'b');
    assert_eq!(style.width, 3);
}

#[test]
fn decorators_count_and_number_their_descendants() {
    let framed = Border::with_properties(
        Spacing::new(Button::new(mark(10, 20))),
        BorderStyle::new(0u8, 1),
    );
    // spacing, button, mark
    assert_eq!(framed.children(), 3);
    assert_eq!(framed.widget.inner.children(), 2);
    assert_eq!(mark(1, 1).children(), 0);
    let mut framed = framed;
    framed.measure(at_most(100, 100));
    framed.arrange(Position { x: 0, y: 0 });
    assert_eq!(framed.child_bounding_box(0), framed.widget.inner.bounding_box());
    assert_eq!(framed.child_bounding_box(1), framed.widget.inner.inner.bounding_box());
    assert_eq!(framed.child_bounding_box(2), framed.widget.inner.inner.inner.bounding_box());
    // a hit on the button, which is descendant 1, is reported as 2
    let hit = InputEvent::PointerEvent(Position { x: 5, y: 5 }, PointerEvent::Down);
    assert_eq!(framed.widget.inner.inner.test_input(hit), Some(0));
    assert_eq!(framed.widget.inner.test_input(hit), Some(1));
    assert_eq!(framed.test_input(hit), Some(2));
    let miss = InputEvent::PointerEvent(Position { x: 50, y: 5 }, PointerEvent::Down);
    assert_eq!(framed.test_input(miss), None);
}

#[test]
fn attach_numbers_the_subtree_in_pre_order() {
    let mut framed = Border::with_properties(
        Spacing::new(Button::new(mark(10, 20))),
        BorderStyle::new(0u8, 1),
    );
    framed.attach(0, 1);
    assert_eq!(framed.parent_index(), 0);
    assert_eq!(framed.widget.inner.parent_index(), 1);
    assert_eq!(framed.widget.inner.inner.parent_index(), 2);
    assert_eq!(framed.widget.inner.inner.inner.parent_index(), 3);
    framed.set_parent(9);
    assert_eq!(framed.parent_index(), 9);
}

#[test]
fn observer_is_notified_by_the_first_of_two_equal_writes_only() {
    let mut s = Spacing::new(Button::new(mark(1, 1))).on_state_changed(Widening);
    s.change_state(STATE_HOVERED);
    assert_eq!(s.spacing.left, 1);
    s.change_state(STATE_HOVERED);
    assert_eq!(s.spacing.left, 1);
    s.change_state(STATE_HOVERED | STATE_PRESSED);
    assert_eq!(s.spacing.left, 2);
    s.change_state(STATE_IDLE);
    assert_eq!(s.spacing.left, 3);
    s.change_state(STATE_IDLE);
    assert_eq!(s.spacing.left, 3);
    // the flags reached the child every time
    assert_eq!(s.inner.state.bits, STATE_IDLE);
    assert_eq!(s.state.bits, STATE_IDLE);
}

#[test]
fn state_is_passed_down_through_every_decorator() {
    let mut framed = Border::with_properties(
        Spacing::new(Button::new(mark(10, 20))),
        BorderStyle::new(0u8, 1),
    )
    .on_state_changed(PaintWithFlags);
    framed.change_state(STATE_PRESSED);
    assert_eq!(framed.state.bits, STATE_PRESSED);
    assert_eq!(framed.widget.inner.state.bits, STATE_PRESSED);
    assert_eq!(framed.widget.inner.inner.state.bits, STATE_PRESSED);
    assert_eq!(framed.widget.inner.inner.inner.state.bits, STATE_PRESSED);
    assert_eq!(framed.widget.border_properties.color, STATE_PRESSED as u8);
    framed.widget.border_properties.color = 0;
    framed.change_state(STATE_PRESSED);
    assert_eq!(framed.widget.border_properties.color, 0);
    assert!(!framed.is_selectable());
    assert!(framed.widget.inner.inner.inner.is_selectable());
}

/// A frame one pixel wide whose default colour is 0.
#[derive(Default)]
struct Thin {
    color: u8,
}

impl BorderProperties for Thin {
    type Color = u8;

    fn width(&self) -> u32 {
        1
    }

    fn with_color(&self, color: u8) -> Self {
        Thin { color }
    }

    fn border_color(&mut self, color: u8) {
        self.color = color;
    }

    fn get_border_width(&self) -> u32 {
        1
    }
}

#[test]
fn border_new_takes_the_default_properties() {
    let mut framed: embedded_gui::wrapper::WidgetWrapper<Border<Mark, Thin>, _, _> =
        Border::new(mark(10, 10));
    assert_eq!(framed.widget.border_properties.color, 0);
    assert_eq!(framed.state.bits, STATE_IDLE);
    assert_eq!(framed.parent_index(), 0);
    framed.measure(at_most(8, 100));
    assert_eq!(framed.widget.inner.bounding_box().size, MeasuredSize { width: 6, height: 10 });
    assert_eq!(framed.bounding_box().size, MeasuredSize { width: 8, height: 12 });
    let framed = framed.border_color(5);
    assert_eq!(framed.widget.border_properties.color, 5);
}

#[test]
fn binding_a_border_drops_the_state_handler_and_the_flags() {
    let flag = embedded_gui::data::BoundData::new(3usize, |_: usize| ());
    let mut framed =
        Border::with_properties(mark(1, 1), BorderStyle::new(0u8, 1)).on_state_changed(PaintWithFlags);
    framed.change_state(STATE_HOVERED);
    assert_eq!(framed.widget.border_properties.color, STATE_HOVERED as u8);
    let mut framed = Border::with_properties(mark(1, 1), BorderStyle::new(0u8, 1));
    framed.change_state(STATE_HOVERED);
    let mut bound = framed.bind(&flag);
    assert_eq!(bound.state.bits, STATE_IDLE);
    assert_eq!(bound.data_holder.last_version, None);
    bound.update();
    assert!(bound.data_holder.last_version.is_some());
    bound.change_state(STATE_PRESSED);
    assert_eq!(bound.widget.border_properties.color, 0);
}
