use std::cell::Cell;

use embedded_gui::background::{Background, BackgroundStyle};
use embedded_gui::border::{Border, BorderStyle};
use embedded_gui::button::{Button, ClickHandler};
use embedded_gui::column::Column;
use embedded_gui::dispatch::InputController;
use embedded_gui::fill::{force, FillParent};
use embedded_gui::geometry::{BoundingBox, MeasuredSize, Position};
use embedded_gui::input::{InputEvent, PointerEvent, ScrollEvent};
use embedded_gui::layout::weighted_share;
use embedded_gui::linear::{Cell as LayoutCell, LinearLayoutChainElement};
use embedded_gui::measurement::{MeasureConstraint, MeasureSpec};
use embedded_gui::radio::{FixedMark, RadioButton};
use embedded_gui::row::Row;
use embedded_gui::spacing::Spacing;
use embedded_gui::state::{STATE_HOVERED, STATE_IDLE, STATE_PRESSED};
use embedded_gui::visibility::{HiddenPolicy, Visibility};
use embedded_gui::widget::{NoObserver, Widget};

type Mark = RadioButton<FixedMark, NoObserver>;

struct Counting<'a> {
    clicks: &'a Cell<u32>,
}

impl<'a> ClickHandler for Counting<'a> {
    fn on_clicked(&self) {
        self.clicks.set(self.clicks.get() + 1);
    }
}

fn mark(width: u32, height: u32) -> Mark {
    RadioButton::with_properties(FixedMark { size: MeasuredSize { width, height } })
}

fn at_most(width: u32, height: u32) -> MeasureSpec {
    MeasureSpec {
        width: MeasureConstraint::AtMost(width),
        height: MeasureConstraint::AtMost(height),
    }
}

fn pointer(x: i32, y: i32, what: PointerEvent) -> InputEvent {
    InputEvent::PointerEvent(Position { x, y }, what)
}

#[test]
fn stray_pixels_go_to_the_first_cells_whatever_their_weight() {
    // 100 pixels over 7 units of weight: 14 each and 2 stray pixels
    assert_eq!(weighted_share(100, 7, 5, 0), 71);
    assert_eq!(weighted_share(100, 7, 1, 1), 15);
    assert_eq!(weighted_share(100, 7, 1, 2), 14);
    // the same weights in another order: the pixels stay with the indices
    assert_eq!(weighted_share(100, 7, 1, 0), 15);
    assert_eq!(weighted_share(100, 7, 1, 1), 15);
    assert_eq!(weighted_share(100, 7, 5, 2), 70);
    // nothing to divide
    assert_eq!(weighted_share(0, 3, 2, 0), 0);
    // a single cell takes everything
    assert_eq!(weighted_share(10, 3, 3, 0), 10);
    let mut column = Column::new(LayoutCell::new(mark(1, 1)).weight(5))
        .add(LayoutCell::new(mark(1, 1)))
        .weight(1)
        .add(LayoutCell::new(mark(1, 1)))
        .weight(1);
    column.measure(at_most(10, 100));
    assert_eq!(column.widgets.bounding_box_at(0).size.height, 71);
    assert_eq!(column.widgets.bounding_box_at(1).size.height, 15);
    assert_eq!(column.widgets.bounding_box_at(2).size.height, 14);
    assert_eq!(column.widgets.weight(0), 5);
    assert_eq!(column.widgets.weight(2), 1);
}

#[test]
fn a_stray_pixel_on_a_fixed_cell_is_handed_to_no_one() {
    // one fixed cell of 10 pixels first, then weights 1 and 3 over 90 pixels:
    // 22 per unit, 2 stray pixels for the indices 0 and 1
    let mut column = Column::new(LayoutCell::new(mark(1, 10)))
        .add(LayoutCell::new(mark(1, 1)))
        .weight(1)
        .add(LayoutCell::new(mark(1, 1)))
        .weight(3);
    column.measure(at_most(10, 100));
    let heights: Vec<u32> =
        (0..3).map(|i| column.widgets.bounding_box_at(i).size.height).collect();
    assert_eq!(heights, vec![10, 23, 66]);
    assert_eq!(heights.iter().sum::<u32>(), 99);
    assert_eq!(column.bounding_box().size.height, 100);
}

#[test]
fn row_is_a_column_on_its_side() {
    let mut row = Row::new(LayoutCell::new(mark(10, 20)))
        .add(LayoutCell::new(mark(5, 30)))
        .weight(1)
        .add(LayoutCell::new(mark(5, 5)))
        .weight(3);
    row.measure(MeasureSpec {
        width: MeasureConstraint::Exactly(100),
        height: MeasureConstraint::AtMost(25),
    });
    // 90 pixels of width remain: 22 per unit, stray pixels for indices 0 and 1
    assert_eq!(row.bounding_box().size, MeasuredSize { width: 100, height: 25 });
    row.arrange(Position { x: 3, y: 4 });
    assert_eq!(row.children(), 3);
    assert_eq!(
        row.child_bounding_box(0),
        BoundingBox {
            position: Position { x: 3, y: 4 },
            size: MeasuredSize { width: 10, height: 20 },
        }
    );
    assert_eq!(
        row.child_bounding_box(1),
        BoundingBox {
            position: Position { x: 13, y: 4 },
            size: MeasuredSize { width: 23, height: 25 },
        }
    );
    assert_eq!(
        row.child_bounding_box(2),
        BoundingBox {
            position: Position { x: 36, y: 4 },
            size: MeasuredSize { width: 66, height: 5 },
        }
    );
    assert_eq!(row.bounding_box().position, Position { x: 3, y: 4 });
}

#[test]
fn row_hit_test_finds_the_cell_under_the_pointer() {
    let mut row = Row::new(LayoutCell::new(Button::new(mark(10, 10))))
        .add(LayoutCell::new(Button::new(mark(10, 10))));
    row.measure(at_most(100, 100));
    row.arrange(Position { x: 0, y: 0 });
    // nodes: 1 button, 2 mark, 3 button, 4 mark
    assert_eq!(row.children(), 4);
    assert_eq!(row.test_input(pointer(5, 5, PointerEvent::Hover)), Some(1));
    assert_eq!(row.test_input(pointer(15, 5, PointerEvent::Hover)), Some(3));
    assert_eq!(row.test_input(pointer(15, 50, PointerEvent::Hover)), None);
}

#[test]
fn hidden_widget_keeps_its_room_unless_told_to_collapse() {
    let mut reserving = Visibility::new(mark(10, 20));
    reserving.set_visible(false);
    reserving.measure(at_most(100, 100));
    assert_eq!(reserving.bounding_box().size, MeasuredSize { width: 10, height: 20 });
    assert!(!reserving.is_drawn());

    let mut collapsing = Visibility::new(mark(10, 20)).when_hidden(HiddenPolicy::Collapse);
    collapsing.measure(at_most(100, 100));
    assert_eq!(collapsing.bounding_box().size, MeasuredSize { width: 10, height: 20 });
    collapsing.set_visible(false);
    collapsing.measure(at_most(100, 100));
    assert_eq!(collapsing.bounding_box().size, MeasuredSize { width: 0, height: 0 });
    collapsing.set_visible(true);
    assert_eq!(collapsing.bounding_box().size, MeasuredSize { width: 10, height: 20 });
    assert!(collapsing.is_drawn());

    // in a column, the cells below move up only when the hidden cell collapses
    let mut column = Column::new(LayoutCell::new(Visibility::new(mark(10, 20))))
        .add(LayoutCell::new(mark(10, 5)));
    column.widgets.parent.object.widget.set_visible(false);
    column.measure(at_most(100, 100));
    column.arrange(Position { x: 0, y: 0 });
    assert_eq!(column.widgets.bounding_box_at(1).position, Position { x: 0, y: 20 });
    let mut column = Column::new(LayoutCell::new(
        Visibility::new(mark(10, 20)).when_hidden(HiddenPolicy::Collapse),
    ))
    .add(LayoutCell::new(mark(10, 5)));
    column.widgets.parent.object.widget.set_visible(false);
    column.measure(at_most(100, 100));
    column.arrange(Position { x: 0, y: 0 });
    assert_eq!(column.widgets.bounding_box_at(1).position, Position { x: 0, y: 0 });
}

#[test]
fn hidden_widget_is_not_arranged_and_takes_no_input() {
    let mut hidden = Visibility::new(Button::new(mark(10, 20)));
    hidden.measure(at_most(100, 100));
    hidden.arrange(Position { x: 5, y: 5 });
    assert_eq!(hidden.test_input(pointer(6, 6, PointerEvent::Down)), Some(1));
    hidden.set_visible(false);
    hidden.arrange(Position { x: 50, y: 50 });
    // the child stays where it was; the decorator remembers the new place
    assert_eq!(hidden.inner.bounding_box().position, Position { x: 5, y: 5 });
    assert_eq!(hidden.bounding_box().position, Position { x: 50, y: 50 });
    assert_eq!(hidden.test_input(pointer(6, 6, PointerEvent::Down)), None);
    assert_eq!(hidden.test_input(pointer(51, 51, PointerEvent::Down)), None);
    hidden.set_visible(true);
    hidden.arrange(Position { x: 50, y: 50 });
    assert_eq!(hidden.inner.bounding_box().position, Position { x: 50, y: 50 });
    assert_eq!(hidden.test_input(pointer(51, 51, PointerEvent::Down)), Some(1));
}

#[test]
fn fill_parent_makes_the_limit_mandatory() {
    assert_eq!(force(MeasureConstraint::AtMost(7)), MeasureConstraint::Exactly(7));
    assert_eq!(force(MeasureConstraint::Exactly(7)), MeasureConstraint::Exactly(7));
    assert_eq!(force(MeasureConstraint::Unspecified), MeasureConstraint::Unspecified);
    let mut wide = FillParent::horizontal(mark(10, 20));
    wide.measure(at_most(100, 100));
    assert_eq!(wide.bounding_box().size, MeasuredSize { width: 100, height: 20 });
    let mut tall = FillParent::vertical(mark(10, 20));
    tall.measure(at_most(100, 100));
    assert_eq!(tall.bounding_box().size, MeasuredSize { width: 10, height: 100 });
    let mut both = FillParent::both(mark(10, 20));
    both.measure(at_most(100, 100));
    assert_eq!(both.bounding_box().size, MeasuredSize { width: 100, height: 100 });
    both.measure(MeasureSpec {
        width: MeasureConstraint::Unspecified,
        height: MeasureConstraint::AtMost(30),
    });
    assert_eq!(both.bounding_box().size, MeasuredSize { width: 10, height: 30 });
}

#[test]
fn background_takes_the_room_of_its_child() {
    let mut painted = Background::with_properties(mark(10, 20), BackgroundStyle::new(3u8))
        .background_color(4);
    assert_eq!(painted.widget.background_properties.color, 4);
    painted.measure(at_most(100, 100));
    painted.arrange(Position { x: 1, y: 2 });
    assert_eq!(
        painted.bounding_box(),
        BoundingBox {
            position: Position { x: 1, y: 2 },
            size: MeasuredSize { width: 10, height: 20 },
        }
    );
    assert_eq!(painted.children(), 1);
}

#[test]
fn events_are_delivered_to_the_node_they_hit() {
    let first = Cell::new(0);
    let second = Cell::new(0);
    let mut tree = Spacing::new(
        Column::new(LayoutCell::new(
            Button::new(mark(20, 10)).on_clicked(Counting { clicks: &first }),
        ))
        .add(LayoutCell::new(
            Border::with_properties(
                Button::new(mark(20, 10)).on_clicked(Counting { clicks: &second }),
                BorderStyle::new(0u8, 1),
            ),
        )),
    )
    .all(2);
    tree.attach(0, 0);
    tree.measure(at_most(100, 100));
    tree.arrange(Position { x: 0, y: 0 });
    // nodes: 0 spacing, 1 column, 2 button, 3 mark, 4 border, 5 button, 6 mark
    assert_eq!(tree.children(), 6);
    let mut controller = InputController::new();

    // press and release on the first button
    assert_eq!(tree.test_input(pointer(5, 5, PointerEvent::Down)), Some(2));
    assert!(!controller.dispatch(&mut tree, pointer(5, 5, PointerEvent::Down)));
    assert_eq!(controller.focus, Some(2));
    assert!(controller.captured);
    assert_eq!(
        tree.inner.widgets.parent.object.widget.state.bits,
        STATE_HOVERED | STATE_PRESSED
    );
    // the spacing at the root, which is on the way to the button, took the
    // same flags; the frame around the other button did not
    assert_eq!(tree.state.bits, STATE_HOVERED | STATE_PRESSED);
    assert_eq!(tree.inner.widgets.object.widget.state.bits, STATE_IDLE);
    assert!(controller.dispatch(&mut tree, pointer(6, 6, PointerEvent::Up)));
    assert_eq!(first.get(), 1);
    assert_eq!(second.get(), 0);
    assert!(!controller.captured);

    // press on the second button, release over the first: no activation
    assert_eq!(tree.test_input(pointer(5, 15, PointerEvent::Down)), Some(5));
    controller.dispatch(&mut tree, pointer(5, 15, PointerEvent::Down));
    assert_eq!(tree.inner.widgets.parent.object.widget.state.bits, STATE_IDLE);
    assert_eq!(
        tree.inner.widgets.object.widget.widget.inner.state.bits,
        STATE_HOVERED | STATE_PRESSED
    );
    // the frame that owns the button follows it, and so does the root
    assert_eq!(tree.inner.widgets.object.widget.state.bits, STATE_HOVERED | STATE_PRESSED);
    assert_eq!(tree.state.bits, STATE_HOVERED | STATE_PRESSED);
    assert!(!controller.dispatch(&mut tree, pointer(5, 5, PointerEvent::Up)));
    assert_eq!(first.get(), 1);
    assert_eq!(second.get(), 0);
    assert_eq!(tree.inner.widgets.object.widget.widget.inner.state.bits, STATE_IDLE);
    assert_eq!(tree.inner.widgets.object.widget.state.bits, STATE_IDLE);
    assert_eq!(tree.state.bits, STATE_IDLE);

    // hovering from one button to the other clears the first
    controller.dispatch(&mut tree, pointer(5, 5, PointerEvent::Hover));
    assert_eq!(tree.inner.widgets.parent.object.widget.state.bits, STATE_HOVERED);
    controller.dispatch(&mut tree, InputEvent::ScrollEvent(ScrollEvent::VerticalScroll(1)));
    assert_eq!(tree.inner.widgets.parent.object.widget.state.bits, STATE_HOVERED);
    controller.dispatch(&mut tree, pointer(5, 15, PointerEvent::Hover));
    assert_eq!(tree.inner.widgets.parent.object.widget.state.bits, STATE_IDLE);
    assert_eq!(tree.inner.widgets.object.widget.widget.inner.state.bits, STATE_HOVERED);
    // leaving everything clears the second
    controller.dispatch(&mut tree, pointer(90, 90, PointerEvent::Hover));
    assert_eq!(tree.inner.widgets.object.widget.widget.inner.state.bits, STATE_IDLE);
    assert_eq!(controller.focus, None);
}

#[test]
fn events_for_a_node_are_not_seen_by_the_others() {
    let clicks = Cell::new(0);
    let mut tree = Column::new(LayoutCell::new(
        Button::new(mark(20, 10)).on_clicked(Counting { clicks: &clicks }),
    ))
    .add(LayoutCell::new(Button::new(mark(20, 10))));
    tree.measure(at_most(100, 100));
    tree.arrange(Position { x: 0, y: 0 });
    // the column itself takes nothing
    assert!(!tree.handle_input(0, pointer(5, 5, PointerEvent::Down)).activated);
    assert_eq!(tree.widgets.parent.object.widget.state.bits, STATE_IDLE);
    // node 1 is the first button
    let pressed = tree.handle_input(1, pointer(5, 5, PointerEvent::Down));
    assert!(!pressed.activated);
    assert_eq!(pressed.flags, Some(STATE_HOVERED | STATE_PRESSED));
    assert_eq!(tree.widgets.parent.object.widget.state.bits, STATE_HOVERED | STATE_PRESSED);
    assert_eq!(tree.widgets.object.widget.state.bits, STATE_IDLE);
    assert!(tree.handle_input(1, pointer(5, 5, PointerEvent::Up)).activated);
    assert_eq!(clicks.get(), 1);
    // node 2 is the mark inside it: it takes nothing
    let ignored = tree.handle_input(2, pointer(5, 5, PointerEvent::Down));
    assert!(!ignored.activated);
    assert_eq!(ignored.flags, None);
    assert_eq!(tree.widgets.parent.object.widget.state.bits, STATE_HOVERED);
}

/// Paints a frame with the flags it is told.
struct Repaint;

impl<W: Widget> embedded_gui::data::DataObserver<Border<W, BorderStyle<u8>>, embedded_gui::state::WidgetState>
    for Repaint
{
    fn applied(
        &self,
        widget: Border<W, BorderStyle<u8>>,
        data: embedded_gui::state::WidgetState,
    ) -> Border<W, BorderStyle<u8>> {
        let mut widget = widget;
        widget.border_color(data.bits as u8);
        widget
    }

    fn on_data_changed(
        &self,
        widget: &mut Border<W, BorderStyle<u8>>,
        data: &embedded_gui::state::WidgetState,
    ) {
        widget.border_color(data.bits as u8);
    }
}

#[test]
fn a_frame_around_a_button_reacts_to_what_happens_to_the_button() {
    let mut framed = Border::with_properties(Button::new(mark(20, 10)), BorderStyle::new(0u8, 1))
        .on_state_changed(Repaint);
    framed.measure(at_most(100, 100));
    framed.arrange(Position { x: 0, y: 0 });
    let mut controller = InputController::new();
    // the button is node 1 of the framed widget
    assert_eq!(framed.test_input(pointer(5, 5, PointerEvent::Hover)), Some(1));
    controller.dispatch(&mut framed, pointer(5, 5, PointerEvent::Hover));
    assert_eq!(framed.widget.inner.state.bits, STATE_HOVERED);
    assert_eq!(framed.state.bits, STATE_HOVERED);
    assert_eq!(framed.widget.border_properties.color, STATE_HOVERED as u8);
    controller.dispatch(&mut framed, pointer(5, 5, PointerEvent::Down));
    assert_eq!(framed.widget.border_properties.color, (STATE_HOVERED | STATE_PRESSED) as u8);
    // the same flags again do not repaint
    framed.widget.border_properties.color = 99;
    controller.dispatch(&mut framed, pointer(6, 6, PointerEvent::Drag));
    assert_eq!(framed.widget.border_properties.color, 99);
    controller.dispatch(&mut framed, pointer(60, 60, PointerEvent::Up));
    assert_eq!(framed.widget.inner.state.bits, STATE_IDLE);
    assert_eq!(framed.widget.border_properties.color, STATE_IDLE as u8);
}

#[test]
fn weights_are_added_up_exactly_however_large() {
    let total = 2 * (u32::MAX as u128);
    // nothing per unit of weight; the stray pixels go to the first cells
    assert_eq!(weighted_share(u32::MAX, total, u32::MAX, 0), 1);
    assert_eq!(weighted_share(u32::MAX, total, u32::MAX, 1), 1);
    assert_eq!(weighted_share(10, total, u32::MAX, 9), 1);
    assert_eq!(weighted_share(10, total, u32::MAX, 10), 0);
    let mut column = Column::new(LayoutCell::new(mark(1, 1)).weight(u32::MAX))
        .add(LayoutCell::new(mark(1, 1)))
        .weight(u32::MAX);
    column.measure(MeasureSpec {
        width: MeasureConstraint::AtMost(10),
        height: MeasureConstraint::AtMost(u32::MAX),
    });
    assert_eq!(column.widgets.bounding_box_at(0).size.height, 1);
    assert_eq!(column.widgets.bounding_box_at(1).size.height, 1);
    assert_eq!(column.bounding_box().size.height, u32::MAX);
}
