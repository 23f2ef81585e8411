use std::cell::Cell;

use embedded_gui::button::{Button, ClickHandler};
use embedded_gui::geometry::{MeasuredSize, Position};
use embedded_gui::input::{hit_test, interact, InputEvent, PointerEvent, ScrollEvent};
use embedded_gui::measurement::{MeasureConstraint, MeasureSpec};
use embedded_gui::radio::{FixedMark, RadioButton};
use embedded_gui::state::{
    WidgetState, STATE_HOVERED, STATE_IDLE, STATE_INACTIVE, STATE_PRESSED, STATE_SELECTED,
};
use embedded_gui::widget::{NoObserver, Widget};

struct Counting<'a> {
    clicks: &'a Cell<u32>,
}

impl<'a> ClickHandler for Counting<'a> {
    fn on_clicked(&self) {
        self.clicks.set(self.clicks.get() + 1);
    }
}

fn pointer(x: i32, y: i32, what: PointerEvent) -> InputEvent {
    InputEvent::PointerEvent(Position { x, y }, what)
}

fn button_at<'a>(
    clicks: &'a Cell<u32>,
) -> Button<RadioButton<FixedMark, NoObserver>, Counting<'a>> {
    let mark = RadioButton::with_properties(FixedMark {
        size: MeasuredSize { width: 20, height: 10 },
    });
    let mut button = Button::new(mark).on_clicked(Counting { clicks });
    button.measure(MeasureSpec {
        width: MeasureConstraint::Unspecified,
        height: MeasureConstraint::Unspecified,
    });
    button.arrange(Position { x: 100, y: 50 });
    button
}

#[test]
fn change_state_reports_a_change_only_once() {
    let mut state = WidgetState::default();
    assert_eq!(state.bits, STATE_IDLE);
    assert!(state.change_state(STATE_HOVERED));
    assert!(!state.change_state(STATE_HOVERED));
    assert_eq!(state.bits, STATE_HOVERED);
    assert!(state.change_state(STATE_HOVERED | STATE_PRESSED));
    assert!(state.has_state(STATE_HOVERED));
    assert!(state.has_state(STATE_PRESSED));
    assert!(!state.has_state(STATE_SELECTED));
}

#[test]
fn flags_are_set_and_cleared_independently() {
    let mut state = WidgetState::new(STATE_SELECTED);
    state.set_state(STATE_HOVERED);
    assert_eq!(state.bits, STATE_SELECTED | STATE_HOVERED);
    state.set_state(STATE_HOVERED);
    assert_eq!(state.bits, STATE_SELECTED | STATE_HOVERED);
    state.clear_state(STATE_SELECTED);
    assert_eq!(state.bits, STATE_HOVERED);
    state.clear_state(STATE_SELECTED);
    assert_eq!(state.bits, STATE_HOVERED);
}

#[test]
fn pointer_rules_on_plain_flags() {
    let idle = WidgetState::default();
    let hovered = interact(idle, pointer(0, 0, PointerEvent::Hover), true);
    assert_eq!(hovered.state.bits, STATE_HOVERED);
    assert!(!hovered.activated);
    let left = interact(hovered.state, pointer(0, 0, PointerEvent::Hover), false);
    assert_eq!(left.state.bits, STATE_IDLE);
    let pressed = interact(idle, pointer(0, 0, PointerEvent::Down), true);
    assert_eq!(pressed.state.bits, STATE_HOVERED | STATE_PRESSED);
    assert!(!pressed.activated);
    let released = interact(pressed.state, pointer(0, 0, PointerEvent::Up), true);
    assert_eq!(released.state.bits, STATE_HOVERED);
    assert!(released.activated);
    let dragged_out = interact(pressed.state, pointer(0, 0, PointerEvent::Drag), false);
    assert_eq!(dragged_out.state.bits, STATE_IDLE);
    assert!(!dragged_out.activated);
    let cancelled = interact(pressed.state, InputEvent::Cancel, false);
    assert_eq!(cancelled.state.bits, STATE_IDLE);
    assert!(!cancelled.activated);
    let scrolled = interact(pressed.state, InputEvent::ScrollEvent(ScrollEvent::VerticalScroll(3)), true);
    assert_eq!(scrolled.state, pressed.state);
    // a release without a press before it activates nothing
    let stray = interact(hovered.state, pointer(0, 0, PointerEvent::Up), true);
    assert!(!stray.activated);
    // selection is left alone by the pointer
    let selected = interact(WidgetState::new(STATE_SELECTED), pointer(0, 0, PointerEvent::Down), true);
    assert_eq!(selected.state.bits, STATE_SELECTED | STATE_HOVERED | STATE_PRESSED);
}

#[test]
fn press_inside_then_release_outside_does_not_activate() {
    let clicks = Cell::new(0);
    let mut button = button_at(&clicks);
    assert!(!button.press(pointer(105, 55, PointerEvent::Down)));
    assert!(button.state.has_state(STATE_PRESSED));
    assert!(button.state.has_state(STATE_HOVERED));
    assert!(!button.press(pointer(300, 55, PointerEvent::Up)));
    assert!(!button.state.has_state(STATE_PRESSED));
    assert!(!button.state.has_state(STATE_HOVERED));
    assert_eq!(clicks.get(), 0);
}

#[test]
fn press_and_release_inside_activates_once() {
    let clicks = Cell::new(0);
    let mut button = button_at(&clicks);
    assert!(!button.press(pointer(100, 50, PointerEvent::Down)));
    assert_eq!(clicks.get(), 0);
    assert!(button.press(pointer(120, 60, PointerEvent::Up)));
    assert_eq!(clicks.get(), 1);
    assert!(!button.state.has_state(STATE_PRESSED));
    assert!(button.state.has_state(STATE_HOVERED));
    // a second release is no second activation
    assert!(!button.press(pointer(120, 60, PointerEvent::Up)));
    assert_eq!(clicks.get(), 1);
}

#[test]
fn pointer_leaving_while_pressed_cancels_the_press() {
    let clicks = Cell::new(0);
    let mut button = button_at(&clicks);
    button.press(pointer(105, 55, PointerEvent::Down));
    button.press(pointer(99, 55, PointerEvent::Drag));
    assert_eq!(button.state.bits, STATE_IDLE);
    // coming back and releasing does not activate: the press is over
    assert!(!button.press(pointer(105, 55, PointerEvent::Up)));
    assert_eq!(clicks.get(), 0);
}

#[test]
fn inactive_button_is_transparent_to_input() {
    let clicks = Cell::new(0);
    let mut button = button_at(&clicks).active(false);
    assert!(button.state.has_state(STATE_INACTIVE));
    assert_eq!(button.test_input(pointer(105, 55, PointerEvent::Down)), None);
    assert!(!button.press(pointer(105, 55, PointerEvent::Down)));
    assert!(!button.press(pointer(105, 55, PointerEvent::Up)));
    assert_eq!(button.state.bits, STATE_INACTIVE);
    assert_eq!(clicks.get(), 0);
    // it still has its box
    assert_eq!(button.bounding_box().size, MeasuredSize { width: 20, height: 10 });
    let mut button = button.active(true);
    assert_eq!(button.test_input(pointer(105, 55, PointerEvent::Down)), Some(0));
    button.press(pointer(105, 55, PointerEvent::Down));
    assert!(button.press(pointer(105, 55, PointerEvent::Up)));
    assert_eq!(clicks.get(), 1);
}

#[test]
fn hit_test_needs_an_active_widget_and_a_pointer_inside() {
    let clicks = Cell::new(0);
    let button = button_at(&clicks);
    let bounds = button.bounding_box();
    assert!(hit_test(WidgetState::default(), &bounds, pointer(100, 50, PointerEvent::Hover)));
    assert!(hit_test(WidgetState::default(), &bounds, pointer(120, 60, PointerEvent::Hover)));
    assert!(!hit_test(WidgetState::default(), &bounds, pointer(121, 60, PointerEvent::Hover)));
    assert!(!hit_test(WidgetState::new(STATE_INACTIVE), &bounds, pointer(100, 50, PointerEvent::Hover)));
    assert!(!hit_test(WidgetState::default(), &bounds, InputEvent::Cancel));
    assert_eq!(button.test_input(pointer(110, 55, PointerEvent::Hover)), Some(0));
    assert_eq!(button.test_input(pointer(10, 55, PointerEvent::Hover)), None);
    assert_eq!(button.children(), 1);
}
