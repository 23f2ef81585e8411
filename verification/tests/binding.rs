use std::cell::Cell;

use embedded_gui::data::{BoundData, DataObserver, KeepWidget, WidgetData, WidgetDataHolder};
use embedded_gui::geometry::MeasuredSize;
use embedded_gui::label::{FixedPitch, Label};
use embedded_gui::measurement::{MeasureConstraint, MeasureSpec};
use embedded_gui::radio::{FixedMark, RadioButton, SelectWhen};
use embedded_gui::spacing::{Spacing, SpacingSpec};
use embedded_gui::state::{STATE_HOVERED, STATE_SELECTED};
use embedded_gui::widget::{NoObserver, Widget};

type Text = Label<FixedPitch, NoObserver>;
type Mark = RadioButton<FixedMark, NoObserver>;

fn text(content: &str) -> Text {
    Label::new(String::from(content), FixedPitch { character_width: 6, character_height: 10 })
}

fn mark() -> Mark {
    RadioButton::with_properties(FixedMark { size: MeasuredSize { width: 8, height: 8 } })
}

/// Shows "on" or "off" and counts how often it was asked to.
struct ShowFlag<'a> {
    calls: &'a Cell<u32>,
}

impl<'a> DataObserver<Text, bool> for ShowFlag<'a> {
    fn applied(&self, widget: Text, data: bool) -> Text {
        let mut widget = widget;
        widget.set_text(String::from(if data { "on" } else { "off" }));
        widget
    }

    fn on_data_changed(&self, widget: &mut Text, data: &bool) {
        self.calls.set(self.calls.get() + 1);
        widget.set_text(String::from(if *data { "on" } else { "off" }));
    }
}

#[test]
fn binding_shows_the_initial_value_without_an_update_of_the_cell() {
    let calls = Cell::new(0);
    let notified = Cell::new(0u32);
    let flag = BoundData::new(true, |_: bool| notified.set(notified.get() + 1));
    let bound = text("").bind(&flag);
    assert_eq!(calls.get(), 0);
    assert_eq!(bound.widget.text, "");
    // the handler is invoked as soon as it is registered
    let mut label = bound.on_data_changed(ShowFlag { calls: &calls });
    assert_eq!(calls.get(), 1);
    assert_eq!(label.widget.text, "on");
    // the cell itself was never updated
    assert_eq!(notified.get(), 0);
    // the passes of the frames that follow do not invoke the handler again
    label.update();
    label.update();
    assert_eq!(calls.get(), 1);
    assert_eq!(label.widget.text, "on");
}

#[test]
fn every_update_of_the_cell_reaches_the_widget_once() {
    let calls = Cell::new(0);
    let notified = Cell::new(0u32);
    let flag = BoundData::new(true, |_: bool| notified.set(notified.get() + 1));
    let mut label = text("").bind(&flag).on_data_changed(ShowFlag { calls: &calls });
    label.update();
    flag.update(|v| !v);
    assert_eq!(notified.get(), 1);
    assert_eq!(label.widget.text, "on");
    label.update();
    assert_eq!(label.widget.text, "off");
    assert_eq!(calls.get(), 2);
    label.update();
    assert_eq!(calls.get(), 2);
    // an update that stores the same value is an update all the same
    flag.update(|v| v);
    label.update();
    assert_eq!(calls.get(), 3);
    assert_eq!(label.widget.text, "off");
    assert_eq!(notified.get(), 2);
}

#[test]
fn label_measures_its_text() {
    let mut label = text("hello");
    label.measure(MeasureSpec {
        width: MeasureConstraint::Unspecified,
        height: MeasureConstraint::Unspecified,
    });
    assert_eq!(label.bounding_box().size, MeasuredSize { width: 30, height: 10 });
    label.measure(MeasureSpec {
        width: MeasureConstraint::AtMost(20),
        height: MeasureConstraint::Exactly(12),
    });
    assert_eq!(label.bounding_box().size, MeasuredSize { width: 20, height: 12 });
    label.set_text(String::from("hi"));
    assert_eq!(label.bounding_box().size, MeasuredSize { width: 20, height: 12 });
    label.measure(MeasureSpec {
        width: MeasureConstraint::AtMost(20),
        height: MeasureConstraint::AtMost(12),
    });
    assert_eq!(label.bounding_box().size, MeasuredSize { width: 12, height: 10 });
}

#[test]
fn radio_group_has_exactly_one_selected_mark() {
    let choice = BoundData::new(0usize, |_: usize| ());
    let mut first = mark().bind(&choice).on_data_changed(SelectWhen { value: 0 });
    let mut second = mark().bind(&choice).on_data_changed(SelectWhen { value: 1 });
    let mut third = mark().bind(&choice).on_data_changed(SelectWhen { value: 2 });
    first.update();
    second.update();
    third.update();
    assert_eq!(
        [first.widget.is_selected(), second.widget.is_selected(), third.widget.is_selected()],
        [true, false, false]
    );
    // the third mark is activated: it writes its value to the cell
    choice.update(|_| 2);
    first.update();
    second.update();
    third.update();
    assert_eq!(
        [first.widget.is_selected(), second.widget.is_selected(), third.widget.is_selected()],
        [false, false, true]
    );
    assert_eq!(choice.get(), 2);
    // a value that no mark stands for selects none
    choice.update(|_| 7);
    first.update();
    second.update();
    third.update();
    assert_eq!(
        [first.widget.is_selected(), second.widget.is_selected(), third.widget.is_selected()],
        [false, false, false]
    );
}

#[test]
fn selection_leaves_the_other_flags_alone() {
    let mut m = mark();
    m.change_state(STATE_HOVERED);
    m.change_selection(true);
    assert_eq!(m.state.bits, STATE_HOVERED | STATE_SELECTED);
    assert!(m.is_selected());
    m.change_selection(true);
    assert_eq!(m.state.bits, STATE_HOVERED | STATE_SELECTED);
    m.change_selection(false);
    assert_eq!(m.state.bits, STATE_HOVERED);
    assert!(!m.is_selected());
}

#[test]
fn holder_syncs_only_for_a_version_it_has_not_seen() {
    let calls = Cell::new(0);
    let flag = BoundData::new(true, |_: bool| ());
    let mut holder = WidgetDataHolder::new(&flag).on_data_changed(ShowFlag { calls: &calls });
    let mut label = text("");
    holder.sync(&mut label, 4, &false);
    assert_eq!(label.text, "off");
    assert_eq!(holder.last_version, Some(4));
    holder.sync(&mut label, 4, &true);
    assert_eq!(label.text, "off");
    assert_eq!(calls.get(), 1);
    holder.sync(&mut label, 5, &true);
    assert_eq!(label.text, "on");
    assert_eq!(calls.get(), 2);
    holder.reset();
    holder.sync(&mut label, 5, &false);
    assert_eq!(label.text, "off");
    assert_eq!(calls.get(), 3);
}

#[test]
fn versions_follow_each_other_and_start_over() {
    assert_eq!(embedded_gui::data::next_version(0), 1);
    assert_eq!(embedded_gui::data::next_version(41), 42);
    assert_eq!(embedded_gui::data::next_version(usize::MAX), 0);
    let cell = BoundData::new(5u32, |_: u32| ());
    let reader = &cell;
    let v0 = WidgetData::version(&reader);
    assert_eq!(WidgetData::read(&reader), 5);
    assert_eq!(cell.update(|v| v + 1), 6);
    assert_eq!(WidgetData::read(&reader), 6);
    assert_eq!(WidgetData::version(&reader), v0 + 1);
    assert_eq!(WidgetData::version(&()), 0);
}

#[test]
fn bound_spacing_keeps_its_builders() {
    let flag = BoundData::new(false, |_: bool| ());
    let bound = Spacing::new(mark()).bind(&flag).left(1).right(2).top(3).bottom(4);
    assert_eq!(bound.widget.spacing, SpacingSpec { top: 3, right: 2, bottom: 4, left: 1 });
    let bound = bound.all(6);
    assert_eq!(bound.widget.spacing, SpacingSpec { top: 6, right: 6, bottom: 6, left: 6 });
    let mut bound = bound.on_data_changed(KeepWidget);
    bound.update();
    assert_eq!(bound.widget.spacing, SpacingSpec { top: 6, right: 6, bottom: 6, left: 6 });
    assert_eq!(bound.children(), 1);
}

/// A mark that is always four pixels square.
#[derive(Default)]
struct Square;

impl embedded_gui::radio::RadioButtonProperties for Square {
    type Color = ();

    fn measured(&self, _spec: MeasureSpec) -> MeasuredSize {
        MeasuredSize { width: 4, height: 4 }
    }

    fn measure(&self, _spec: MeasureSpec) -> MeasuredSize {
        MeasuredSize { width: 4, height: 4 }
    }
}

/// Remembers the flags it was told last.
struct Remember<'a> {
    seen: &'a Cell<u32>,
    calls: &'a Cell<u32>,
}

impl<'a> embedded_gui::widget::StateObserver<Square> for Remember<'a> {
    fn reaction(&self, target: Square, _state: embedded_gui::state::WidgetState) -> Square {
        target
    }

    fn on_state_changed(&self, _target: &mut Square, state: embedded_gui::state::WidgetState) {
        self.seen.set(state.bits);
        self.calls.set(self.calls.get() + 1);
    }
}

#[test]
fn radio_button_new_and_its_state_handler() {
    let seen = Cell::new(0);
    let calls = Cell::new(0);
    let plain: RadioButton<Square, NoObserver> = RadioButton::new();
    assert_eq!(plain.parent_index, 0);
    assert_eq!(plain.state.bits, 0);
    assert_eq!(plain.bounding_box().size, MeasuredSize { width: 0, height: 0 });
    let mut mark = plain.on_state_changed(Remember { seen: &seen, calls: &calls });
    mark.measure(MeasureSpec {
        width: MeasureConstraint::AtMost(2),
        height: MeasureConstraint::AtMost(2),
    });
    assert_eq!(mark.bounding_box().size, MeasuredSize { width: 4, height: 4 });
    mark.change_state(STATE_HOVERED);
    mark.change_state(STATE_HOVERED);
    assert_eq!((seen.get(), calls.get()), (STATE_HOVERED, 1));
    mark.change_selection(true);
    assert_eq!((seen.get(), calls.get()), (STATE_HOVERED | STATE_SELECTED, 2));
    mark.change_selection(true);
    assert_eq!(calls.get(), 2);
    mark.bounding_box_mut().size = MeasuredSize { width: 9, height: 9 };
    assert_eq!(mark.bounding_box().size, MeasuredSize { width: 9, height: 9 });
    // the handler can be replaced on a bound mark, too
    let choice = BoundData::new(0usize, |_: usize| ());
    let other_seen = Cell::new(0);
    let other_calls = Cell::new(0);
    let mut bound = mark
        .bind(&choice)
        .on_data_changed(SelectWhen { value: 1 })
        .on_state_changed(Remember { seen: &other_seen, calls: &other_calls });
    // the data handler ran when it was registered, and deselected the mark
    // while the first state handler was still in place
    assert!(!bound.widget.is_selected());
    assert_eq!((seen.get(), calls.get()), (STATE_HOVERED, 3));
    assert_eq!(other_calls.get(), 0);
    bound.update();
    assert_eq!(other_calls.get(), 0);
    bound.change_state(STATE_SELECTED);
    assert_eq!((other_seen.get(), other_calls.get()), (STATE_SELECTED, 1));
    assert_eq!(calls.get(), 3);
}
