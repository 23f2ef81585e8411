use embedded_gui::button::{Button, ClickHandler};
use embedded_gui::column::Column;
use embedded_gui::data::BoundData;
use embedded_gui::dispatch::InputController;
use embedded_gui::geometry::{MeasuredSize, Position};
use embedded_gui::input::{activate_selection, InputEvent, PointerEvent, SelectionPolicy};
use embedded_gui::linear::Cell;
use embedded_gui::measurement::{MeasureConstraint, MeasureSpec};
use embedded_gui::radio::{FixedMark, RadioButton, SelectWhen};
use embedded_gui::widget::{NoObserver, Widget};

/// Writes the value of its button to the cell of the group.
struct Choose<'a, F: Fn(usize)> {
    cell: &'a BoundData<usize, F>,
    value: usize,
}

impl<'a, F: Fn(usize)> ClickHandler for Choose<'a, F> {
    fn on_clicked(&self) {
        let value = self.value;
        self.cell.update(|_| value);
    }
}

fn mark() -> RadioButton<FixedMark, NoObserver> {
    RadioButton::with_properties(FixedMark { size: MeasuredSize { width: 8, height: 8 } })
}

#[test]
fn activating_a_radio_button_moves_the_selection_of_its_group() {
    let choice = BoundData::new(0usize, |_: usize| ());
    let mut group = Column::new(Cell::new(
        Button::new(mark().bind(&choice).on_data_changed(SelectWhen { value: 0 }))
            .on_clicked(Choose { cell: &choice, value: 0 }),
    ))
    .add(Cell::new(
        Button::new(mark().bind(&choice).on_data_changed(SelectWhen { value: 1 }))
            .on_clicked(Choose { cell: &choice, value: 1 }),
    ))
    .add(Cell::new(
        Button::new(mark().bind(&choice).on_data_changed(SelectWhen { value: 2 }))
            .on_clicked(Choose { cell: &choice, value: 2 }),
    ));
    group.attach(0, 0);
    group.update();
    group.measure(MeasureSpec {
        width: MeasureConstraint::AtMost(100),
        height: MeasureConstraint::AtMost(100),
    });
    group.arrange(Position { x: 0, y: 0 });
    assert!(group.widgets.parent.parent.object.widget.inner.widget.is_selected());
    assert!(!group.widgets.parent.object.widget.inner.widget.is_selected());
    assert!(!group.widgets.object.widget.inner.widget.is_selected());

    // the pointer goes down and up on the third button, which starts 16
    // pixels below the top
    let mut controller = InputController::new();
    let at = Position { x: 4, y: 20 };
    assert_eq!(group.test_input(InputEvent::PointerEvent(at, PointerEvent::Down)), Some(5));
    assert!(!controller.dispatch(&mut group, InputEvent::PointerEvent(at, PointerEvent::Down)));
    assert!(controller.dispatch(&mut group, InputEvent::PointerEvent(at, PointerEvent::Up)));
    assert_eq!(choice.get(), 2);
    // the marks follow in the next update pass
    assert!(group.widgets.parent.parent.object.widget.inner.widget.is_selected());
    group.update();
    assert!(!group.widgets.parent.parent.object.widget.inner.widget.is_selected());
    assert!(!group.widgets.parent.object.widget.inner.widget.is_selected());
    assert!(group.widgets.object.widget.inner.widget.is_selected());

    // activating the selected button again changes nothing
    controller.dispatch(&mut group, InputEvent::PointerEvent(at, PointerEvent::Down));
    controller.dispatch(&mut group, InputEvent::PointerEvent(at, PointerEvent::Up));
    group.update();
    assert!(!group.widgets.parent.parent.object.widget.inner.widget.is_selected());
    assert!(!group.widgets.parent.object.widget.inner.widget.is_selected());
    assert!(group.widgets.object.widget.inner.widget.is_selected());
    assert_eq!(choice.get(), 2);
}

#[test]
fn selection_policies() {
    assert!(activate_selection(SelectionPolicy::Select, false));
    assert!(activate_selection(SelectionPolicy::Select, true));
    assert!(activate_selection(SelectionPolicy::Flip, false));
    assert!(!activate_selection(SelectionPolicy::Flip, true));
    assert!(activate_selection(SelectionPolicy::FlipOn, false));
    assert!(activate_selection(SelectionPolicy::FlipOn, true));
}
