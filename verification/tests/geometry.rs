use embedded_gui::data::BoundData;
use embedded_gui::geometry::{shift_back, shift_forward, BoundingBox, MeasuredSize, Position};
use embedded_gui::measurement::{MeasureConstraint, MeasureSpec};
use embedded_gui::spacing::SpacingSpec;
use embedded_gui::state::WidgetState;
use embedded_gui::widget::StateObserver;

struct Doubling;

impl StateObserver<SpacingSpec> for Doubling {
    fn reaction(&self, target: SpacingSpec, _state: WidgetState) -> SpacingSpec {
        SpacingSpec { left: target.left * 2, ..target }
    }

    fn on_state_changed(&self, target: &mut SpacingSpec, _state: WidgetState) {
        target.left *= 2;
    }
}

#[test]
fn shifts_wrap_around_and_return() {
    assert_eq!(shift_forward(i32::MAX, 1), i32::MIN);
    assert_eq!(shift_back(i32::MIN, 1), i32::MAX);
    assert_eq!(shift_back(shift_forward(17, u32::MAX), u32::MAX), 17);
    assert_eq!(shift_forward(-5, 10), 5);
}

#[test]
fn observer_written_outside_the_library_runs() {
    let mut spacing = SpacingSpec { top: 1, right: 2, bottom: 3, left: 4 };
    Doubling.on_state_changed(&mut spacing, WidgetState::new(2));
    assert_eq!(spacing.left, 8);
}

#[test]
fn bound_data_update_notifies_once() {
    let seen = std::cell::Cell::new(0u32);
    let cell = BoundData::new(true, |_value: bool| seen.set(seen.get() + 1));
    assert_eq!(cell.get(), true);
    assert_eq!(seen.get(), 0);
    let v0 = cell.current_version();
    let after = cell.update(|v| !v);
    assert_eq!(after, false);
    assert_eq!(cell.get(), false);
    assert_eq!(seen.get(), 1);
    assert!(cell.current_version() != v0);
}

#[test]
fn box_contains_its_edges() {
    let b = BoundingBox {
        position: Position { x: 10, y: 20 },
        size: MeasuredSize { width: 5, height: 6 },
    };
    assert!(b.contains(Position { x: 10, y: 20 }));
    assert!(b.contains(Position { x: 15, y: 26 }));
    assert!(!b.contains(Position { x: 16, y: 26 }));
    assert!(!b.contains(Position { x: 9, y: 20 }));
}

#[test]
fn constraints_shrink_and_apply() {
    assert_eq!(MeasureConstraint::AtMost(10).shrink(3), MeasureConstraint::AtMost(7));
    assert_eq!(MeasureConstraint::Exactly(10).shrink(3), MeasureConstraint::Exactly(7));
    assert_eq!(MeasureConstraint::Unspecified.shrink(3), MeasureConstraint::Unspecified);
    assert_eq!(MeasureConstraint::AtMost(2).shrink(3), MeasureConstraint::AtMost(0));
    assert_eq!(MeasureConstraint::Exactly(2).shrink(u32::MAX), MeasureConstraint::Exactly(0));
    assert_eq!(MeasureConstraint::AtMost(10).apply_to_measured(4), 4);
    assert_eq!(MeasureConstraint::AtMost(10).apply_to_measured(40), 10);
    assert_eq!(MeasureConstraint::Exactly(10).apply_to_measured(4), 10);
    assert_eq!(MeasureConstraint::Exactly(10).apply_to_measured(40), 10);
    assert_eq!(MeasureConstraint::Unspecified.apply_to_measured(40), 40);
    assert_eq!(MeasureConstraint::AtMost(10).largest(), Some(10));
    assert_eq!(MeasureConstraint::Exactly(11).largest(), Some(11));
    assert_eq!(MeasureConstraint::Unspecified.largest(), None);
    assert!(MeasureConstraint::Exactly(1).is_exact());
    assert!(!MeasureConstraint::AtMost(1).is_exact());
    assert!(!MeasureConstraint::Unspecified.is_exact());
    let spec = MeasureSpec {
        width: MeasureConstraint::AtMost(10),
        height: MeasureConstraint::Unspecified,
    };
    assert_eq!(
        spec.shrink(4, 5),
        MeasureSpec { width: MeasureConstraint::AtMost(6), height: MeasureConstraint::Unspecified }
    );
}

#[test]
fn boxes_expand_and_sizes_saturate() {
    let b = BoundingBox {
        position: Position { x: 10, y: 20 },
        size: MeasuredSize { width: 5, height: 6 },
    };
    assert_eq!(
        b.expand(1, 2, 3, 4),
        BoundingBox {
            position: Position { x: 9, y: 18 },
            size: MeasuredSize { width: 9, height: 12 },
        }
    );
    assert_eq!(
        b.size.grow(u32::MAX, 1),
        MeasuredSize { width: u32::MAX, height: 7 }
    );
    assert_eq!(
        b.expand(u32::MAX, 0, u32::MAX, 0).size,
        MeasuredSize { width: u32::MAX, height: 6 }
    );
    assert_eq!(b.position.offset(5, 6), Position { x: 15, y: 26 });
    assert_eq!(b.position.offset(5, 6).offset_back(5, 6), b.position);
    assert_eq!(BoundingBox::default().size, MeasuredSize::default());
    assert_eq!(Position::default(), Position { x: 0, y: 0 });
}
