use embedded_gui::column::Column;
use embedded_gui::geometry::{BoundingBox, MeasuredSize, Position};
use embedded_gui::linear::{Cell, LinearLayoutChainElement};
use embedded_gui::measurement::{MeasureConstraint, MeasureSpec};
use embedded_gui::radio::{FixedMark, RadioButton};
use embedded_gui::widget::{NoObserver, Widget};

fn mark(width: u32, height: u32) -> RadioButton<FixedMark, NoObserver> {
    RadioButton::with_properties(FixedMark { size: MeasuredSize { width, height } })
}

fn exactly(width: u32, height: u32) -> MeasureSpec {
    MeasureSpec {
        width: MeasureConstraint::Exactly(width),
        height: MeasureConstraint::Exactly(height),
    }
}

#[test]
fn column_divides_the_height_by_weight() {
    let mut column = Column::new(Cell::new(mark(20, 10)))
        .add(Cell::new(mark(30, 5)))
        .weight(1)
        .add(Cell::new(mark(40, 5)))
        .weight(3);
    column.measure(MeasureSpec {
        width: MeasureConstraint::AtMost(200),
        height: MeasureConstraint::Exactly(100),
    });
    assert_eq!(column.widgets.count(), 3);
    // 90 pixels remain; 22 per unit of weight, 2 stray pixels for the cells
    // with index 0 and 1, of which only cell 1 is weighted.
    assert_eq!(column.widgets.bounding_box_at(0).size.height, 10);
    assert_eq!(column.widgets.bounding_box_at(1).size.height, 23);
    assert_eq!(column.widgets.bounding_box_at(2).size.height, 66);
    assert_eq!(column.bounding_box().size, MeasuredSize { width: 40, height: 100 });
}

#[test]
fn column_of_weighted_cells_fills_its_height() {
    let mut column = Column::new(Cell::new(mark(1, 1)).weight(1))
        .add(Cell::new(mark(1, 1)))
        .weight(1)
        .add(Cell::new(mark(1, 1)))
        .weight(1);
    column.measure(exactly(10, 100));
    let heights = [
        column.widgets.bounding_box_at(0).size.height,
        column.widgets.bounding_box_at(1).size.height,
        column.widgets.bounding_box_at(2).size.height,
    ];
    assert_eq!(heights, [34, 33, 33]);
    assert_eq!(heights.iter().sum::<u32>(), 100);
    assert_eq!(column.bounding_box().size.height, 100);
}

#[test]
fn column_without_weights_takes_what_its_cells_take() {
    let mut column = Column::new(Cell::new(mark(20, 10))).add(Cell::new(mark(30, 15)));
    column.measure(MeasureSpec {
        width: MeasureConstraint::AtMost(25),
        height: MeasureConstraint::AtMost(20),
    });
    // the second cell is allowed the 10 pixels that the first left over
    assert_eq!(column.widgets.bounding_box_at(0).size, MeasuredSize { width: 20, height: 10 });
    assert_eq!(column.widgets.bounding_box_at(1).size, MeasuredSize { width: 25, height: 10 });
    assert_eq!(column.bounding_box().size, MeasuredSize { width: 25, height: 20 });
}

#[test]
fn column_without_a_limit_adds_up_natural_sizes() {
    let mut column = Column::new(Cell::new(mark(20, 10)))
        .add(Cell::new(mark(30, 15)))
        .weight(2);
    column.measure(MeasureSpec {
        width: MeasureConstraint::Unspecified,
        height: MeasureConstraint::Unspecified,
    });
    assert_eq!(column.widgets.bounding_box_at(0).size, MeasuredSize { width: 20, height: 10 });
    assert_eq!(column.widgets.bounding_box_at(1).size, MeasuredSize { width: 30, height: 15 });
    assert_eq!(column.bounding_box().size, MeasuredSize { width: 30, height: 25 });
}

#[test]
fn column_arranges_cells_one_below_the_other() {
    let mut column = Column::new(Cell::new(mark(20, 10)))
        .add(Cell::new(mark(30, 5)))
        .weight(1)
        .add(Cell::new(mark(40, 5)))
        .weight(3);
    column.measure(exactly(50, 100));
    column.arrange(Position { x: 7, y: -3 });
    assert_eq!(column.bounding_box().position, Position { x: 7, y: -3 });
    assert_eq!(column.widgets.bounding_box_at(0).position, Position { x: 7, y: -3 });
    assert_eq!(column.widgets.bounding_box_at(1).position, Position { x: 7, y: 7 });
    assert_eq!(column.widgets.bounding_box_at(2).position, Position { x: 7, y: 30 });
    assert_eq!(
        column.child_bounding_box(2),
        BoundingBox {
            position: Position { x: 7, y: 30 },
            size: MeasuredSize { width: 50, height: 66 },
        }
    );
}

#[test]
fn column_counts_and_locates_its_descendants() {
    let inner = Column::new(Cell::new(mark(1, 1))).add(Cell::new(mark(1, 1)));
    let column = Column::new(Cell::new(mark(1, 1)))
        .add(Cell::new(inner))
        .add(Cell::new(mark(1, 1)));
    assert_eq!(column.children(), 5);
    assert_eq!(column.locate(0), Some((0, 0)));
    assert_eq!(column.locate(1), Some((1, 0)));
    assert_eq!(column.locate(2), Some((1, 1)));
    assert_eq!(column.locate(3), Some((1, 2)));
    assert_eq!(column.locate(4), Some((2, 0)));
    assert_eq!(column.locate(5), None);
}
