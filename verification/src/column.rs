//! A layout that stacks its cells from top to bottom.

use vstd::prelude::*;
use crate::geometry::extent_diff;
use crate::geometry::shifted_forward;
use crate::geometry::BoundingBox;
use crate::geometry::MeasuredSize;
use crate::geometry::Position;
use crate::input::Delivery;
use crate::input::InputEvent;
use crate::layout::assigned_extent;
use crate::layout::assigned_size;
use crate::layout::assigned_spec;
use crate::layout::cells_keep_to_heights;
use crate::layout::fixed_extent;
use crate::layout::larger;
use crate::layout::layout_size;
use crate::layout::lemma_assigned_alike;
use crate::layout::lemma_fixed_extent_alike;
use crate::layout::lemma_layout_size_alike;
use crate::layout::lemma_no_weighted_cells;
use crate::layout::lemma_total_weight_alike;
use crate::layout::lemma_total_weight_bounds;
use crate::layout::lemma_weight_within_total;
use crate::layout::lemma_weighted_layout_fills_its_height;
use crate::layout::lemma_widest_alike;
use crate::layout::natural_extent;
use crate::layout::same_layout;
use crate::layout::stray_pixels_land;
use crate::layout::total_weight;
use crate::layout::weighted_share;
use crate::layout::widest;
use crate::linear::Cell;
use crate::linear::Chain;
use crate::linear::LinearLayoutChainElement;
use crate::linear::Link;
use crate::measurement::MeasureConstraint;
use crate::measurement::MeasureSpec;
use crate::widget::Widget;

verus! {

/// The number of nodes in the subtrees of the first `upto` cells: each
/// cell's widget and its descendants.
pub open spec fn descendants<CE: LinearLayoutChainElement>(cells: CE, upto: int) -> nat
    decreases upto,
{
    if upto <= 0 {
        0
    } else {
        descendants(cells, upto - 1) + 1 + cells.children_at(upto - 1)
    }
}

/// Every cell adds at least its own widget to the count.
pub proof fn lemma_descendants_grow<CE: LinearLayoutChainElement>(cells: CE, a: int, b: int)
    requires
        0 <= a <= b,
    ensures
        descendants(cells, a) + (b - a) <= descendants(cells, b),
    decreases b,
{
    if a < b {
        lemma_descendants_grow(cells, a, b - 1);
    }
}

/// The first cells of a chain hold as many nodes after a cell is added
/// behind them as before.
pub proof fn lemma_descendants_of_link<W: Widget, CE: LinearLayoutChainElement>(
    link: Link<Cell<W>, CE>,
    upto: int,
)
    requires
        upto <= link.parent.cell_count(),
    ensures
        descendants(link, upto) == descendants(link.parent, upto),
    decreases upto,
{
    if upto > 0 {
        lemma_descendants_of_link(link, upto - 1);
    }
}

/// Chains whose cells have the same numbers of descendants count alike.
pub proof fn lemma_descendants_alike<CE: LinearLayoutChainElement>(a: CE, b: CE, upto: int)
    requires
        forall|j: int| 0 <= j < upto ==> #[trigger] a.children_at(j) == b.children_at(j),
    ensures
        descendants(a, upto) == descendants(b, upto),
    decreases upto,
{
    if upto > 0 {
        lemma_descendants_alike(a, b, upto - 1);
    }
}

/// The cells that a pass over the chain measures.
#[derive(Clone, Copy, Debug, PartialEq, Eq, Structural)]
pub enum Pass {
    /// The cells of weight 0.
    Fixed,
    /// The cells that have a weight.
    Weighted,
    /// All cells.
    Every,
}

/// Whether a pass measures a cell of the given weight.
pub open spec fn in_pass(weight: u32, pass: Pass) -> bool {
    match pass {
        Pass::Fixed => weight == 0,
        Pass::Weighted => weight != 0,
        Pass::Every => true,
    }
}

/// The chain `cells` after a pass measured those of its first `upto` cells
/// that it is for, each under the constraints that a layout with the cells
/// `layout` hands to it.
pub open spec fn measured_cells<CE: LinearLayoutChainElement>(
    layout: CE,
    cells: CE,
    spec: MeasureSpec,
    upto: int,
    pass: Pass,
) -> CE
    decreases upto,
{
    if upto <= 0 {
        cells
    } else {
        let before = measured_cells(layout, cells, spec, upto - 1, pass);
        if in_pass(layout.weight_at(upto - 1), pass) {
            before.measured_at(upto - 1, assigned_spec(layout, spec, upto - 1))
        } else {
            before
        }
    }
}

/// Layouts that are laid out alike measure a chain alike.
pub proof fn lemma_measured_cells_alike<CE: LinearLayoutChainElement>(
    a: CE,
    b: CE,
    cells: CE,
    spec: MeasureSpec,
    upto: int,
    pass: Pass,
)
    requires
        same_layout(a, b),
        upto <= a.cell_count(),
    ensures
        measured_cells(a, cells, spec, upto, pass) == measured_cells(b, cells, spec, upto, pass),
    decreases upto,
{
    if upto > 0 {
        lemma_measured_cells_alike(a, b, cells, spec, upto - 1, pass);
        lemma_assigned_alike(a, b, spec, upto - 1);
    }
}

/// The cells of a layout after the layout was measured under `spec`: with no
/// limit on the height, all cells are measured in one pass; with a limit, the
/// cells of weight 0 are measured first and the weighted cells after them.
pub open spec fn measured_layout<CE: LinearLayoutChainElement>(cells: CE, spec: MeasureSpec) -> CE {
    let n = cells.cell_count() as int;
    match spec.height.limit() {
        None => measured_cells(cells, cells, spec, n, Pass::Every),
        Some(max_height) => {
            let fixed = measured_cells(cells, cells, spec, n, Pass::Fixed);
            if total_weight(cells, n) == 0 {
                fixed
            } else {
                measured_cells(cells, fixed, spec, n, Pass::Weighted)
            }
        },
    }
}

/// What a pass leaves of the boxes of a chain: each cell that the pass
/// measured has the size it reports under the constraints handed to it, and
/// is where it was; every other cell has the box it had and measures as it
/// did.
pub proof fn lemma_measured_cells<CE: LinearLayoutChainElement>(
    layout: CE,
    cells: CE,
    spec: MeasureSpec,
    upto: int,
    pass: Pass,
)
    requires
        0 <= upto <= cells.cell_count(),
        layout.cell_count() == cells.cell_count(),
    ensures
        measured_cells(layout, cells, spec, upto, pass).cell_count() == cells.cell_count(),
        forall|j: int|
            0 <= j < cells.cell_count() ==> #[trigger] measured_cells(
                layout,
                cells,
                spec,
                upto,
                pass,
            ).weight_at(j) == cells.weight_at(j),
        forall|j: int|
            0 <= j < cells.cell_count() ==> #[trigger] measured_cells(
                layout,
                cells,
                spec,
                upto,
                pass,
            ).bounds_at(j) == (if j < upto && in_pass(layout.weight_at(j), pass) {
                BoundingBox {
                    position: cells.bounds_at(j).position,
                    size: cells.size_at(j, assigned_spec(layout, spec, j)),
                }
            } else {
                cells.bounds_at(j)
            }),
        forall|j: int, s: MeasureSpec|
            0 <= j < cells.cell_count() && !(j < upto && in_pass(layout.weight_at(j), pass))
                ==> #[trigger] measured_cells(layout, cells, spec, upto, pass).size_at(j, s)
                == cells.size_at(j, s),
    decreases upto,
{
    if upto > 0 {
        lemma_measured_cells(layout, cells, spec, upto - 1, pass);
        if in_pass(layout.weight_at(upto - 1), pass) {
            let before = measured_cells(layout, cells, spec, upto - 1, pass);
            before.lemma_measured_at(upto - 1, assigned_spec(layout, spec, upto - 1));
        }
    }
}

/// What measuring a layout leaves of the boxes of its cells: every cell has
/// the size it reports under the constraints the layout hands to it, and is
/// where it was.
pub proof fn lemma_measured_layout<CE: LinearLayoutChainElement>(cells: CE, spec: MeasureSpec)
    ensures
        measured_layout(cells, spec).cell_count() == cells.cell_count(),
        forall|j: int|
            0 <= j < cells.cell_count() ==> #[trigger] measured_layout(cells, spec).weight_at(j)
                == cells.weight_at(j),
        forall|j: int|
            0 <= j < cells.cell_count() ==> #[trigger] measured_layout(cells, spec).bounds_at(j)
                == (BoundingBox {
                position: cells.bounds_at(j).position,
                size: assigned_size(cells, spec, j),
            }),
{
    let n = cells.cell_count() as int;
    match spec.height.limit() {
        None => {
            lemma_measured_cells(cells, cells, spec, n, Pass::Every);
        },
        Some(max_height) => {
            let fixed = measured_cells(cells, cells, spec, n, Pass::Fixed);
            lemma_measured_cells(cells, cells, spec, n, Pass::Fixed);
            if total_weight(cells, n) == 0 {
                assert forall|j: int| 0 <= j < n implies cells.weight_at(j) == 0 by {
                    lemma_weight_within_total(cells, j, n);
                }
            } else {
                lemma_measured_cells(cells, fixed, spec, n, Pass::Weighted);
            }
        },
    }
}

/// What placing the first `upto` cells of a chain leaves of its boxes: each
/// of them starts where the one before it ends and keeps its size; the
/// others have the boxes they had.
pub proof fn lemma_arranged_cells<CE: LinearLayoutChainElement>(
    layout: CE,
    cells: CE,
    position: Position,
    upto: int,
)
    requires
        0 <= upto <= cells.cell_count(),
    ensures
        arranged_cells(layout, cells, position, upto).cell_count() == cells.cell_count(),
        forall|j: int|
            0 <= j < cells.cell_count() ==> #[trigger] arranged_cells(
                layout,
                cells,
                position,
                upto,
            ).bounds_at(j) == (if j < upto {
                BoundingBox {
                    position: Position {
                        x: position.x,
                        y: cursor_after(layout, position.y, j),
                    },
                    size: cells.bounds_at(j).size,
                }
            } else {
                cells.bounds_at(j)
            }),
    decreases upto,
{
    if upto > 0 {
        lemma_arranged_cells(layout, cells, position, upto - 1);
        let before = arranged_cells(layout, cells, position, upto - 1);
        before.lemma_arranged_at(
            upto - 1,
            Position { x: position.x, y: cursor_after(layout, position.y, upto - 1) },
        );
    }
}

/// The sum of the heights of the boxes of the first `upto` cells.
pub open spec fn stacked_extent<CE: LinearLayoutChainElement>(cells: CE, upto: int) -> int
    decreases upto,
{
    if upto <= 0 {
        0
    } else {
        stacked_extent(cells, upto - 1) + cells.bounds_at(upto - 1).size.height
    }
}

/// Cells whose boxes have the sizes that a layout hands out add up to what
/// the layout hands out.
pub proof fn lemma_stacked_is_assigned<CE: LinearLayoutChainElement>(
    layout: CE,
    cells: CE,
    spec: MeasureSpec,
    upto: int,
)
    requires
        0 <= upto <= layout.cell_count(),
        forall|j: int|
            0 <= j < layout.cell_count() ==> (#[trigger] cells.bounds_at(j)).size == assigned_size(
                layout,
                spec,
                j,
            ),
    ensures
        stacked_extent(cells, upto) == assigned_extent(layout, spec, upto),
    decreases upto,
{
    if upto > 0 {
        lemma_stacked_is_assigned(layout, cells, spec, upto - 1);
        assert(cells.bounds_at(upto - 1).size == assigned_size(layout, spec, upto - 1));
    }
}

/// What the first pass over the cells found.
pub struct FixedPass {
    /// The height that the cells of weight 0 consume.
    pub consumed: u32,
    /// The width of the widest cell of weight 0.
    pub widest: u32,
    /// The sum of the weights.
    pub total_weight: u128,
}

/// Measures the cells of weight 0 in order, each under what the ones before
/// it left of `max_height`, and adds up the weights of the others.
pub fn measure_fixed_cells<CE: LinearLayoutChainElement>(
    cells: &mut CE,
    spec: MeasureSpec,
    max_height: u32,
) -> (r: FixedPass)
    requires
        old(cells).chain_wf(),
        spec.height.limit() == Some(max_height),
    ensures
        *final(cells) == measured_cells(
            *old(cells),
            *old(cells),
            spec,
            old(cells).cell_count() as int,
            Pass::Fixed,
        ),
        final(cells).chain_wf(),
        same_layout(*old(cells), *final(cells)),
        forall|j: int|
            0 <= j < old(cells).cell_count() ==> #[trigger] final(cells).children_at(j)
                == old(cells).children_at(j),
        forall|j: int|
            0 <= j < old(cells).cell_count() ==> #[trigger] final(cells).bounds_at(j)
                == (if old(cells).weight_at(j) == 0 {
                BoundingBox {
                    position: old(cells).bounds_at(j).position,
                    size: assigned_size(*old(cells), spec, j),
                }
            } else {
                old(cells).bounds_at(j)
            }),
        r.consumed == fixed_extent(
            *old(cells),
            spec.width,
            max_height,
            old(cells).cell_count() as int,
        ),
        r.total_weight == total_weight(*old(cells), old(cells).cell_count() as int),
        r.widest == widest(*old(cells), spec, old(cells).cell_count() as int, false),
{
    let count = cells.count();
    let mut consumed: u32 = 0;
    let mut widest_cell: u32 = 0;
    let mut weights: u128 = 0;
    let mut i: usize = 0;
    while i < count
        invariant
            i <= count,
            count == old(cells).cell_count(),
            spec.height.limit() == Some(max_height),
            cells.chain_wf(),
            same_layout(*old(cells), *cells),
            forall|j: int|
                0 <= j < count ==> #[trigger] cells.children_at(j) == old(cells).children_at(j),
            forall|j: int|
                0 <= j < count ==> #[trigger] cells.bounds_at(j)
                    == (if j < i && old(cells).weight_at(j) == 0 {
                    BoundingBox {
                        position: old(cells).bounds_at(j).position,
                        size: assigned_size(*old(cells), spec, j),
                    }
                } else {
                    old(cells).bounds_at(j)
                }),
            *cells == measured_cells(*old(cells), *old(cells), spec, i as int, Pass::Fixed),
            consumed == fixed_extent(*old(cells), spec.width, max_height, i as int),
            weights == total_weight(*old(cells), i as int),
            widest_cell == widest(*old(cells), spec, i as int, false),
        decreases count - i,
    {
        let weight = cells.weight(i);
        if weight == 0 {
            let cell_spec = MeasureSpec {
                width: spec.width,
                height: MeasureConstraint::AtMost(max_height.saturating_sub(consumed)),
            };
            assert(cell_spec == assigned_spec(*old(cells), spec, i as int));
            cells.measure_at(i, cell_spec);
            let measured = cells.bounding_box_at(i);
            consumed = consumed.saturating_add(measured.size.height);
            if measured.size.width > widest_cell {
                widest_cell = measured.size.width;
            }
        } else {
            proof {
                lemma_total_weight_bounds(*old(cells), i as int);
            }
            weights = weights + weight as u128;
        }
        i = i + 1;
    }
    FixedPass { consumed, widest: widest_cell, total_weight: weights }
}

/// Divides what the cells of weight 0 left of `max_height` among the
/// weighted cells and measures each under exactly its share. Returns the
/// width of the widest weighted cell.
pub fn measure_weighted_cells<CE: LinearLayoutChainElement>(
    cells: &mut CE,
    spec: MeasureSpec,
    max_height: u32,
    consumed: u32,
    weights: u128,
) -> (r: u32)
    requires
        old(cells).chain_wf(),
        spec.height.limit() == Some(max_height),
        consumed == fixed_extent(
            *old(cells),
            spec.width,
            max_height,
            old(cells).cell_count() as int,
        ),
        weights == total_weight(*old(cells), old(cells).cell_count() as int),
        weights != 0,
    ensures
        *final(cells) == measured_cells(
            *old(cells),
            *old(cells),
            spec,
            old(cells).cell_count() as int,
            Pass::Weighted,
        ),
        final(cells).chain_wf(),
        same_layout(*old(cells), *final(cells)),
        forall|j: int|
            0 <= j < old(cells).cell_count() ==> #[trigger] final(cells).children_at(j)
                == old(cells).children_at(j),
        forall|j: int|
            0 <= j < old(cells).cell_count() ==> #[trigger] final(cells).bounds_at(j)
                == (if old(cells).weight_at(j) != 0 {
                BoundingBox {
                    position: old(cells).bounds_at(j).position,
                    size: assigned_size(*old(cells), spec, j),
                }
            } else {
                old(cells).bounds_at(j)
            }),
        r == widest(*old(cells), spec, old(cells).cell_count() as int, true),
{
    let count = cells.count();
    let remaining = max_height.saturating_sub(consumed);
    let mut widest_cell: u32 = 0;
    let mut i: usize = 0;
    while i < count
        invariant
            i <= count,
            count == old(cells).cell_count(),
            spec.height.limit() == Some(max_height),
            remaining == extent_diff(max_height, consumed),
            consumed == fixed_extent(*old(cells), spec.width, max_height, count as int),
            weights == total_weight(*old(cells), count as int),
            weights != 0,
            cells.chain_wf(),
            same_layout(*old(cells), *cells),
            forall|j: int|
                0 <= j < count ==> #[trigger] cells.children_at(j) == old(cells).children_at(j),
            forall|j: int|
                0 <= j < count ==> #[trigger] cells.bounds_at(j)
                    == (if j < i && old(cells).weight_at(j) != 0 {
                    BoundingBox {
                        position: old(cells).bounds_at(j).position,
                        size: assigned_size(*old(cells), spec, j),
                    }
                } else {
                    old(cells).bounds_at(j)
                }),
            *cells == measured_cells(*old(cells), *old(cells), spec, i as int, Pass::Weighted),
            widest_cell == widest(*old(cells), spec, i as int, true),
        decreases count - i,
    {
        let weight = cells.weight(i);
        if weight != 0 {
            proof {
                lemma_weight_within_total(*old(cells), i as int, count as int);
            }
            let cell_spec = MeasureSpec {
                width: spec.width,
                height: MeasureConstraint::Exactly(weighted_share(remaining, weights, weight, i)),
            };
            assert(cell_spec == assigned_spec(*old(cells), spec, i as int));
            cells.measure_at(i, cell_spec);
            let measured = cells.bounding_box_at(i);
            if measured.size.width > widest_cell {
                widest_cell = measured.size.width;
            }
        }
        i = i + 1;
    }
    widest_cell
}

/// What measuring every cell under the same constraints found.
pub struct NaturalPass {
    /// The sum of the heights of the cells.
    pub extent: u32,
    /// The width of the widest cell.
    pub widest: u32,
}

/// Measures every cell under `spec`, which sets no limit on the height.
pub fn measure_naturally<CE: LinearLayoutChainElement>(cells: &mut CE, spec: MeasureSpec) -> (r:
    NaturalPass)
    requires
        old(cells).chain_wf(),
        spec.height.limit() is None,
    ensures
        *final(cells) == measured_cells(
            *old(cells),
            *old(cells),
            spec,
            old(cells).cell_count() as int,
            Pass::Every,
        ),
        final(cells).chain_wf(),
        same_layout(*old(cells), *final(cells)),
        forall|j: int|
            0 <= j < old(cells).cell_count() ==> #[trigger] final(cells).children_at(j)
                == old(cells).children_at(j),
        forall|j: int|
            0 <= j < old(cells).cell_count() ==> #[trigger] final(cells).bounds_at(j)
                == (BoundingBox {
                position: old(cells).bounds_at(j).position,
                size: assigned_size(*old(cells), spec, j),
            }),
        r.extent == natural_extent(*old(cells), spec, old(cells).cell_count() as int),
        r.widest == larger(
            widest(*old(cells), spec, old(cells).cell_count() as int, false),
            widest(*old(cells), spec, old(cells).cell_count() as int, true),
        ),
{
    let count = cells.count();
    let mut extent: u32 = 0;
    let mut widest_cell: u32 = 0;
    let mut i: usize = 0;
    while i < count
        invariant
            i <= count,
            count == old(cells).cell_count(),
            spec.height.limit() is None,
            cells.chain_wf(),
            same_layout(*old(cells), *cells),
            forall|j: int|
                0 <= j < count ==> #[trigger] cells.children_at(j) == old(cells).children_at(j),
            forall|j: int|
                0 <= j < count ==> #[trigger] cells.bounds_at(j) == (if j < i {
                    BoundingBox {
                        position: old(cells).bounds_at(j).position,
                        size: assigned_size(*old(cells), spec, j),
                    }
                } else {
                    old(cells).bounds_at(j)
                }),
            *cells == measured_cells(*old(cells), *old(cells), spec, i as int, Pass::Every),
            extent == natural_extent(*old(cells), spec, i as int),
            widest_cell == larger(
                widest(*old(cells), spec, i as int, false),
                widest(*old(cells), spec, i as int, true),
            ),
        decreases count - i,
    {
        cells.measure_at(i, spec);
        let measured = cells.bounding_box_at(i);
        extent = extent.saturating_add(measured.size.height);
        if measured.size.width > widest_cell {
            widest_cell = measured.size.width;
        }
        i = i + 1;
    }
    NaturalPass { extent, widest: widest_cell }
}

/// The vertical position at which cell `upto` is placed when the first cell
/// is placed at `origin`: each cell starts where the one before it ends.
pub open spec fn cursor_after<CE: LinearLayoutChainElement>(
    cells: CE,
    origin: i32,
    upto: int,
) -> i32
    decreases upto,
{
    if upto <= 0 {
        origin
    } else {
        shifted_forward(
            cursor_after(cells, origin, upto - 1),
            cells.bounds_at(upto - 1).size.height,
        )
    }
}

/// The chain `cells` after its first `upto` cells were placed one below the
/// other, the first at `position`, where `layout` holds the sizes of the
/// cells.
pub open spec fn arranged_cells<CE: LinearLayoutChainElement>(
    layout: CE,
    cells: CE,
    position: Position,
    upto: int,
) -> CE
    decreases upto,
{
    if upto <= 0 {
        cells
    } else {
        arranged_cells(layout, cells, position, upto - 1).arranged_at(
            upto - 1,
            Position { x: position.x, y: cursor_after(layout, position.y, upto - 1) },
        )
    }
}

/// Places the cells one below the other, the first at `position`, all at the
/// same horizontal position.
pub fn arrange_cells<CE: LinearLayoutChainElement>(cells: &mut CE, position: Position)
    requires
        old(cells).chain_wf(),
    ensures
        *final(cells) == arranged_cells(
            *old(cells),
            *old(cells),
            position,
            old(cells).cell_count() as int,
        ),
        final(cells).chain_wf(),
        same_layout(*old(cells), *final(cells)),
        forall|j: int|
            0 <= j < old(cells).cell_count() ==> #[trigger] final(cells).children_at(j)
                == old(cells).children_at(j),
        forall|j: int|
            0 <= j < old(cells).cell_count() ==> #[trigger] final(cells).bounds_at(j)
                == (BoundingBox {
                position: Position {
                    x: position.x,
                    y: cursor_after(*old(cells), position.y, j),
                },
                size: old(cells).bounds_at(j).size,
            }),
{
    let count = cells.count();
    let mut cursor = position;
    let mut i: usize = 0;
    while i < count
        invariant
            i <= count,
            count == old(cells).cell_count(),
            cells.chain_wf(),
            same_layout(*old(cells), *cells),
            forall|j: int|
                0 <= j < count ==> #[trigger] cells.children_at(j) == old(cells).children_at(j),
            forall|j: int|
                0 <= j < count ==> #[trigger] cells.bounds_at(j) == (if j < i {
                    BoundingBox {
                        position: Position {
                            x: position.x,
                            y: cursor_after(*old(cells), position.y, j),
                        },
                        size: old(cells).bounds_at(j).size,
                    }
                } else {
                    old(cells).bounds_at(j)
                }),
            *cells == arranged_cells(*old(cells), *old(cells), position, i as int),
            cursor == (Position {
                x: position.x,
                y: cursor_after(*old(cells), position.y, i as int),
            }),
        decreases count - i,
    {
        cells.arrange_at(i, cursor);
        let height = cells.bounding_box_at(i).size.height;
        cursor = cursor.offset(0, height);
        i = i + 1;
    }
}

/// The answer of a hit test on the cells from `from` on: the first cell that
/// is hit decides, and its answer is moved past the nodes of the cells
/// before it.
pub open spec fn hit_from<CE: LinearLayoutChainElement>(
    cells: CE,
    event: InputEvent,
    from: int,
) -> Option<nat>
    decreases cells.cell_count() - from,
{
    if from < 0 || from >= cells.cell_count() {
        None
    } else {
        match cells.hit_at(from, event) {
            Some(k) => Some(k + 1),
            None => match hit_from(cells, event, from + 1) {
                Some(k) => Some(k + 1 + cells.children_at(from)),
                None => None,
            },
        }
    }
}

/// Where the cells from `from` up to `i` are all missed and cell `i` is hit,
/// the answer is that of cell `i` moved past the nodes of the cells between.
pub proof fn lemma_hit_found<CE: LinearLayoutChainElement>(
    cells: CE,
    event: InputEvent,
    from: int,
    i: int,
    k: nat,
)
    requires
        0 <= from <= i < cells.cell_count(),
        forall|j: int| from <= j < i ==> (#[trigger] cells.hit_at(j, event)) is None,
        cells.hit_at(i, event) == Some(k),
    ensures
        hit_from(cells, event, from) == Some(
            (k + 1 + descendants(cells, i) - descendants(cells, from)) as nat,
        ),
    decreases i - from,
{
    if from < i {
        lemma_hit_found(cells, event, from + 1, i, k);
        lemma_descendants_grow(cells, from + 1, i);
        assert(cells.hit_at(from, event) is None);
    }
}

/// Where every cell from `from` on is missed, the answer is a miss.
pub proof fn lemma_hit_missed<CE: LinearLayoutChainElement>(cells: CE, event: InputEvent, from: int)
    requires
        0 <= from,
        forall|j: int|
            from <= j < cells.cell_count() ==> (#[trigger] cells.hit_at(j, event)) is None,
    ensures
        hit_from(cells, event, from) is None,
    decreases cells.cell_count() - from,
{
    if from < cells.cell_count() {
        lemma_hit_missed(cells, event, from + 1);
        assert(cells.hit_at(from, event) is None);
    }
}

/// The box of descendant `idx` of a layout, counted from cell `from` on.
pub open spec fn child_bounds_from<CE: LinearLayoutChainElement>(
    cells: CE,
    idx: nat,
    from: int,
) -> BoundingBox
    decreases cells.cell_count() - from,
{
    if from < 0 || from >= cells.cell_count() {
        cells.bounds_at(0)
    } else if idx == 0 {
        cells.bounds_at(from)
    } else if idx <= cells.children_at(from) {
        cells.child_bounds_at(from, (idx - 1) as nat)
    } else {
        child_bounds_from(cells, (idx - 1 - cells.children_at(from)) as nat, from + 1)
    }
}

/// Descendant `idx` of a layout is node `offset` of the subtree of cell
/// `i` exactly if the cells before `i` hold `idx - offset` nodes; it is then
/// the widget of the cell for offset 0, and that widget's descendant
/// `offset - 1` otherwise.
pub proof fn lemma_child_bounds_located<CE: LinearLayoutChainElement>(
    cells: CE,
    idx: nat,
    from: int,
    i: int,
    offset: nat,
)
    requires
        0 <= from <= i < cells.cell_count(),
        offset <= cells.children_at(i),
        idx == descendants(cells, i) - descendants(cells, from) + offset,
    ensures
        child_bounds_from(cells, idx, from) == (if offset == 0 {
            cells.bounds_at(i)
        } else {
            cells.child_bounds_at(i, (offset - 1) as nat)
        }),
    decreases i - from,
{
    if from < i {
        lemma_descendants_grow(cells, from + 1, i);
        lemma_child_bounds_located(
            cells,
            (idx - 1 - cells.children_at(from)) as nat,
            from + 1,
            i,
            offset,
        );
    }
}

/// The cells after the first `upto` of them were attached below node
/// `self_index`: the widget of each cell has recorded `self_index` as its
/// parent and takes the number after the last node of the cell before it.
pub open spec fn attached_cells<CE: LinearLayoutChainElement>(
    cells: CE,
    self_index: usize,
    upto: int,
) -> CE
    decreases upto,
{
    if upto <= 0 {
        cells
    } else {
        attached_cells(cells, self_index, upto - 1).attached_at(
            upto - 1,
            self_index,
            (self_index + 1 + descendants(cells, upto - 1)) as usize,
        )
    }
}

/// Whether `after` is what an update pass over the first `upto` cells, one
/// after the other, can make of the chain.
pub open spec fn updated_cells<CE: LinearLayoutChainElement>(
    cells: CE,
    after: CE,
    upto: int,
) -> bool
    decreases upto,
{
    if upto <= 0 {
        after == cells
    } else {
        let last = upto - 1;
        exists|between: CE|
            updated_cells(cells, between, last) && #[trigger] between.updated_at_to(last, after)
    }
}

/// An update pass over one more cell extends an update pass over the cells
/// before it.
pub proof fn lemma_updated_one_more<CE: LinearLayoutChainElement>(
    cells: CE,
    between: CE,
    after: CE,
    upto: int,
)
    requires
        upto >= 0,
        updated_cells(cells, between, upto),
        between.updated_at_to(upto, after),
    ensures
        updated_cells(cells, after, upto + 1),
{
    let last = upto + 1 - 1;
    assert(updated_cells(cells, between, last) && between.updated_at_to(last, after));
}

/// The cell whose subtree holds descendant `idx` of a layout, counted from
/// cell `from` on, and the place of the descendant in that subtree: 0 for
/// the widget of the cell, `k + 1` for the widget's descendant `k`.
pub open spec fn cell_holding<CE: LinearLayoutChainElement>(
    cells: CE,
    idx: nat,
    from: int,
) -> (int, nat)
    decreases cells.cell_count() - from,
{
    if from < 0 || from >= cells.cell_count() || idx <= cells.children_at(from) {
        (from, idx)
    } else {
        cell_holding(cells, (idx - 1 - cells.children_at(from)) as nat, from + 1)
    }
}

/// Descendant `idx` of a layout lies in the subtree of cell `i`, at place
/// `offset`, exactly if the cells before `i` hold `idx - offset` nodes.
pub proof fn lemma_cell_holding_located<CE: LinearLayoutChainElement>(
    cells: CE,
    idx: nat,
    from: int,
    i: int,
    offset: nat,
)
    requires
        0 <= from <= i < cells.cell_count(),
        offset <= cells.children_at(i),
        idx == descendants(cells, i) - descendants(cells, from) + offset,
    ensures
        cell_holding(cells, idx, from) == (i, offset),
    decreases i - from,
{
    if from < i {
        lemma_descendants_grow(cells, from + 1, i);
        lemma_cell_holding_located(
            cells,
            (idx - 1 - cells.children_at(from)) as nat,
            from + 1,
            i,
            offset,
        );
    }
}

/// A column with at least one weighted cell fills its height: once it is
/// measured under a limit on the height and arranged, the heights of its
/// cells add up to that limit, which is the height of the column, and each
/// cell starts where the one before it ends.
///
/// This holds where every cell keeps to the height it is allowed or told
/// and every cell whose index is below the number of stray pixels has a
/// weight.
pub proof fn lemma_column_fills_its_height<CE: LinearLayoutChainElement>(
    column: Column<CE>,
    spec: MeasureSpec,
    max_height: u32,
    origin: Position,
)
    requires
        spec.height.limit() == Some(max_height),
        total_weight(column.widgets, column.widgets.cell_count() as int) > 0,
        cells_keep_to_heights(column.widgets, spec),
        stray_pixels_land(column.widgets, spec, max_height),
    ensures
        ({
            let shown = column.measured(spec).arranged(origin);
            let n = column.widgets.cell_count() as int;
            &&& shown.widgets.cell_count() == n
            &&& stacked_extent(shown.widgets, n) == max_height
            &&& shown.bounds().size.height == max_height
            &&& shown.bounds().position == origin
            &&& forall|j: int|
                0 <= j < n ==> (#[trigger] shown.widgets.bounds_at(j)).position == (Position {
                    x: origin.x,
                    y: cursor_after(measured_layout(column.widgets, spec), origin.y, j),
                })
        }),
{
    let n = column.widgets.cell_count() as int;
    let measured = measured_layout(column.widgets, spec);
    let shown = column.measured(spec).arranged(origin);
    lemma_measured_layout(column.widgets, spec);
    lemma_arranged_cells(measured, measured, origin, n);
    assert(shown.widgets == arranged_cells(measured, measured, origin, n));
    lemma_stacked_is_assigned(column.widgets, shown.widgets, spec, n);
    lemma_weighted_layout_fills_its_height(column.widgets, spec, max_height);
}

/// A layout that stacks its cells from top to bottom. It keeps no
/// interaction state and passes none on.
pub struct Column<CE> {
    pub parent_index: usize,
    pub bounds: BoundingBox,
    pub widgets: CE,
}

impl<W: Widget> Column<Chain<Cell<W>>> {
    /// A column with one cell, with an empty box at the origin.
    pub fn new(widget: Cell<W>) -> (column: Self)
        ensures
            column.parent_index == 0,
            column.bounds == (BoundingBox {
                position: Position { x: 0, y: 0 },
                size: MeasuredSize { width: 0, height: 0 },
            }),
            column.widgets.object == widget,
            column.widgets.cell_count() == 1,
            column.child_count() == 1 + widget.widget.child_count(),
            widget.widget.wf() && widget.widget.child_count() < usize::MAX ==> column.wf(),
    {
        let column = Column {
            parent_index: 0,
            bounds: BoundingBox::default(),
            widgets: Chain::new(widget),
        };
        assert(descendants(column.widgets, 1) == descendants(column.widgets, 0) + 1
            + column.widgets.children_at(0));
        column
    }
}

impl<W: Widget, CE: LinearLayoutChainElement> Column<Link<Cell<W>, CE>> {
    /// Gives the cell that was added last a weight.
    pub fn weight(self, weight: u32) -> (column: Self)
        ensures
            column.parent_index == self.parent_index,
            column.bounds == self.bounds,
            column.widgets.parent == self.widgets.parent,
            column.widgets.object.widget == self.widgets.object.widget,
            column.widgets.object.weight == weight,
            column.child_count() == self.child_count(),
            column.wf() == self.wf(),
    {
        let column = Column {
            parent_index: self.parent_index,
            bounds: self.bounds,
            widgets: Link {
                parent: self.widgets.parent,
                object: self.widgets.object.weight(weight),
            },
        };
        proof {
            lemma_descendants_alike(
                self.widgets,
                column.widgets,
                self.widgets.cell_count() as int,
            );
        }
        column
    }
}

impl<CE: LinearLayoutChainElement> Column<CE> {
    /// Adds a cell below the others. The cells that were there keep their
    /// indices; the new cell takes the next one.
    pub fn add<W: Widget>(self, widget: Cell<W>) -> (column: Column<Link<Cell<W>, CE>>)
        ensures
            column.parent_index == self.parent_index,
            column.bounds == self.bounds,
            column.widgets.parent == self.widgets,
            column.widgets.object == widget,
            column.widgets.cell_count() == self.widgets.cell_count() + 1,
            column.widgets.weight_at(self.widgets.cell_count() as int) == widget.weight,
            column.child_count() == self.child_count() + 1 + widget.widget.child_count(),
            self.wf() && widget.widget.wf() && self.widgets.cell_count() < usize::MAX
                && self.child_count() + 1 + widget.widget.child_count() <= usize::MAX
                ==> column.wf(),
    {
        let column = Column {
            parent_index: self.parent_index,
            bounds: self.bounds,
            widgets: Link { parent: self.widgets, object: widget },
        };
        proof {
            lemma_descendants_of_link(column.widgets, self.widgets.cell_count() as int);
        }
        column
    }

    /// Finds the cell whose subtree holds descendant `idx` of the column, and
    /// the place of the descendant in that subtree: 0 for the cell's widget
    /// itself, `k + 1` for the widget's descendant `k`. Returns `None` when
    /// the column has no descendant `idx`.
    pub fn locate(&self, idx: usize) -> (r: Option<(usize, usize)>)
        requires
            self.wf(),
        ensures
            match r {
                Some((cell, offset)) => {
                    &&& cell < self.widgets.cell_count()
                    &&& offset <= self.widgets.children_at(cell as int)
                    &&& idx == descendants(self.widgets, cell as int) + offset
                },
                None => idx >= self.child_count(),
            },
    {
        let count = self.widgets.count();
        let mut rest = idx;
        let mut i: usize = 0;
        while i < count
            invariant
                i <= count,
                count == self.widgets.cell_count(),
                self.wf(),
                idx == descendants(self.widgets, i as int) + rest,
            decreases count - i,
        {
            let grandchildren = self.widgets.children_of(i);
            if rest <= grandchildren {
                return Some((i, rest));
            }
            rest = rest - grandchildren - 1;
            i = i + 1;
        }
        None
    }

    /// The box of the column, for the caller to change. A layout keeps its
    /// box itself; a decorator derives its box from its child and offers no
    /// such access.
    pub fn bounding_box_mut(&mut self) -> (r: &mut BoundingBox)
        ensures
            *r == old(self).bounds,
            *final(self) == (Column { bounds: *final(r), ..*old(self) }),
    {
        &mut self.bounds
    }

    /// Records the measured size. The box stays where it is.
    pub fn set_measured_size(&mut self, size: MeasuredSize)
        ensures
            *final(self) == (Column {
                bounds: BoundingBox { position: old(self).bounds.position, size },
                ..*old(self)
            }),
    {
        self.bounds.size = size;
    }
}

impl<CE: LinearLayoutChainElement> Widget for Column<CE> {
    open spec fn wf(&self) -> bool {
        &&& self.widgets.chain_wf()
        &&& descendants(self.widgets, self.widgets.cell_count() as int) <= usize::MAX
    }

    open spec fn bounds(&self) -> BoundingBox {
        self.bounds
    }

    open spec fn size_for(&self, spec: MeasureSpec) -> MeasuredSize {
        layout_size(self.widgets, spec)
    }

    open spec fn child_count(&self) -> nat {
        descendants(self.widgets, self.widgets.cell_count() as int)
    }

    open spec fn child_bounds(&self, idx: nat) -> BoundingBox {
        child_bounds_from(self.widgets, idx, 0)
    }

    open spec fn hit(&self, event: InputEvent) -> Option<nat> {
        hit_from(self.widgets, event, 0)
    }

    open spec fn parent(&self) -> usize {
        self.parent_index
    }

    open spec fn with_state(&self, bits: u32) -> Self {
        *self
    }

    open spec fn attached(&self, parent: usize, self_index: usize) -> Self {
        Column {
            parent_index: parent,
            widgets: attached_cells(
                self.widgets,
                self_index,
                self.widgets.cell_count() as int,
            ),
            ..*self
        }
    }

    open spec fn measured(&self, spec: MeasureSpec) -> Self {
        Column {
            bounds: BoundingBox {
                position: self.bounds.position,
                size: layout_size(self.widgets, spec),
            },
            widgets: measured_layout(self.widgets, spec),
            ..*self
        }
    }

    open spec fn arranged(&self, position: Position) -> Self {
        Column {
            bounds: BoundingBox { position, size: self.bounds.size },
            widgets: arranged_cells(
                self.widgets,
                self.widgets,
                position,
                self.widgets.cell_count() as int,
            ),
            ..*self
        }
    }

    open spec fn with_parent(&self, index: usize) -> Self {
        Column { parent_index: index, ..*self }
    }

    open spec fn updated_to(&self, after: Self) -> bool {
        &&& updated_cells(self.widgets, after.widgets, self.widgets.cell_count() as int)
        &&& after == (Column { widgets: after.widgets, ..*self })
    }

    open spec fn selectable(&self) -> bool {
        false
    }

    open spec fn with_selection(&self, selected: bool) -> Self {
        *self
    }

    open spec fn after_input(&self, idx: nat, event: InputEvent) -> Self {
        if idx == 0 {
            *self
        } else {
            let (cell, offset) = cell_holding(self.widgets, (idx - 1) as nat, 0);
            Column { widgets: self.widgets.after_input_at(cell, offset, event), ..*self }
        }
    }

    open spec fn input_activates(&self, idx: nat, event: InputEvent) -> bool {
        idx != 0 && {
            let (cell, offset) = cell_holding(self.widgets, (idx - 1) as nat, 0);
            self.widgets.input_activates_at(cell, offset, event)
        }
    }

    open spec fn input_flags(&self, idx: nat, event: InputEvent) -> Option<u32> {
        if idx == 0 {
            None
        } else {
            let (cell, offset) = cell_holding(self.widgets, (idx - 1) as nat, 0);
            self.widgets.input_flags_at(cell, offset, event)
        }
    }

    proof fn lemma_arrange_round_trip(&self, origin: Position) {
    }

    proof fn lemma_measured_size(&self, spec: MeasureSpec) {
    }

    /// Records the parent and numbers the cells: each cell's widget takes
    /// the index after the last node of the cell before it, and has the
    /// column as its parent.
    fn attach(&mut self, parent: usize, self_index: usize)
        ensures
            forall|j: int|
                0 <= j < old(self).widgets.cell_count() ==> #[trigger] final(self).widgets.parent_at(j)
                    == self_index,
    {
        self.parent_index = parent;
        let count = self.widgets.count();
        let mut next = self_index;
        let mut i: usize = 0;
        while i < count
            invariant
                i <= count,
                count == old(self).widgets.cell_count(),
                self.widgets.chain_wf(),
                same_layout(old(self).widgets, self.widgets),
                forall|j: int|
                    0 <= j < count ==> #[trigger] self.widgets.children_at(j)
                        == old(self).widgets.children_at(j),
                forall|j: int|
                    0 <= j < count ==> #[trigger] self.widgets.bounds_at(j)
                        == old(self).widgets.bounds_at(j),
                self.bounds == old(self).bounds,
                self.parent_index == parent,
                self.widgets == attached_cells(old(self).widgets, self_index, i as int),
                forall|j: int| 0 <= j < i ==> #[trigger] self.widgets.parent_at(j) == self_index,
                next == self_index + descendants(old(self).widgets, i as int),
                self_index + descendants(old(self).widgets, count as int) <= usize::MAX,
            decreases count - i,
        {
            proof {
                lemma_descendants_grow(old(self).widgets, i as int + 1, count as int);
            }
            self.widgets.attach_at(i, self_index, next + 1);
            next = next + 1 + self.widgets.children_of(i);
            i = i + 1;
        }
        proof {
            lemma_descendants_alike(old(self).widgets, self.widgets, count as int);
            assert forall|s: MeasureSpec| #[trigger] self.size_for(s) == old(self).size_for(s) by {
                lemma_layout_size_alike(old(self).widgets, self.widgets, s);
            }
        }
    }

    /// Places the column at `position` and its cells one below the other
    /// from there.
    fn arrange(&mut self, position: Position)
        ensures
            forall|j: int|
                0 <= j < old(self).widgets.cell_count() ==> #[trigger] final(self).widgets.bounds_at(
                    j,
                ) == (BoundingBox {
                    position: Position {
                        x: position.x,
                        y: cursor_after(old(self).widgets, position.y, j),
                    },
                    size: old(self).widgets.bounds_at(j).size,
                }),
    {
        self.bounds.position = position;
        arrange_cells(&mut self.widgets, position);
        proof {
            lemma_descendants_alike(
                old(self).widgets,
                self.widgets,
                self.widgets.cell_count() as int,
            );
            assert forall|s: MeasureSpec| #[trigger] self.size_for(s) == old(self).size_for(s) by {
                lemma_layout_size_alike(old(self).widgets, self.widgets, s);
            }
        }
    }

    fn bounding_box(&self) -> (b: BoundingBox) {
        self.bounds
    }

    /// Measures the cells and then the column.
    ///
    /// Where `spec` sets no limit on the height, every cell is measured
    /// under `spec`. Otherwise the cells of weight 0 are measured first, in
    /// order, each allowed the height that the ones before it left over, and
    /// what is left after them is divided among the weighted cells, each of
    /// which is told its exact height.
    fn measure(&mut self, spec: MeasureSpec)
        ensures
            forall|j: int|
                0 <= j < old(self).widgets.cell_count() ==> #[trigger] final(self).widgets.bounds_at(
                    j,
                ) == (BoundingBox {
                    position: old(self).widgets.bounds_at(j).position,
                    size: assigned_size(old(self).widgets, spec, j),
                }),
            same_layout(old(self).widgets, final(self).widgets),
    {
        let ghost count = self.widgets.cell_count() as int;
        let size = match spec.height {
            MeasureConstraint::Unspecified => {
                let found = measure_naturally(&mut self.widgets, spec);
                MeasuredSize {
                    width: spec.width.apply_to_measured(found.widest),
                    height: found.extent,
                }
            },
            MeasureConstraint::AtMost(max_height) | MeasureConstraint::Exactly(max_height) => {
                let fixed = measure_fixed_cells(&mut self.widgets, spec, max_height);
                let ghost between = self.widgets;
                let mut widest_cell = fixed.widest;
                if fixed.total_weight != 0 {
                    proof {
                        lemma_fixed_extent_alike(
                            old(self).widgets,
                            between,
                            spec.width,
                            max_height,
                            count,
                        );
                        lemma_total_weight_alike(old(self).widgets, between, count);
                    }
                    let widest_weighted = measure_weighted_cells(
                        &mut self.widgets,
                        spec,
                        max_height,
                        fixed.consumed,
                        fixed.total_weight,
                    );
                    proof {
                        lemma_measured_cells_alike(
                            old(self).widgets,
                            between,
                            between,
                            spec,
                            count,
                            Pass::Weighted,
                        );
                        lemma_widest_alike(old(self).widgets, between, spec, count, true);
                        assert forall|j: int| 0 <= j < count implies #[trigger] assigned_size(
                            between,
                            spec,
                            j,
                        ) == assigned_size(old(self).widgets, spec, j) by {
                            lemma_assigned_alike(old(self).widgets, between, spec, j);
                        }
                    }
                    if widest_weighted > widest_cell {
                        widest_cell = widest_weighted;
                    }
                } else {
                    proof {
                        lemma_no_weighted_cells(old(self).widgets, spec, count);
                        assert forall|j: int| 0 <= j < count implies old(self).widgets.weight_at(j)
                            == 0 by {
                            lemma_weight_within_total(old(self).widgets, j, count);
                        }
                    }
                }
                MeasuredSize {
                    width: spec.width.apply_to_measured(widest_cell),
                    height: if fixed.total_weight == 0 {
                        fixed.consumed
                    } else {
                        max_height
                    },
                }
            },
        };
        self.set_measured_size(size);
        proof {
            lemma_descendants_alike(old(self).widgets, self.widgets, count);
            assert forall|s: MeasureSpec| #[trigger] self.size_for(s) == old(self).size_for(s) by {
                lemma_layout_size_alike(old(self).widgets, self.widgets, s);
            }
        }
    }

    fn children(&self) -> (n: usize) {
        let count = self.widgets.count();
        let mut children: usize = 0;
        let mut i: usize = 0;
        while i < count
            invariant
                i <= count,
                count == self.widgets.cell_count(),
                self.wf(),
                children == descendants(self.widgets, i as int),
            decreases count - i,
        {
            proof {
                lemma_descendants_grow(self.widgets, i as int + 1, count as int);
            }
            children = children + 1 + self.widgets.children_of(i);
            i = i + 1;
        }
        children
    }

    fn child_bounding_box(&self, idx: usize) -> (b: BoundingBox) {
        let located = self.locate(idx);
        match located {
            Some((cell, offset)) => {
                proof {
                    lemma_child_bounds_located(
                        self.widgets,
                        idx as nat,
                        0,
                        cell as int,
                        offset as nat,
                    );
                }
                if offset == 0 {
                    self.widgets.bounding_box_at(cell)
                } else {
                    self.widgets.child_bounding_box_at(cell, offset - 1)
                }
            },
            None => self.bounds,
        }
    }

    /// Asks the cells in order and reports the first hit, moved past the
    /// nodes of the cells before it.
    fn test_input(&self, event: InputEvent) -> (r: Option<usize>) {
        let count = self.widgets.count();
        let mut index: usize = 0;
        let mut i: usize = 0;
        while i < count
            invariant
                i <= count,
                count == self.widgets.cell_count(),
                self.wf(),
                index == descendants(self.widgets, i as int),
                forall|j: int| 0 <= j < i ==> (#[trigger] self.widgets.hit_at(j, event)) is None,
            decreases count - i,
        {
            proof {
                lemma_descendants_grow(self.widgets, i as int + 1, count as int);
            }
            match self.widgets.test_input_at(i, event) {
                Some(k) => {
                    proof {
                        lemma_hit_found(self.widgets, event, 0, i as int, k as nat);
                    }
                    return Some(k + index + 1);
                },
                None => {},
            }
            index = index + self.widgets.children_of(i) + 1;
            i = i + 1;
        }
        proof {
            lemma_hit_missed(self.widgets, event, 0);
        }
        None
    }

    /// The column takes no input itself and keeps no flags; an event for a
    /// node below it is passed to the cell whose subtree holds that node.
    fn handle_input(&mut self, idx: usize, event: InputEvent) -> (r: Delivery) {
        if idx == 0 {
            return Delivery { activated: false, flags: None };
        }
        match self.locate(idx - 1) {
            Some((cell, offset)) => {
                proof {
                    lemma_cell_holding_located(
                        self.widgets,
                        (idx - 1) as nat,
                        0,
                        cell as int,
                        offset as nat,
                    );
                }
                let delivered = self.widgets.handle_input_at(cell, offset, event);
                proof {
                    lemma_descendants_alike(
                        old(self).widgets,
                        self.widgets,
                        self.widgets.cell_count() as int,
                    );
                }
                delivered
            },
            None => Delivery { activated: false, flags: None },
        }
    }

    /// Lets every cell bring itself up to date.
    fn update(&mut self)
        ensures
            final(self).bounds == old(self).bounds,
            final(self).parent_index == old(self).parent_index,
    {
        let count = self.widgets.count();
        let mut i: usize = 0;
        while i < count
            invariant
                i <= count,
                count == old(self).widgets.cell_count(),
                self.widgets.chain_wf(),
                self.widgets.cell_count() == count,
                forall|j: int|
                    0 <= j < count ==> #[trigger] self.widgets.children_at(j)
                        == old(self).widgets.children_at(j),
                self.bounds == old(self).bounds,
                self.parent_index == old(self).parent_index,
                updated_cells(old(self).widgets, self.widgets, i as int),
            decreases count - i,
        {
            let ghost between = self.widgets;
            self.widgets.update_at(i);
            proof {
                lemma_updated_one_more(old(self).widgets, between, self.widgets, i as int);
            }
            i = i + 1;
        }
        proof {
            lemma_descendants_alike(old(self).widgets, self.widgets, count as int);
        }
    }

    fn parent_index(&self) -> (r: usize) {
        self.parent_index
    }

    fn set_parent(&mut self, index: usize) {
        self.parent_index = index;
    }

    /// Does nothing: a column keeps no interaction state.
    fn change_state(&mut self, state: u32) {
    }

    /// Does nothing: a column cannot be selected.
    fn change_selection(&mut self, selected: bool)
        ensures
            *final(self) == *old(self),
    {
    }

    fn is_selectable(&self) -> (r: bool)
        ensures
            !r,
    {
        false
    }
}

} // verus!
