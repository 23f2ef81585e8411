//! How a linear layout divides its main axis among its cells.
//!
//! Cells of weight 0 are measured first, in order, each allowed what the
//! cells before it left over. What remains after all of them is divided
//! among the other cells in proportion to their weights. The pixels that the
//! division cannot hand out evenly go, one each, to the weighted cells whose
//! index is below the number of such pixels.

use vstd::prelude::*;
use crate::geometry::extent_diff;
use crate::geometry::extent_sum;
use crate::linear::LinearLayoutChainElement;
use crate::measurement::MeasureConstraint;
use crate::measurement::MeasureSpec;

verus! {

/// The sum of the weights of the first `upto` cells.
pub open spec fn total_weight<CE: LinearLayoutChainElement>(cells: CE, upto: int) -> int
    decreases upto,
{
    if upto <= 0 {
        0
    } else {
        total_weight(cells, upto - 1) + cells.weight_at(upto - 1)
    }
}

/// The weights of the first `upto` cells add up to no less than zero and to
/// no more than `upto` times the largest weight there is.
pub proof fn lemma_total_weight_bounds<CE: LinearLayoutChainElement>(cells: CE, upto: int)
    requires
        upto >= 0,
    ensures
        0 <= total_weight(cells, upto) <= upto * 0xffff_ffff,
    decreases upto,
{
    if upto > 0 {
        lemma_total_weight_bounds(cells, upto - 1);
    }
}

/// The constraints for a cell of weight 0 when the cells before it consumed
/// `consumed` of the `max_height` pixels.
pub open spec fn fixed_spec(
    width: MeasureConstraint,
    max_height: u32,
    consumed: u32,
) -> MeasureSpec {
    MeasureSpec { width, height: MeasureConstraint::AtMost(extent_diff(max_height, consumed)) }
}

/// The height that the cells of weight 0 among the first `upto` cells
/// consume together, each measured under what the ones before it left over.
pub open spec fn fixed_extent<CE: LinearLayoutChainElement>(
    cells: CE,
    width: MeasureConstraint,
    max_height: u32,
    upto: int,
) -> u32
    decreases upto,
{
    if upto <= 0 {
        0
    } else {
        let before = fixed_extent(cells, width, max_height, upto - 1);
        if cells.weight_at(upto - 1) == 0 {
            extent_sum(
                before,
                cells.size_at(upto - 1, fixed_spec(width, max_height, before)).height,
            )
        } else {
            before
        }
    }
}

/// The pixels that each unit of weight receives.
pub open spec fn unit_extent(remaining: u32, total_weight: int) -> int {
    remaining as int / total_weight
}

/// The pixels that are left when every unit of weight has received its
/// share.
pub open spec fn stray_pixels(remaining: u32, total_weight: int) -> int {
    remaining as int % total_weight
}

/// The height of a weighted cell: its weight times the share of one unit,
/// and one pixel more if its index is below the number of stray pixels.
pub open spec fn weighted_extent(
    remaining: u32,
    total_weight: int,
    weight: u32,
    index: int,
) -> int {
    unit_extent(remaining, total_weight) * weight + if index < stray_pixels(
        remaining,
        total_weight,
    ) {
        1int
    } else {
        0int
    }
}

/// Whether a weighted cell receives a stray pixel depends on its index alone:
/// the cell with index `index` receives one exactly if `index` is below the
/// number of stray pixels, whatever its weight and the weights of the others.
pub proof fn lemma_stray_pixels_go_to_first_cells(
    remaining: u32,
    total_weight: int,
    weight: u32,
    other_weight: u32,
    index: int,
)
    requires
        total_weight > 0,
    ensures
        weighted_extent(remaining, total_weight, weight, index) - unit_extent(
            remaining,
            total_weight,
        ) * weight == (if index < stray_pixels(remaining, total_weight) {
            1int
        } else {
            0int
        }),
        weighted_extent(remaining, total_weight, weight, index) - unit_extent(
            remaining,
            total_weight,
        ) * weight == weighted_extent(remaining, total_weight, other_weight, index) - unit_extent(
            remaining,
            total_weight,
        ) * other_weight,
        0 <= stray_pixels(remaining, total_weight) < total_weight,
{
}

/// A weighted cell never receives more than there is to divide.
pub proof fn lemma_weighted_extent_bounded(
    remaining: u32,
    total_weight: int,
    weight: u32,
    index: int,
)
    requires
        0 < weight <= total_weight,
        index >= 0,
    ensures
        0 <= weighted_extent(remaining, total_weight, weight, index) <= remaining,
{
    let unit = unit_extent(remaining, total_weight);
    let stray = stray_pixels(remaining, total_weight);
    assert(unit * total_weight + stray == remaining && 0 <= stray < total_weight && unit >= 0)
        by (nonlinear_arith)
        requires
            unit == remaining as int / total_weight,
            stray == remaining as int % total_weight,
            total_weight > 0,
    ;
    assert(0 <= unit * weight <= unit * total_weight) by (nonlinear_arith)
        requires
            0 <= unit,
            0 < weight <= total_weight,
    ;
}

/// Computes the height of a weighted cell. The total of the weights is
/// taken in 128 bits, so that it is exact for every chain.
pub fn weighted_share(remaining: u32, total_weight: u128, weight: u32, index: usize) -> (r: u32)
    requires
        0 < weight <= total_weight,
    ensures
        r == weighted_extent(remaining, total_weight as int, weight, index as int),
        r <= remaining,
{
    proof {
        lemma_weighted_extent_bounded(remaining, total_weight as int, weight, index as int);
    }
    let wide: u128 = remaining as u128;
    let unit_wide: u128 = wide / total_weight;
    let stray_wide: u128 = wide % total_weight;
    assert(0 <= unit_wide * weight <= remaining && unit_wide <= remaining && stray_wide
        <= remaining) by (nonlinear_arith)
        requires
            unit_wide == wide / total_weight,
            stray_wide == wide % total_weight,
            wide == remaining,
            0 < weight <= total_weight,
    ;
    let unit: u32 = unit_wide as u32;
    let base: u32 = unit * weight;
    if (index as u128) < stray_wide {
        base + 1
    } else {
        base
    }
}

/// The constraints under which cell `i` is measured when the layout is
/// measured under `spec`.
pub open spec fn assigned_spec<CE: LinearLayoutChainElement>(
    cells: CE,
    spec: MeasureSpec,
    i: int,
) -> MeasureSpec {
    match spec.height.limit() {
        None => spec,
        Some(max_height) => {
            let n = cells.cell_count() as int;
            if cells.weight_at(i) == 0 {
                fixed_spec(spec.width, max_height, fixed_extent(cells, spec.width, max_height, i))
            } else {
                MeasureSpec {
                    width: spec.width,
                    height: MeasureConstraint::Exactly(
                        weighted_extent(
                            extent_diff(
                                max_height,
                                fixed_extent(cells, spec.width, max_height, n),
                            ),
                            total_weight(cells, n),
                            cells.weight_at(i),
                            i,
                        ) as u32,
                    ),
                }
            }
        },
    }
}

/// The size that cell `i` reports when the layout is measured under `spec`.
pub open spec fn assigned_size<CE: LinearLayoutChainElement>(
    cells: CE,
    spec: MeasureSpec,
    i: int,
) -> crate::geometry::MeasuredSize {
    cells.size_at(i, assigned_spec(cells, spec, i))
}

/// The largest width that a cell among the first `upto` reports when the
/// layout is measured under `spec`, counting the weighted cells only or the
/// cells of weight 0 only.
pub open spec fn widest<CE: LinearLayoutChainElement>(
    cells: CE,
    spec: MeasureSpec,
    upto: int,
    weighted: bool,
) -> u32
    decreases upto,
{
    if upto <= 0 {
        0
    } else {
        let before = widest(cells, spec, upto - 1, weighted);
        let width = assigned_size(cells, spec, upto - 1).width;
        if (cells.weight_at(upto - 1) != 0) == weighted && width > before {
            width
        } else {
            before
        }
    }
}

/// The sum of the heights that the first `upto` cells report under `spec`,
/// held at `u32::MAX`.
pub open spec fn natural_extent<CE: LinearLayoutChainElement>(
    cells: CE,
    spec: MeasureSpec,
    upto: int,
) -> u32
    decreases upto,
{
    if upto <= 0 {
        0
    } else {
        extent_sum(natural_extent(cells, spec, upto - 1), cells.size_at(upto - 1, spec).height)
    }
}

/// The larger of two extents.
pub open spec fn larger(a: u32, b: u32) -> u32 {
    if a < b {
        b
    } else {
        a
    }
}

/// The size a linear layout with these cells reports under `spec`. Its width
/// is the width of its widest cell, held to the width constraint. With no
/// limit on the height, its height is the sum of the heights of its cells.
/// With a limit, it is the limit if any cell has a weight, and otherwise the
/// height that the cells consume.
pub open spec fn layout_size<CE: LinearLayoutChainElement>(
    cells: CE,
    spec: MeasureSpec,
) -> crate::geometry::MeasuredSize {
    let n = cells.cell_count() as int;
    crate::geometry::MeasuredSize {
        width: spec.width.applied_to(
            larger(widest(cells, spec, n, false), widest(cells, spec, n, true)),
        ),
        height: match spec.height.limit() {
            None => natural_extent(cells, spec, n),
            Some(max_height) => if total_weight(cells, n) == 0 {
                fixed_extent(cells, spec.width, max_height, n)
            } else {
                max_height
            },
        },
    }
}

/// Whether two states of a chain are laid out alike: they have as many
/// cells, with the same weights, and every cell measures the same in both.
pub open spec fn same_layout<CE: LinearLayoutChainElement>(a: CE, b: CE) -> bool {
    &&& a.cell_count() == b.cell_count()
    &&& forall|j: int| 0 <= j < a.cell_count() ==> #[trigger] a.weight_at(j) == b.weight_at(j)
    &&& forall|j: int, s: MeasureSpec|
        0 <= j < a.cell_count() ==> #[trigger] a.size_at(j, s) == b.size_at(j, s)
}

/// Chains that are laid out alike have the same weights in total.
pub proof fn lemma_total_weight_alike<CE: LinearLayoutChainElement>(a: CE, b: CE, upto: int)
    requires
        same_layout(a, b),
        upto <= a.cell_count(),
    ensures
        total_weight(a, upto) == total_weight(b, upto),
    decreases upto,
{
    if upto > 0 {
        lemma_total_weight_alike(a, b, upto - 1);
    }
}

/// Chains that are laid out alike consume the same height in their cells of
/// weight 0.
pub proof fn lemma_fixed_extent_alike<CE: LinearLayoutChainElement>(
    a: CE,
    b: CE,
    width: MeasureConstraint,
    max_height: u32,
    upto: int,
)
    requires
        same_layout(a, b),
        upto <= a.cell_count(),
    ensures
        fixed_extent(a, width, max_height, upto) == fixed_extent(b, width, max_height, upto),
    decreases upto,
{
    if upto > 0 {
        lemma_fixed_extent_alike(a, b, width, max_height, upto - 1);
    }
}

/// Chains that are laid out alike hand the same constraints to their cells,
/// and get the same sizes back.
pub proof fn lemma_assigned_alike<CE: LinearLayoutChainElement>(
    a: CE,
    b: CE,
    spec: MeasureSpec,
    i: int,
)
    requires
        same_layout(a, b),
        0 <= i < a.cell_count(),
    ensures
        assigned_spec(a, spec, i) == assigned_spec(b, spec, i),
        assigned_size(a, spec, i) == assigned_size(b, spec, i),
{
    let n = a.cell_count() as int;
    match spec.height.limit() {
        None => {},
        Some(max_height) => {
            lemma_fixed_extent_alike(a, b, spec.width, max_height, i);
            lemma_fixed_extent_alike(a, b, spec.width, max_height, n);
            lemma_total_weight_alike(a, b, n);
        },
    }
}

/// Chains that are laid out alike have the same widest cell.
pub proof fn lemma_widest_alike<CE: LinearLayoutChainElement>(
    a: CE,
    b: CE,
    spec: MeasureSpec,
    upto: int,
    weighted: bool,
)
    requires
        same_layout(a, b),
        upto <= a.cell_count(),
    ensures
        widest(a, spec, upto, weighted) == widest(b, spec, upto, weighted),
    decreases upto,
{
    if upto > 0 {
        lemma_widest_alike(a, b, spec, upto - 1, weighted);
        lemma_assigned_alike(a, b, spec, upto - 1);
    }
}

/// Chains that are laid out alike have the same height when nothing limits
/// it.
pub proof fn lemma_natural_extent_alike<CE: LinearLayoutChainElement>(
    a: CE,
    b: CE,
    spec: MeasureSpec,
    upto: int,
)
    requires
        same_layout(a, b),
        upto <= a.cell_count(),
    ensures
        natural_extent(a, spec, upto) == natural_extent(b, spec, upto),
    decreases upto,
{
    if upto > 0 {
        lemma_natural_extent_alike(a, b, spec, upto - 1);
    }
}

/// Layouts whose chains are laid out alike report the same size.
pub proof fn lemma_layout_size_alike<CE: LinearLayoutChainElement>(
    a: CE,
    b: CE,
    spec: MeasureSpec,
)
    requires
        same_layout(a, b),
    ensures
        layout_size(a, spec) == layout_size(b, spec),
{
    let n = a.cell_count() as int;
    lemma_widest_alike(a, b, spec, n, false);
    lemma_widest_alike(a, b, spec, n, true);
    lemma_natural_extent_alike(a, b, spec, n);
    lemma_total_weight_alike(a, b, n);
    match spec.height.limit() {
        None => {},
        Some(max_height) => {
            lemma_fixed_extent_alike(a, b, spec.width, max_height, n);
        },
    }
}

/// No cell weighs more than the first cells up to and past it together.
pub proof fn lemma_weight_within_total<CE: LinearLayoutChainElement>(cells: CE, i: int, upto: int)
    requires
        0 <= i < upto,
    ensures
        cells.weight_at(i) <= total_weight(cells, upto),
    decreases upto,
{
    lemma_total_weight_bounds(cells, upto - 1);
    if i < upto - 1 {
        lemma_weight_within_total(cells, i, upto - 1);
    }
}

/// Where no cell has a weight, no weighted cell is the widest.
pub proof fn lemma_no_weighted_cells<CE: LinearLayoutChainElement>(
    cells: CE,
    spec: MeasureSpec,
    upto: int,
)
    requires
        total_weight(cells, upto) == 0,
    ensures
        widest(cells, spec, upto, true) == 0,
    decreases upto,
{
    if upto > 0 {
        lemma_total_weight_bounds(cells, upto - 1);
        lemma_no_weighted_cells(cells, spec, upto - 1);
    }
}

/// The sum of the heights that the first `upto` cells report when the
/// layout is measured under `spec`.
pub open spec fn assigned_extent<CE: LinearLayoutChainElement>(
    cells: CE,
    spec: MeasureSpec,
    upto: int,
) -> int
    decreases upto,
{
    if upto <= 0 {
        0
    } else {
        assigned_extent(cells, spec, upto - 1) + assigned_size(cells, spec, upto - 1).height
    }
}

/// Whether every cell keeps to the height constraint it is measured under
/// when the layout is measured under `spec`.
pub open spec fn cells_keep_to_heights<CE: LinearLayoutChainElement>(
    cells: CE,
    spec: MeasureSpec,
) -> bool {
    forall|j: int|
        0 <= j < cells.cell_count() ==> (#[trigger] assigned_spec(cells, spec, j)).height.admits(
            assigned_size(cells, spec, j).height,
        )
}

/// Whether every stray pixel finds a weighted cell: the cells whose index is
/// below the number of stray pixels exist and have a weight.
pub open spec fn stray_pixels_land<CE: LinearLayoutChainElement>(
    cells: CE,
    spec: MeasureSpec,
    max_height: u32,
) -> bool {
    let n = cells.cell_count() as int;
    let remaining = extent_diff(max_height, fixed_extent(cells, spec.width, max_height, n));
    forall|j: int|
        0 <= j < stray_pixels(remaining, total_weight(cells, n)) ==> j < n
            && #[trigger] cells.weight_at(j) != 0
}

/// The heights of the first `upto` cells of a layout with a weighted cell
/// add up to what the cells of weight 0 among them consume, the shares of
/// the weighted cells among them, and one stray pixel for each of them whose
/// index is below the number of stray pixels.
proof fn lemma_assigned_extent_upto<CE: LinearLayoutChainElement>(
    cells: CE,
    spec: MeasureSpec,
    max_height: u32,
    upto: int,
)
    requires
        spec.height.limit() == Some(max_height),
        0 <= upto <= cells.cell_count(),
        total_weight(cells, cells.cell_count() as int) > 0,
        cells_keep_to_heights(cells, spec),
        stray_pixels_land(cells, spec, max_height),
    ensures
        fixed_extent(cells, spec.width, max_height, upto) <= max_height,
        total_weight(cells, upto) >= 0,
        ({
            let n = cells.cell_count() as int;
            let remaining = extent_diff(max_height, fixed_extent(cells, spec.width, max_height, n));
            let total = total_weight(cells, n);
            let stray = stray_pixels(remaining, total);
            assigned_extent(cells, spec, upto) == fixed_extent(cells, spec.width, max_height, upto)
                + unit_extent(remaining, total) * total_weight(cells, upto) + (if upto < stray {
                upto
            } else {
                stray
            })
        }),
    decreases upto,
{
    let n = cells.cell_count() as int;
    let remaining = extent_diff(max_height, fixed_extent(cells, spec.width, max_height, n));
    let total = total_weight(cells, n);
    let stray = stray_pixels(remaining, total);
    let unit = unit_extent(remaining, total);
    assert(0 <= stray < total && unit >= 0) by (nonlinear_arith)
        requires
            stray == remaining as int % total,
            unit == remaining as int / total,
            total > 0,
    ;
    if upto > 0 {
        let k = upto - 1;
        lemma_assigned_extent_upto(cells, spec, max_height, k);
        let weight = cells.weight_at(k);
        let before = total_weight(cells, k);
        assert(assigned_spec(cells, spec, k).height.admits(assigned_size(cells, spec, k).height));
        if weight == 0 {
            if k < stray {
                assert(cells.weight_at(k) != 0);
            }
        } else {
            lemma_weight_within_total(cells, k, n);
            lemma_weighted_extent_bounded(remaining, total, weight, k);
            assert(unit * (before + weight) == unit * before + unit * weight)
                by (nonlinear_arith);
        }
    }
}

/// A layout with at least one weighted cell fills its height: measured under
/// a limit on the height, the heights of its cells add up to that limit,
/// which is also the height the layout reports.
///
/// This holds where every cell keeps to the height it is allowed or told
/// and every cell whose index is below the number of stray pixels has a
/// weight. A stray pixel whose
/// index falls on a cell of weight 0, or past the last cell, is handed to no
/// cell, and the heights then add up to less.
pub proof fn lemma_weighted_layout_fills_its_height<CE: LinearLayoutChainElement>(
    cells: CE,
    spec: MeasureSpec,
    max_height: u32,
)
    requires
        spec.height.limit() == Some(max_height),
        total_weight(cells, cells.cell_count() as int) > 0,
        cells_keep_to_heights(cells, spec),
        stray_pixels_land(cells, spec, max_height),
    ensures
        assigned_extent(cells, spec, cells.cell_count() as int) == max_height,
        layout_size(cells, spec).height == max_height,
{
    let n = cells.cell_count() as int;
    let fixed = fixed_extent(cells, spec.width, max_height, n);
    let remaining = extent_diff(max_height, fixed);
    let total = total_weight(cells, n);
    let stray = stray_pixels(remaining, total);
    let unit = unit_extent(remaining, total);
    lemma_assigned_extent_upto(cells, spec, max_height, n);
    lemma_total_weight_bounds(cells, n);
    assert(unit * total + stray == remaining && 0 <= stray) by (nonlinear_arith)
        requires
            stray == remaining as int % total,
            unit == remaining as int / total,
            total > 0,
    ;
    if n < stray {
        assert(cells.weight_at(n) != 0);
    }
}

} // verus!
