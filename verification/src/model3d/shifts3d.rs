//! The shift applier: one oblique planar deformation operator, given
//! as precomputed fixed-point line positions, lifts or lowers border
//! cells near its fault lines, capped by the shift force.

use vstd::prelude::*;

use crate::model3d::fill3d::lemma_stack_max0_ge;
use crate::model3d::fill3d::lemma_stack_max0_le;
use crate::model3d::fill3d::stack_max0;
use crate::types::generation_params::Params3D;
use crate::types::shifts::Shift3D;
use crate::types::shifts::ShiftTypes;
use crate::MILLI_LIMIT;

verus! {

/// The precomputed ground-plane geometry of one shift: where each of
/// the two fault lines crosses every block row or column, where the
/// lines meet, and the tangent of the fault plane's tilt. Lengths are
/// in millis; the crossing point is in whole units.
#[derive(Debug, Clone)]
pub struct ShiftGeometry {
    /// For every Y block: the X coordinate (millis) where the X fault
    /// line crosses that row.
    pub x_line_points: Vec<i64>,
    /// For every X block: the Y coordinate (millis) where the Y fault
    /// line crosses that column.
    pub y_line_points: Vec<i64>,
    /// X of the lines' intersection, in whole units.
    pub crossed_point_x: i64,
    /// Y of the lines' intersection, in whole units.
    pub crossed_point_y: i64,
    /// The tangent of the fault plane's tilt, in millis.
    pub tan_z_milli: i64,
}

impl ShiftGeometry {
    /// Well-formedness against the configured axes: one line position
    /// per block, and every magnitude inside the fixed-point bounds.
    pub open spec fn wf(&self, params: Params3D) -> bool {
        &&& self.x_line_points@.len() == params.y_ax.blocks_count
        &&& self.y_line_points@.len() == params.x_ax.blocks_count
        &&& forall|i: int|
            0 <= i < self.x_line_points@.len() ==> -MILLI_LIMIT <= #[trigger] self.x_line_points@[i]
                <= MILLI_LIMIT
        &&& forall|i: int|
            0 <= i < self.y_line_points@.len() ==> -MILLI_LIMIT <= #[trigger] self.y_line_points@[i]
                <= MILLI_LIMIT
        &&& -1_000_000_000 <= self.crossed_point_x <= 1_000_000_000
        &&& -1_000_000_000 <= self.crossed_point_y <= 1_000_000_000
        &&& 0 <= self.tan_z_milli <= MILLI_LIMIT
    }
}

/// Whether the shift acts on its target quadrant alone (inner) rather
/// than on the three others.
pub open spec fn spec_is_inner(t: ShiftTypes) -> bool {
    t == ShiftTypes::InnerLift || t == ShiftTypes::InnerDescent
}

/// Whether the shift raises borders (decreases depths).
pub open spec fn spec_is_lift(t: ShiftTypes) -> bool {
    t == ShiftTypes::InnerLift || t == ShiftTypes::OuterLift
}

/// The quadrant of a ground cell relative to the two fault lines.
pub open spec fn spec_state(x_m: int, y_m: int, xline: int, yline: int) -> int {
    (if y_m <= yline {
        1int
    } else {
        3int
    }) + (if x_m <= xline {
        0int
    } else {
        1int
    })
}

/// Whether the shift touches a cell in the given quadrant.
pub open spec fn spec_included(state: int, target: int, inner: bool) -> bool {
    if inner {
        state == target
    } else {
        state != target
    }
}

/// `r` is the integer square root of `n`, rounded down.
pub open spec fn is_isqrt(n: int, r: int) -> bool {
    0 <= r && r * r <= n < (r + 1) * (r + 1)
}

/// The integer square root, rounded down.
pub open spec fn spec_isqrt(n: int) -> int {
    choose|r: int| is_isqrt(n, r)
}

/// Two integer square roots of the same number are equal.
pub proof fn lemma_isqrt_unique(n: int, a: int, b: int)
    requires
        is_isqrt(n, a),
        is_isqrt(n, b),
    ensures
        a == b,
{
    if a < b {
        assert((a + 1) * (a + 1) <= b * b) by (nonlinear_arith)
            requires
                0 <= a,
                a + 1 <= b,
        ;
    }
    if b < a {
        assert((b + 1) * (b + 1) <= a * a) by (nonlinear_arith)
            requires
                0 <= b,
                b + 1 <= a,
        ;
    }
}

/// Computes the integer square root by bisection.
fn isqrt64(n: i128) -> (r: i64)
    requires
        0 <= n <= 9_000_000_000_000_000_000_000_000,
    ensures
        is_isqrt(n as int, r as int),
        r == spec_isqrt(n as int),
        0 <= r <= 3_100_000_000_000,
{
    let mut lo: i64 = 0;
    let mut hi: i64 = 3_100_000_000_000;
    proof {
        assert((3_100_000_000_001i128) * (3_100_000_000_001i128)
            > 9_000_000_000_000_000_000_000_000) by (nonlinear_arith);
    }
    while lo < hi
        invariant
            0 <= lo <= hi <= 3_100_000_000_000,
            (lo as int) * (lo as int) <= n,
            n < (hi + 1) * (hi + 1),
        decreases hi - lo,
    {
        let mid: i64 = lo + (hi - lo + 1) / 2;
        proof {
            assert((mid as int) * (mid as int) <= 3_100_000_000_000i128 * 3_100_000_000_000i128)
                by (nonlinear_arith)
                requires
                    0 <= mid <= 3_100_000_000_000,
            ;
        }
        if (mid as i128) * (mid as i128) <= n {
            lo = mid;
        } else {
            hi = mid - 1;
        }
    }
    proof {
        let ghost r = lo as int;
        assert(is_isqrt(n as int, r));
        lemma_isqrt_unique(n as int, r, spec_isqrt(n as int));
    }
    lo
}

/// The absolute difference of two milli coordinates.
pub open spec fn spec_abs(v: int) -> int {
    if v < 0 {
        -v
    } else {
        v
    }
}

/// The ground distance (in millis) from a cell to the fault edge that
/// acts on it: for an inner shift the nearest of the two lines; for an
/// outer shift the line that separates the cell's quadrant from the
/// target, or the distance to the lines' crossing for the opposite
/// quadrant.
pub open spec fn spec_minimal_len(
    x_m: int,
    y_m: int,
    xline: int,
    yline: int,
    cx: int,
    cy: int,
    state: int,
    target: int,
    inner: bool,
) -> int {
    let dx = spec_abs(x_m - xline);
    let dy = spec_abs(y_m - yline);
    if !inner {
        if state + target == 3 || state + target == 7 {
            dx
        } else if state + target == 4 || state + target == 6 {
            dy
        } else {
            let dxc = x_m - cx * 1000;
            let dyc = y_m - cy * 1000;
            spec_isqrt(dxc * dxc + dyc * dyc)
        }
    } else if dx < dy {
        dx
    } else {
        dy
    }
}

/// The raw slice depth of a cell: the tilt tangent times the ground
/// distance, rounded to whole depth units and saturated to `i32`.
pub open spec fn spec_slice_raw(tan_z_milli: int, len_m: int) -> int {
    let p = (tan_z_milli * len_m + 500_000) / 1_000_000;
    if p > i32::MAX {
        i32::MAX as int
    } else {
        p
    }
}

/// A cell's depth after the shift touches it: a lift pulls the cell up
/// toward the slice depth, a descent pushes it down toward it, each by
/// at most the force.
pub open spec fn spec_cell_after(c: i32, slice: int, lift: bool, force: int) -> int {
    if lift {
        if c >= slice {
            if c - slice <= force {
                slice
            } else {
                c - force
            }
        } else {
            c as int
        }
    } else {
        if c <= slice {
            if slice - c <= force {
                slice
            } else {
                c + force
            }
        } else {
            c as int
        }
    }
}

/// The quadrant of the block (x_num, y_num) under this shift.
pub open spec fn spec_cell_state(
    params: Params3D,
    geom: ShiftGeometry,
    x_num: int,
    y_num: int,
) -> int {
    spec_state(
        params.x_ax.centers@[x_num] as int,
        params.y_ax.centers@[y_num] as int,
        geom.x_line_points@[y_num] as int,
        geom.y_line_points@[x_num] as int,
    )
}

/// Whether this shift touches the block (x_num, y_num).
pub open spec fn spec_cell_included(
    params: Params3D,
    shift: Shift3D,
    geom: ShiftGeometry,
    x_num: int,
    y_num: int,
) -> bool {
    spec_included(
        spec_cell_state(params, geom, x_num, y_num),
        shift.main_region as int,
        spec_is_inner(shift.shift_type),
    )
}

/// The slice depth the shift drives the block (x_num, y_num) toward:
/// the raw tilt-scaled distance for a descent, its complement under
/// the depth extent `m0` for a lift.
pub open spec fn spec_cell_slice(
    params: Params3D,
    shift: Shift3D,
    geom: ShiftGeometry,
    x_num: int,
    y_num: int,
    m0: int,
) -> int {
    let x_m = params.x_ax.centers@[x_num] as int;
    let y_m = params.y_ax.centers@[y_num] as int;
    let xline = geom.x_line_points@[y_num] as int;
    let yline = geom.y_line_points@[x_num] as int;
    let raw = spec_slice_raw(
        geom.tan_z_milli as int,
        spec_minimal_len(
            x_m,
            y_m,
            xline,
            yline,
            geom.crossed_point_x as int,
            geom.crossed_point_y as int,
            spec_state(x_m, y_m, xline, yline),
            shift.main_region as int,
            spec_is_inner(shift.shift_type),
        ),
    );
    if spec_is_lift(shift.shift_type) {
        m0 - raw
    } else {
        raw
    }
}

/// The borders stack matches the configured ground grid.
pub open spec fn borders_match_axes(b: Seq<Vec<Vec<i32>>>, params: Params3D) -> bool {
    &&& forall|l: int| 0 <= l < b.len() ==> (#[trigger] b[l])@.len() == params.y_ax.blocks_count
    &&& forall|l: int, y: int|
        0 <= l < b.len() && 0 <= y < b[l]@.len() ==> (#[trigger] b[l]@[y])@.len()
            == params.x_ax.blocks_count
}

/// Applies one shift to every border cell it touches: included cells
/// move toward the cell's slice depth by at most the shift force
/// (lifts upward, descents downward), and the running depth extent
/// grows to cover every deepened cell.
pub fn add_shift(
    params: &Params3D,
    borders: &mut Vec<Vec<Vec<i32>>>,
    now_shift: &Shift3D,
    geometry: &ShiftGeometry,
    max_depth: &mut i32,
)
    requires
        params.wf(),
        now_shift.wf(),
        geometry.wf(*params),
        borders_match_axes(old(borders)@, *params),
        *old(max_depth) >= 0,
        forall|l: int, y: int, x: int|
            0 <= l < old(borders)@.len() && 0 <= y < old(borders)@[l]@.len() && 0 <= x < old(
                borders,
            )@[l]@[y]@.len() ==> #[trigger] old(borders)@[l]@[y]@[x] <= *old(max_depth),
    ensures
        final(borders)@.len() == old(borders)@.len(),
        borders_match_axes(final(borders)@, *params),
        forall|l: int, y: int, x: int|
            0 <= l < old(borders)@.len() && 0 <= y < old(borders)@[l]@.len() && 0 <= x < old(
                borders,
            )@[l]@[y]@.len() ==> #[trigger] final(borders)@[l]@[y]@[x] == (if spec_cell_included(
                *params,
                *now_shift,
                *geometry,
                x,
                y,
            ) {
                spec_cell_after(
                    old(borders)@[l]@[y]@[x],
                    spec_cell_slice(*params, *now_shift, *geometry, x, y, *old(max_depth) as int),
                    spec_is_lift(now_shift.shift_type),
                    now_shift.shift_force as int,
                )
            } else {
                old(borders)@[l]@[y]@[x] as int
            }),
        spec_is_lift(now_shift.shift_type) ==> forall|l: int, y: int, x: int|
            0 <= l < old(borders)@.len() && 0 <= y < old(borders)@[l]@.len() && 0 <= x < old(
                borders,
            )@[l]@[y]@.len() ==> #[trigger] final(borders)@[l]@[y]@[x] <= old(borders)@[l]@[y]@[x],
        !spec_is_lift(now_shift.shift_type) ==> forall|l: int, y: int, x: int|
            0 <= l < old(borders)@.len() && 0 <= y < old(borders)@[l]@.len() && 0 <= x < old(
                borders,
            )@[l]@[y]@.len() ==> #[trigger] final(borders)@[l]@[y]@[x] >= old(borders)@[l]@[y]@[x],
        forall|l: int, y: int, x: int|
            0 <= l < old(borders)@.len() && 0 <= y < old(borders)@[l]@.len() && 0 <= x < old(
                borders,
            )@[l]@[y]@.len() ==> ({
                let d = (#[trigger] final(borders)@[l]@[y]@[x]) - old(borders)@[l]@[y]@[x];
                -(now_shift.shift_force as int) <= d <= now_shift.shift_force as int
            }),
        *final(max_depth) >= *old(max_depth),
        spec_is_lift(now_shift.shift_type) ==> *final(max_depth) == *old(max_depth),
        *final(max_depth) as int == (if stack_max0(final(borders)@) > *old(max_depth) {
            stack_max0(final(borders)@)
        } else {
            *old(max_depth) as int
        }),
        forall|l: int, y: int, x: int|
            0 <= l < old(borders)@.len() && 0 <= y < old(borders)@[l]@.len() && 0 <= x < old(
                borders,
            )@[l]@[y]@.len() ==> #[trigger] final(borders)@[l]@[y]@[x] <= *final(max_depth),
{
    let ghost orig = borders@;
    let ghost m0 = *max_depth as int;

    let target_state = now_shift.main_region;
    let shift_force = now_shift.shift_force;
    let base_depth: i32 = *max_depth;

    let is_inner: bool = match now_shift.shift_type {
        ShiftTypes::InnerLift | ShiftTypes::InnerDescent => true,
        ShiftTypes::OuterLift | ShiftTypes::OuterDescent => false,
    };
    let is_lift: bool = match now_shift.shift_type {
        ShiftTypes::InnerLift | ShiftTypes::OuterLift => true,
        ShiftTypes::InnerDescent | ShiftTypes::OuterDescent => false,
    };

    let y_size = params.y_axis().blocks_count();
    let x_size = params.x_axis().blocks_count();

    let mut y_num: usize = 0;
    while y_num < y_size
        invariant
            0 <= y_num <= y_size,
            params.wf(),
            now_shift.wf(),
            geometry.wf(*params),
            y_size == params.y_ax.blocks_count,
            x_size == params.x_ax.blocks_count,
            is_inner == spec_is_inner(now_shift.shift_type),
            is_lift == spec_is_lift(now_shift.shift_type),
            target_state == now_shift.main_region,
            shift_force == now_shift.shift_force,
            base_depth == m0,
            m0 >= 0,
            borders@.len() == orig.len(),
            borders_match_axes(orig, *params),
            borders_match_axes(borders@, *params),
            forall|l: int| 0 <= l < orig.len() ==> (#[trigger] borders@[l])@.len() == orig[l]@.len(),
            forall|l: int, y: int|
                0 <= l < orig.len() && 0 <= y < orig[l]@.len() ==> (
                #[trigger] borders@[l]@[y])@.len() == orig[l]@[y]@.len(),
            forall|l: int, y: int, x: int|
                0 <= l < orig.len() && y_num <= y < orig[l]@.len() && 0 <= x < orig[l]@[y]@.len()
                    ==> #[trigger] borders@[l]@[y]@[x] == orig[l]@[y]@[x],
            forall|l: int, y: int, x: int|
                0 <= l < orig.len() && 0 <= y < y_num && 0 <= x < orig[l]@[y]@.len()
                    ==> #[trigger] borders@[l]@[y]@[x] == (if spec_cell_included(
                    *params,
                    *now_shift,
                    *geometry,
                    x,
                    y,
                ) {
                    spec_cell_after(
                        orig[l]@[y]@[x],
                        spec_cell_slice(*params, *now_shift, *geometry, x, y, m0),
                        is_lift,
                        shift_force as int,
                    )
                } else {
                    orig[l]@[y]@[x] as int
                }),
            *max_depth >= m0,
            is_lift ==> *max_depth == m0,
            forall|l: int, y: int, x: int|
                0 <= l < orig.len() && 0 <= y < orig[l]@.len() && 0 <= x < orig[l]@[y]@.len()
                    ==> #[trigger] orig[l]@[y]@[x] <= m0,
            forall|l: int, y: int, x: int|
                0 <= l < orig.len() && 0 <= y < orig[l]@.len() && 0 <= x < orig[l]@[y]@.len()
                    ==> #[trigger] borders@[l]@[y]@[x] <= *max_depth,
            *max_depth == m0 || exists|lw: int, yw: int, xw: int|
                0 <= lw < orig.len() && 0 <= yw < orig[lw]@.len() && 0 <= xw
                    < orig[lw]@[yw]@.len() && #[trigger] borders@[lw]@[yw]@[xw] == *max_depth,
        decreases y_size - y_num,
    {
        let y_m: i64 = params.y_axis().centers()[y_num];
        let x_line_x_point: i64 = geometry.x_line_points[y_num];

        let mut x_num: usize = 0;
        while x_num < x_size
            invariant
                0 <= x_num <= x_size,
                0 <= y_num < y_size,
                params.wf(),
                now_shift.wf(),
                geometry.wf(*params),
                y_size == params.y_ax.blocks_count,
                x_size == params.x_ax.blocks_count,
                is_inner == spec_is_inner(now_shift.shift_type),
                is_lift == spec_is_lift(now_shift.shift_type),
                target_state == now_shift.main_region,
                shift_force == now_shift.shift_force,
                base_depth == m0,
                m0 >= 0,
                y_m == params.y_ax.centers@[y_num as int],
                x_line_x_point == geometry.x_line_points@[y_num as int],
                borders@.len() == orig.len(),
                borders_match_axes(orig, *params),
                borders_match_axes(borders@, *params),
                forall|l: int|
                    0 <= l < orig.len() ==> (#[trigger] borders@[l])@.len() == orig[l]@.len(),
                forall|l: int, y: int|
                    0 <= l < orig.len() && 0 <= y < orig[l]@.len() ==> (
                    #[trigger] borders@[l]@[y])@.len() == orig[l]@[y]@.len(),
                forall|l: int, y: int, x: int|
                    0 <= l < orig.len() && y_num < y < orig[l]@.len() && 0 <= x
                        < orig[l]@[y]@.len() ==> #[trigger] borders@[l]@[y]@[x] == orig[l]@[y]@[x],
                forall|l: int, x: int|
                    0 <= l < orig.len() && x_num <= x < orig[l]@[y_num as int]@.len()
                        ==> #[trigger] borders@[l]@[y_num as int]@[x] == orig[l]@[y_num as int]@[x],
                forall|l: int, y: int, x: int|
                    0 <= l < orig.len() && 0 <= y < y_num && 0 <= x < orig[l]@[y]@.len()
                        ==> #[trigger] borders@[l]@[y]@[x] == (if spec_cell_included(
                        *params,
                        *now_shift,
                        *geometry,
                        x,
                        y,
                    ) {
                        spec_cell_after(
                            orig[l]@[y]@[x],
                            spec_cell_slice(*params, *now_shift, *geometry, x, y, m0),
                            is_lift,
                            shift_force as int,
                        )
                    } else {
                        orig[l]@[y]@[x] as int
                    }),
                forall|l: int, x: int|
                    0 <= l < orig.len() && 0 <= x < x_num && x < orig[l]@[y_num as int]@.len()
                        ==> #[trigger] borders@[l]@[y_num as int]@[x] == (if spec_cell_included(
                        *params,
                        *now_shift,
                        *geometry,
                        x,
                        y_num as int,
                    ) {
                        spec_cell_after(
                            orig[l]@[y_num as int]@[x],
                            spec_cell_slice(*params, *now_shift, *geometry, x, y_num as int, m0),
                            is_lift,
                            shift_force as int,
                        )
                    } else {
                        orig[l]@[y_num as int]@[x] as int
                    }),
                *max_depth >= m0,
                is_lift ==> *max_depth == m0,
                forall|l: int, y: int, x: int|
                    0 <= l < orig.len() && 0 <= y < orig[l]@.len() && 0 <= x < orig[l]@[y]@.len()
                        ==> #[trigger] orig[l]@[y]@[x] <= m0,
                forall|l: int, y: int, x: int|
                    0 <= l < orig.len() && 0 <= y < orig[l]@.len() && 0 <= x < orig[l]@[y]@.len()
                        ==> #[trigger] borders@[l]@[y]@[x] <= *max_depth,
                *max_depth == m0 || exists|lw: int, yw: int, xw: int|
                0 <= lw < orig.len() && 0 <= yw < orig[lw]@.len() && 0 <= xw
                    < orig[lw]@[yw]@.len() && #[trigger] borders@[lw]@[yw]@[xw] == *max_depth,
            decreases x_size - x_num,
        {
            let x_m: i64 = params.x_axis().centers()[x_num];
            let y_line_y_point: i64 = geometry.y_line_points[x_num];

            let mut state: i32 = 0;
            state += if y_m <= y_line_y_point {
                1
            } else {
                3
            };
            state += if x_m <= x_line_x_point {
                0
            } else {
                1
            };

            let included = !((is_inner && state != target_state) || (!is_inner && state
                == target_state));
            proof {
                assert(state == spec_cell_state(*params, *geometry, x_num as int, y_num as int));
                assert(included == spec_cell_included(
                    *params,
                    *now_shift,
                    *geometry,
                    x_num as int,
                    y_num as int,
                ));
            }

            if included {
                let x_minimal_len: i64 = if x_m - x_line_x_point < 0 {
                    -(x_m - x_line_x_point)
                } else {
                    x_m - x_line_x_point
                };
                let y_minimal_len: i64 = if y_m - y_line_y_point < 0 {
                    -(y_m - y_line_y_point)
                } else {
                    y_m - y_line_y_point
                };

                let minimal_len: i64 = if !is_inner {
                    let sum_state = state + target_state;
                    if sum_state == 3 || sum_state == 7 {
                        x_minimal_len
                    } else if sum_state == 4 || sum_state == 6 {
                        y_minimal_len
                    } else {
                        let dxc: i128 = (x_m - geometry.crossed_point_x * 1000) as i128;
                        let dyc: i128 = (y_m - geometry.crossed_point_y * 1000) as i128;
                        proof {
                            assert(0 <= (dxc as int) * (dxc as int)
                                <= 4_000_000_000_000_000_000_000_000 && 0 <= (dyc as int) * (
                            dyc as int) <= 4_000_000_000_000_000_000_000_000) by (nonlinear_arith)
                                requires
                                    -2_000_000_000_000 <= dxc <= 2_000_000_000_000,
                                    -2_000_000_000_000 <= dyc <= 2_000_000_000_000,
                            ;
                        }
                        isqrt64(dxc * dxc + dyc * dyc)
                    }
                } else if x_minimal_len < y_minimal_len {
                    x_minimal_len
                } else {
                    y_minimal_len
                };
                proof {
                    assert(minimal_len == spec_minimal_len(
                        x_m as int,
                        y_m as int,
                        x_line_x_point as int,
                        y_line_y_point as int,
                        geometry.crossed_point_x as int,
                        geometry.crossed_point_y as int,
                        state as int,
                        target_state as int,
                        is_inner,
                    ));
                }

                let tanz: i128 = geometry.tan_z_milli as i128;
                let len128: i128 = minimal_len as i128;
                proof {
                    assert((tanz as int) * (len128 as int) <= 3_200_000_000_000_000_000_000_000
                        && (tanz as int) * (len128 as int) >= 0) by (nonlinear_arith)
                        requires
                            0 <= tanz <= 1_000_000_000_000,
                            0 <= len128 <= 3_200_000_000_000,
                    ;
                }
                let p: i128 = tanz * len128;
                let q: i128 = (p + 500_000) / 1_000_000;
                let slice_raw: i32 = if q > i32::MAX as i128 {
                    i32::MAX
                } else {
                    q as i32
                };
                proof {
                    assert(slice_raw == spec_slice_raw(
                        geometry.tan_z_milli as int,
                        minimal_len as int,
                    ));
                }

                let slice_eff: i64 = if is_lift {
                    base_depth as i64 - slice_raw as i64
                } else {
                    slice_raw as i64
                };
                proof {
                    assert(slice_eff == spec_cell_slice(
                        *params,
                        *now_shift,
                        *geometry,
                        x_num as int,
                        y_num as int,
                        m0,
                    ));
                }

                let layers_total = borders.len();
                let mut l: usize = 0;
                while l < layers_total
                    invariant
                        0 <= l <= layers_total,
                        layers_total == orig.len(),
                        0 <= y_num < y_size,
                        0 <= x_num < x_size,
                        y_size == params.y_ax.blocks_count,
                        x_size == params.x_ax.blocks_count,
                        shift_force >= 0,
                        m0 >= 0,
                        slice_eff == spec_cell_slice(
                            *params,
                            *now_shift,
                            *geometry,
                            x_num as int,
                            y_num as int,
                            m0,
                        ),
                        spec_cell_included(
                            *params,
                            *now_shift,
                            *geometry,
                            x_num as int,
                            y_num as int,
                        ),
                        is_lift ==> -0x7fff_ffff <= slice_eff <= m0,
                        !is_lift ==> 0 <= slice_eff <= 0x7fff_ffff,
                        m0 <= 0x7fff_ffff,
                        borders@.len() == orig.len(),
                        borders_match_axes(orig, *params),
                        borders_match_axes(borders@, *params),
                        forall|ll: int|
                            0 <= ll < orig.len() ==> (#[trigger] borders@[ll])@.len()
                                == orig[ll]@.len(),
                        forall|ll: int, y: int|
                            0 <= ll < orig.len() && 0 <= y < orig[ll]@.len() ==> (
                            #[trigger] borders@[ll]@[y])@.len() == orig[ll]@[y]@.len(),
                        forall|ll: int, y: int, x: int|
                            0 <= ll < orig.len() && y_num < y < orig[ll]@.len() && 0 <= x
                                < orig[ll]@[y]@.len() ==> #[trigger] borders@[ll]@[y]@[x]
                                == orig[ll]@[y]@[x],
                        forall|ll: int, x: int|
                            0 <= ll < orig.len() && x_num < x < orig[ll]@[y_num as int]@.len()
                                ==> #[trigger] borders@[ll]@[y_num as int]@[x]
                                == orig[ll]@[y_num as int]@[x],
                        forall|ll: int|
                            l <= ll < orig.len() ==> #[trigger] borders@[ll]@[y_num as int]@[x_num as int]
                                == orig[ll]@[y_num as int]@[x_num as int],
                        forall|ll: int, y: int, x: int|
                            0 <= ll < orig.len() && 0 <= y < y_num && 0 <= x < orig[ll]@[y]@.len()
                                ==> #[trigger] borders@[ll]@[y]@[x] == (if spec_cell_included(
                                *params,
                                *now_shift,
                                *geometry,
                                x,
                                y,
                            ) {
                                spec_cell_after(
                                    orig[ll]@[y]@[x],
                                    spec_cell_slice(*params, *now_shift, *geometry, x, y, m0),
                                    is_lift,
                                    shift_force as int,
                                )
                            } else {
                                orig[ll]@[y]@[x] as int
                            }),
                        forall|ll: int, x: int|
                            0 <= ll < orig.len() && 0 <= x < x_num && x
                                < orig[ll]@[y_num as int]@.len()
                                ==> #[trigger] borders@[ll]@[y_num as int]@[x] == (
                            if spec_cell_included(
                                *params,
                                *now_shift,
                                *geometry,
                                x,
                                y_num as int,
                            ) {
                                spec_cell_after(
                                    orig[ll]@[y_num as int]@[x],
                                    spec_cell_slice(
                                        *params,
                                        *now_shift,
                                        *geometry,
                                        x,
                                        y_num as int,
                                        m0,
                                    ),
                                    is_lift,
                                    shift_force as int,
                                )
                            } else {
                                orig[ll]@[y_num as int]@[x] as int
                            }),
                        forall|ll: int|
                            0 <= ll < l ==> #[trigger] borders@[ll]@[y_num as int]@[x_num as int]
                                == spec_cell_after(
                                orig[ll]@[y_num as int]@[x_num as int],
                                slice_eff as int,
                                is_lift,
                                shift_force as int,
                            ),
                        *max_depth >= m0,
                        is_lift ==> *max_depth == m0,
                        forall|ll: int, y: int, x: int|
                            0 <= ll < orig.len() && 0 <= y < orig[ll]@.len() && 0 <= x
                                < orig[ll]@[y]@.len() ==> #[trigger] orig[ll]@[y]@[x] <= m0,
                        forall|ll: int, y: int, x: int|
                            0 <= ll < orig.len() && 0 <= y < orig[ll]@.len() && 0 <= x
                                < orig[ll]@[y]@.len() ==> #[trigger] borders@[ll]@[y]@[x]
                                <= *max_depth,
                    *max_depth == m0 || exists|lw: int, yw: int, xw: int|
                0 <= lw < orig.len() && 0 <= yw < orig[lw]@.len() && 0 <= xw
                    < orig[lw]@[yw]@.len() && #[trigger] borders@[lw]@[yw]@[xw] == *max_depth,
                    decreases layers_total - l,
                {
                    let now_border: i64 = borders[l][y_num][x_num] as i64;

                    if is_lift {
                        if now_border >= slice_eff {
                            let mut now_shift_force: i64 = now_border - slice_eff;
                            if now_shift_force > shift_force as i64 {
                                now_shift_force = shift_force as i64;
                            }
                            let new_val: i32 = (now_border - now_shift_force) as i32;
                            borders[l][y_num].set(x_num, new_val);
                        }
                    } else {
                        if now_border <= slice_eff {
                            let ghost pre_b = borders@;
                            let ghost premax = *max_depth as int;
                            let mut now_shift_force: i64 = slice_eff - now_border;
                            if now_shift_force > shift_force as i64 {
                                now_shift_force = shift_force as i64;
                            }
                            let new_val: i32 = (now_border + now_shift_force) as i32;
                            borders[l][y_num].set(x_num, new_val);
                            if new_val > *max_depth {
                                *max_depth = new_val;
                            }
                            proof {
                                // The witness for the running depth
                                // extent survives the update: either
                                // the extent moved to this very cell,
                                // or the deepened cell was the witness
                                // and stayed at the extent, or another
                                // cell still carries it.
                                if *max_depth != premax {
                                    assert(borders@[l as int]@[y_num as int]@[x_num as int]
                                        == *max_depth);
                                } else if premax != m0 {
                                    let (lw, yw, xw) = choose|lw: int, yw: int, xw: int|
                                        0 <= lw < orig.len() && 0 <= yw < orig[lw]@.len() && 0 <= xw
                                            < orig[lw]@[yw]@.len() && #[trigger] pre_b[lw]@[yw]@[xw]
                                            == premax;
                                    if lw == l as int && yw == y_num as int && xw == x_num as int {
                                        assert(borders@[lw]@[yw]@[xw] == new_val);
                                        assert(new_val >= pre_b[lw]@[yw]@[xw]);
                                        assert(borders@[lw]@[yw]@[xw] == *max_depth);
                                    } else {
                                        assert(borders@[lw]@[yw]@[xw] == pre_b[lw]@[yw]@[xw]);
                                    }
                                }
                            }
                        }
                    }
                    l += 1;
                }
            }
            x_num += 1;
        }
        y_num += 1;
    }

    proof {
        lemma_stack_max0_le(borders@, *max_depth as int);
        if *max_depth != m0 {
            let (lw, yw, xw) = choose|lw: int, yw: int, xw: int|
                0 <= lw < orig.len() && 0 <= yw < orig[lw]@.len() && 0 <= xw
                    < orig[lw]@[yw]@.len() && #[trigger] borders@[lw]@[yw]@[xw] == *max_depth;
            lemma_stack_max0_ge(borders@, lw, yw, xw);
        }
    }
}

} // verus!
