//! Random generation of the interface heightfields: every cell of a
//! layer's border lies within the layer's depth range, and, when a
//! maximum step is set, differs from each of its 4-neighbors by at
//! most that step.

use vstd::prelude::*;

use crate::random_source::random_in_range;
use crate::types::generation_params::Params3D;
use crate::types::layers_borders_gen::BorderError;

verus! {

/// The deviation a layer's range widens by: a whole number of depth
/// units when the configured deviation is at least one unit, else that
/// fraction of the reference layer size.
pub open spec fn spec_deviation_delta(dev: i64, ref_size: int) -> int {
    if dev >= 1_000 {
        dev as int / 1_000
    } else {
        dev * ref_size / 1_000
    }
}

/// The depth range of layer `l`: an explicit override range when one
/// is configured (taken cyclically), else the nominal interface depth
/// widened by the deviation; the lower bound never goes below zero.
/// Returns (lower, upper).
pub open spec fn spec_layer_limits(params: Params3D, l: int) -> (int, int) {
    match params.layers_border.deviation_override {
        Some(v) => {
            let p = v@[l % v@.len() as int];
            (if p[0] < 0 {
                0int
            } else {
                p[0] as int
            }, p[1] as int)
        },
        None => {
            let base = params.layers_dist.layers_dist_summed@[l] as int;
            let dist = params.layers_dist.layers_dist@;
            let delta = spec_deviation_delta(
                params.layers_border.border_deviation,
                dist[dist.len() - 1] as int,
            );
            (if base - delta < 0 {
                0int
            } else {
                base - delta
            }, base + delta)
        },
    }
}

/// The border stage accepts a configuration when every layer's range
/// is non-empty and fits `i32`, and a configured maximum step is
/// non-negative.
pub open spec fn borders_config_ok(params: Params3D) -> bool {
    &&& (params.layers_border.border_max_step matches Some(s) ==> s >= 0)
    &&& forall|l: int|
        0 <= l < params.layers_dist.layers_dist@.len() ==> {
            let lim = #[trigger] spec_layer_limits(params, l);
            lim.0 <= lim.1 <= i32::MAX
        }
}

/// Every cell of the row lies within `[lo, hi]`.
pub open spec fn row_in_range(r: Seq<i32>, lo: int, hi: int) -> bool {
    forall|x: int| 0 <= x < r.len() ==> lo <= #[trigger] r[x] <= hi
}

/// Horizontally adjacent cells of the row differ by at most `s`.
pub open spec fn row_smooth(r: Seq<i32>, s: int) -> bool {
    forall|x: int| 1 <= x < r.len() ==> -s <= r[x - 1] - #[trigger] r[x] <= s
}

/// Each cell of the row differs from the cell above it by at most `s`.
pub open spec fn rows_close(p: Seq<i32>, r: Seq<i32>, s: int) -> bool {
    forall|x: int| 0 <= x < r.len() ==> -s <= p[x] - #[trigger] r[x] <= s
}

/// Every row of the grid has exactly `xs` cells.
pub open spec fn grid_rect(g: Seq<Vec<i32>>, xs: int) -> bool {
    forall|y: int| 0 <= y < g.len() ==> (#[trigger] g[y])@.len() == xs
}

/// The number of cells per row: that of the first row.
pub open spec fn grid_xs(g: Seq<Vec<i32>>) -> int {
    if g.len() == 0 {
        0
    } else {
        g[0]@.len() as int
    }
}

/// Every cell of the grid lies within `[lo, hi]`.
pub open spec fn grid_in_range(g: Seq<Vec<i32>>, lo: int, hi: int) -> bool {
    forall|y: int| 0 <= y < g.len() ==> row_in_range((#[trigger] g[y])@, lo, hi)
}

/// Every pair of 4-neighboring cells of the grid differs by at most
/// `s`.
pub open spec fn grid_smooth(g: Seq<Vec<i32>>, s: int) -> bool {
    &&& forall|y: int| 0 <= y < g.len() ==> row_smooth((#[trigger] g[y])@, s)
    &&& forall|y: int| 1 <= y < g.len() ==> rows_close(g[y - 1]@, (#[trigger] g[y])@, s)
}

/// The feasibility interval of a cell given its present neighbors:
/// first the largest and smallest neighbor are folded up, then the
/// step `ms` widens them and the layer limits clamp them. Returns
/// (highest allowed, lowest allowed).
pub open spec fn spec_limits(
    upper_el: Option<i32>,
    right_el: Option<i32>,
    left_el: Option<i32>,
    up_limit: int,
    lo_limit: int,
    ms: int,
) -> (int, int) {
    let t1 = match upper_el {
        Some(u) => (u as int, u as int),
        None => (0int, i32::MAX as int),
    };
    let t2 = match right_el {
        Some(r) => (
            if t1.0 < r {
                r as int
            } else {
                t1.0
            },
            if t1.1 > r {
                r as int
            } else {
                t1.1
            },
        ),
        None => t1,
    };
    let t3 = match left_el {
        Some(l) => (
            if t2.0 < l {
                l as int
            } else {
                t2.0
            },
            if t2.1 > l {
                l as int
            } else {
                t2.1
            },
        ),
        None => t2,
    };
    let lowest = if t3.0 - ms < lo_limit {
        lo_limit
    } else {
        t3.0 - ms
    };
    let highest = if t3.1 + ms > up_limit {
        up_limit
    } else {
        t3.1 + ms
    };
    (highest, lowest)
}

/// The range of possible values for a cell: the values within `ms` of
/// every present neighbor, clamped to the layer limits. Returns the
/// pair (highest allowed, lowest allowed).
fn get_limits(
    upper_el: Option<i32>,
    right_el: Option<i32>,
    left_el: Option<i32>,
    up_limit: i32,
    lo_limit: i32,
    ms: i32,
) -> (r: (i32, i32))
    requires
        ms >= 0,
    ensures
        r.0 == spec_limits(upper_el, right_el, left_el, up_limit as int, lo_limit as int, ms as int).0,
        r.1 == spec_limits(upper_el, right_el, left_el, up_limit as int, lo_limit as int, ms as int).1,
{
    let mut t_max: i64 = 0;
    let mut t_min: i64 = i32::MAX as i64;
    if let Some(u) = upper_el {
        t_max = u as i64;
        t_min = u as i64;
    }
    if let Some(r) = right_el {
        if t_max < r as i64 {
            t_max = r as i64;
        }
        if t_min > r as i64 {
            t_min = r as i64;
        }
    }
    if let Some(l) = left_el {
        if t_max < l as i64 {
            t_max = l as i64;
        }
        if t_min > l as i64 {
            t_min = l as i64;
        }
    }

    let mut lowest: i64 = t_max - ms as i64;
    let mut highest: i64 = t_min + ms as i64;

    if lowest < lo_limit as i64 {
        lowest = lo_limit as i64;
    }
    if highest > up_limit as i64 {
        highest = up_limit as i64;
    }
    (highest as i32, lowest as i32)
}

/// Redraws cells leftward from the end of a partially built row until
/// the horizontal step constraint holds throughout, keeping every cell
/// within the limits and within `max_step` of the row above.
fn redraw_backward(
    row: &mut Vec<i32>,
    prev: &Vec<i32>,
    lower_limit: i32,
    upper_limit: i32,
    max_step: i32,
)
    requires
        lower_limit <= upper_limit,
        max_step >= 0,
        old(row)@.len() >= 1,
        prev@.len() >= old(row)@.len(),
        row_in_range(prev@, lower_limit as int, upper_limit as int),
        row_smooth(prev@, max_step as int),
        row_in_range(old(row)@, lower_limit as int, upper_limit as int),
        rows_close(prev@, old(row)@, max_step as int),
        forall|x: int|
            1 <= x < old(row)@.len() - 1 ==> -max_step <= old(row)@[x - 1] - #[trigger] old(
                row,
            )@[x] <= max_step,
    ensures
        final(row)@.len() == old(row)@.len(),
        row_in_range(final(row)@, lower_limit as int, upper_limit as int),
        rows_close(prev@, final(row)@, max_step as int),
        row_smooth(final(row)@, max_step as int),
{
    let len = row.len();
    let mut k = len - 1;

    while k > 0
        invariant
            0 <= k <= len - 1,
            len == row@.len(),
            len >= 1,
            lower_limit <= upper_limit,
            max_step >= 0,
            prev@.len() >= len,
            row_in_range(prev@, lower_limit as int, upper_limit as int),
            row_smooth(prev@, max_step as int),
            row_in_range(row@, lower_limit as int, upper_limit as int),
            rows_close(prev@, row@, max_step as int),
            forall|x: int|
                1 <= x < len && x != k ==> -max_step <= row@[x - 1] - #[trigger] row@[x]
                    <= max_step,
        ensures
            row@.len() == len,
            row_in_range(row@, lower_limit as int, upper_limit as int),
            rows_close(prev@, row@, max_step as int),
            row_smooth(row@, max_step as int),
        decreases k,
    {
        let gap = row[k - 1] as i64 - row[k] as i64;
        if -(max_step as i64) <= gap && gap <= max_step as i64 {
            break ;
        }
        let (highest, lowest) = get_limits(
            Some(prev[k - 1]),
            Some(row[k]),
            None,
            upper_limit,
            lower_limit,
            max_step,
        );
        let v = random_in_range(lowest, highest);
        row.set(k - 1, v);
        k -= 1;
    }
}

/// Randomly draws one row of a border: every cell within the limits,
/// horizontally smooth, and, when a previous row is given, within
/// `max_step` of the cell above.
fn gen_row(prev: Option<&Vec<i32>>, xs: usize, lower_limit: i32, upper_limit: i32, max_step: i32)
    -> (r: Vec<i32>)
    requires
        0 <= lower_limit <= upper_limit,
        max_step >= 0,
        prev matches Some(p) ==> {
            &&& p@.len() == xs
            &&& row_in_range(p@, lower_limit as int, upper_limit as int)
            &&& row_smooth(p@, max_step as int)
        },
    ensures
        r@.len() == xs,
        row_in_range(r@, lower_limit as int, upper_limit as int),
        row_smooth(r@, max_step as int),
        prev matches Some(p) ==> rows_close(p@, r@, max_step as int),
{
    let mut row: Vec<i32> = Vec::new();
    let mut x: usize = 0;

    while x < xs
        invariant
            0 <= x <= xs,
            row@.len() == x,
            0 <= lower_limit <= upper_limit,
            max_step >= 0,
            prev matches Some(p) ==> {
                &&& p@.len() == xs
                &&& row_in_range(p@, lower_limit as int, upper_limit as int)
                &&& row_smooth(p@, max_step as int)
            },
            row_in_range(row@, lower_limit as int, upper_limit as int),
            row_smooth(row@, max_step as int),
            prev matches Some(p) ==> rows_close(p@, row@, max_step as int),
        decreases xs - x,
    {
        let up_el: Option<i32> = match prev {
            Some(p) => Some(p[x]),
            None => None,
        };
        let left_el: Option<i32> = if x > 0 {
            Some(row[x - 1])
        } else {
            None
        };

        if up_el.is_none() && left_el.is_none() {
            row.push(random_in_range(lower_limit, upper_limit));
        } else {
            let (highest, lowest) = get_limits(
                up_el,
                None,
                left_el,
                upper_limit,
                lower_limit,
                max_step,
            );
            if lowest <= highest {
                row.push(random_in_range(lowest, highest));
            } else {
                // The upper and left neighbors disagree by more than
                // twice the step: redraw leaning on the upper neighbor
                // alone, then repair leftward.
                match prev {
                    Some(p) => {
                        let (rhighest, rlowest) = get_limits(
                            Some(p[x]),
                            None,
                            None,
                            upper_limit,
                            lower_limit,
                            max_step,
                        );
                        row.push(random_in_range(rlowest, rhighest));
                        redraw_backward(&mut row, p, lower_limit, upper_limit, max_step);
                    },
                    None => {
                        proof {
                            assert(false);
                        }
                    },
                }
            }
        }
        x += 1;
    }
    row
}

/// Fills one layer's border with random depths. Every cell ends within
/// `[lower_limit, upper_limit]`; when `max_step` is set, 4-neighboring
/// cells differ by at most that step. The given grid supplies the
/// shape and is overwritten.
pub fn random_layer_creation(
    max_step: Option<i32>,
    upper_limit: i32,
    lower_limit: i32,
    layer: &mut Vec<Vec<i32>>,
) -> (r: Result<(), BorderError>)
    requires
        0 <= lower_limit <= upper_limit,
        max_step matches Some(s) ==> s >= 0,
        grid_rect(old(layer)@, grid_xs(old(layer)@)),
    ensures
        r is Ok,
        final(layer)@.len() == old(layer)@.len(),
        grid_rect(final(layer)@, grid_xs(old(layer)@)),
        grid_in_range(final(layer)@, lower_limit as int, upper_limit as int),
        max_step matches Some(s) ==> grid_smooth(final(layer)@, s as int),
{
    let ys = layer.len();
    let ghost xs_spec = grid_xs(old(layer)@);
    if ys == 0 {
        return Ok(());
    }
    let xs = layer[0].len();

    let step_known: bool = max_step.is_some() && upper_limit != lower_limit;
    let ms: i32 = match max_step {
        Some(s) => s,
        None => 0,
    };

    if !step_known {
        // Unconstrained fast path: cells are drawn independently. When
        // the range is a single value the step constraint holds of
        // itself.
        let mut y: usize = 0;
        while y < ys
            invariant
                0 <= y <= ys,
                ys == layer@.len(),
                lower_limit <= upper_limit,
                grid_rect(layer@, xs_spec as int),
                forall|yy: int|
                    0 <= yy < y ==> row_in_range(
                        (#[trigger] layer@[yy])@,
                        lower_limit as int,
                        upper_limit as int,
                    ),
                forall|yy: int|
                    0 <= yy < y ==> (upper_limit == lower_limit ==> row_smooth(
                        (#[trigger] layer@[yy])@,
                        0,
                    )),
            decreases ys - y,
        {
            let row_len = layer[y].len();
            let mut row: Vec<i32> = Vec::new();
            let mut x: usize = 0;
            while x < row_len
                invariant
                    0 <= x <= row_len,
                    row@.len() == x,
                    lower_limit <= upper_limit,
                    row_in_range(row@, lower_limit as int, upper_limit as int),
                decreases row_len - x,
            {
                row.push(random_in_range(lower_limit, upper_limit));
                x += 1;
            }
            layer.set(y, row);
            y += 1;
        }
        proof {
            match max_step {
                Some(s) => {
                    // Only a degenerate range took this path with a
                    // step set; every cell then equals every other.
                    assert forall|y: int| 0 <= y < layer@.len() implies row_smooth(
                        (#[trigger] layer@[y])@,
                        s as int,
                    ) by {}
                    assert forall|y: int| 1 <= y < layer@.len() implies rows_close(
                        layer@[y - 1]@,
                        (#[trigger] layer@[y])@,
                        s as int,
                    ) by {}
                },
                None => {},
            }
        }
        return Ok(());
    }

    let mut y: usize = 0;
    while y < ys
        invariant
            0 <= y <= ys,
            ys == layer@.len(),
            ys >= 1,
            xs == xs_spec,
            0 <= lower_limit <= upper_limit,
            ms >= 0,
            grid_rect(layer@, xs_spec as int),
            forall|yy: int|
                0 <= yy < y ==> row_in_range(
                    (#[trigger] layer@[yy])@,
                    lower_limit as int,
                    upper_limit as int,
                ),
            forall|yy: int| 0 <= yy < y ==> row_smooth((#[trigger] layer@[yy])@, ms as int),
            forall|yy: int|
                1 <= yy < y ==> rows_close(layer@[yy - 1]@, (#[trigger] layer@[yy])@, ms as int),
        decreases ys - y,
    {
        let row = if y == 0 {
            gen_row(None, xs, lower_limit, upper_limit, ms)
        } else {
            gen_row(Some(&layer[y - 1]), xs, lower_limit, upper_limit, ms)
        };
        layer.set(y, row);
        y += 1;
    }

    Ok(())
}

/// Computes the depth range of layer `l` from the configuration.
fn layer_limits(params: &Params3D, l: usize) -> (r: (i32, i32))
    requires
        params.wf(),
        borders_config_ok(*params),
        l < params.layers_dist.layers_dist@.len(),
    ensures
        r.0 == spec_layer_limits(*params, l as int).0,
        r.1 == spec_layer_limits(*params, l as int).1,
        0 <= r.0 <= r.1,
{
    match &params.layers_border.deviation_override {
        Some(v) => {
            let p = v[l % v.len()];
            let lower = if p[0] < 0 {
                0
            } else {
                p[0]
            };
            (lower, p[1])
        },
        None => {
            let dist = &params.layers_dist.layers_dist;
            let ref_size = dist[dist.len() - 1];
            let dev = params.layers_border.border_deviation;
            let delta: i64 = if dev >= 1_000 {
                dev / 1_000
            } else {
                proof {
                    vstd::arithmetic::mul::lemma_mul_upper_bound(
                        dev as int,
                        999,
                        ref_size as int,
                        0x7fff_ffff,
                    );
                    vstd::arithmetic::mul::lemma_mul_nonnegative(dev as int, ref_size as int);
                }
                dev * ref_size as i64 / 1_000
            };
            proof {
                assert(spec_layer_limits(*params, l as int).1 <= i32::MAX);
            }
            let base = params.layers_dist.layers_dist_summed[l] as i64;
            let lower: i64 = if base - delta < 0 {
                0
            } else {
                base - delta
            };
            ((lower as i32), ((base + delta) as i32))
        },
    }
}

/// A grid of `ys` rows of `xs` zeroed cells.
fn zero_grid(ys: usize, xs: usize) -> (g: Vec<Vec<i32>>)
    ensures
        g@.len() == ys,
        grid_rect(g@, xs as int),
{
    let mut g: Vec<Vec<i32>> = Vec::new();
    let mut y: usize = 0;
    while y < ys
        invariant
            0 <= y <= ys,
            g@.len() == y,
            grid_rect(g@, xs as int),
        decreases ys - y,
    {
        let mut row: Vec<i32> = Vec::new();
        let mut x: usize = 0;
        while x < xs
            invariant
                0 <= x <= xs,
                row@.len() == x,
            decreases xs - x,
        {
            row.push(0);
            x += 1;
        }
        g.push(row);
        y += 1;
    }
    g
}

/// The modifier can be called on any cell.
pub open spec fn mod_callable<F: Fn(usize, usize, usize, i32) -> i32>(f: F) -> bool {
    forall|a: (usize, usize, usize, i32)| #[trigger] call_requires(f, a)
}

/// Every value the modifier can return stays within a bound that keeps
/// the subtraction from a border cell inside `i32`.
pub open spec fn mod_output_bounded<F: Fn(usize, usize, usize, i32) -> i32>(f: F) -> bool {
    forall|a: (usize, usize, usize, i32), ret: i32|
        #[trigger] call_ensures(f, a, ret) ==> -0x3fff_ffff <= ret <= 0x3fff_ffff
}

/// The cell value `after` arises from `before` by subtracting one
/// possible result of the modifier at (x, y, l).
pub open spec fn cell_modified<F: Fn(usize, usize, usize, i32) -> i32>(
    f: F,
    x: int,
    y: int,
    l: int,
    before: i32,
    after: i32,
) -> bool {
    exists|ret: i32|
        #[trigger] call_ensures(f, (x as usize, y as usize, l as usize, before), ret) && after
            == before - ret
}

/// The cell value `after` arises from some depth inside layer `l`'s
/// range by subtracting one possible result of the modifier.
pub open spec fn cell_generated_and_modified<F: Fn(usize, usize, usize, i32) -> i32>(
    f: F,
    params: Params3D,
    l: int,
    y: int,
    x: int,
    after: i32,
) -> bool {
    exists|g: i32|
        spec_layer_limits(params, l).0 <= g <= spec_layer_limits(params, l).1
            && #[trigger] cell_modified(f, x, y, l, g, after)
}

/// Subtracts `mod_func(x, y, layer, depth)` from every border cell.
pub fn apply_border_mod<F: Fn(usize, usize, usize, i32) -> i32>(
    borders: &mut Vec<Vec<Vec<i32>>>,
    mod_func: F,
)
    requires
        mod_callable(mod_func),
        mod_output_bounded(mod_func),
        forall|l: int, y: int, x: int|
            0 <= l < old(borders)@.len() && 0 <= y < old(borders)@[l]@.len() && 0 <= x < old(
                borders,
            )@[l]@[y]@.len() ==> 0 <= #[trigger] old(borders)@[l]@[y]@[x] <= 0x3fff_ffff,
    ensures
        final(borders)@.len() == old(borders)@.len(),
        forall|l: int|
            0 <= l < old(borders)@.len() ==> (#[trigger] final(borders)@[l])@.len() == old(
                borders,
            )@[l]@.len(),
        forall|l: int, y: int|
            0 <= l < old(borders)@.len() && 0 <= y < old(borders)@[l]@.len() ==> (
            #[trigger] final(borders)@[l]@[y])@.len() == old(borders)@[l]@[y]@.len(),
        forall|l: int, y: int, x: int|
            0 <= l < old(borders)@.len() && 0 <= y < old(borders)@[l]@.len() && 0 <= x < old(
                borders,
            )@[l]@[y]@.len() ==> cell_modified(
                mod_func,
                x,
                y,
                l,
                old(borders)@[l]@[y]@[x],
                #[trigger] final(borders)@[l]@[y]@[x],
            ),
{
    let ghost orig = borders@;
    let mut l: usize = 0;
    while l < borders.len()
        invariant
            0 <= l <= orig.len(),
            borders@.len() == orig.len(),
            mod_callable(mod_func),
            mod_output_bounded(mod_func),
            forall|ll: int, y: int, x: int|
                0 <= ll < orig.len() && 0 <= y < orig[ll]@.len() && 0 <= x < orig[ll]@[y]@.len()
                    ==> 0 <= #[trigger] orig[ll]@[y]@[x] <= 0x3fff_ffff,
            forall|ll: int| l <= ll < orig.len() ==> #[trigger] borders@[ll] == orig[ll],
            forall|ll: int|
                0 <= ll < l ==> (#[trigger] borders@[ll])@.len() == orig[ll]@.len(),
            forall|ll: int, y: int|
                0 <= ll < l && 0 <= y < orig[ll]@.len() ==> (#[trigger] borders@[ll]@[y])@.len()
                    == orig[ll]@[y]@.len(),
            forall|ll: int, y: int, x: int|
                0 <= ll < l && 0 <= y < orig[ll]@.len() && 0 <= x < orig[ll]@[y]@.len()
                    ==> cell_modified(
                    mod_func,
                    x,
                    y,
                    ll,
                    orig[ll]@[y]@[x],
                    #[trigger] borders@[ll]@[y]@[x],
                ),
        decreases orig.len() - l,
    {
        let mut y: usize = 0;
        while y < borders[l].len()
            invariant
                0 <= l < orig.len(),
                borders@.len() == orig.len(),
                0 <= y <= orig[l as int]@.len(),
                borders@[l as int]@.len() == orig[l as int]@.len(),
                mod_callable(mod_func),
                mod_output_bounded(mod_func),
                forall|ll: int, yy: int, x: int|
                    0 <= ll < orig.len() && 0 <= yy < orig[ll]@.len() && 0 <= x
                        < orig[ll]@[yy]@.len() ==> 0 <= #[trigger] orig[ll]@[yy]@[x]
                        <= 0x3fff_ffff,
                forall|ll: int| l < ll < orig.len() ==> #[trigger] borders@[ll] == orig[ll],
                forall|yy: int|
                    y <= yy < orig[l as int]@.len() ==> #[trigger] borders@[l as int]@[yy]
                        == orig[l as int]@[yy],
                forall|ll: int|
                    0 <= ll < l ==> (#[trigger] borders@[ll])@.len() == orig[ll]@.len(),
                forall|ll: int, yy: int|
                    0 <= ll < l && 0 <= yy < orig[ll]@.len() ==> (
                    #[trigger] borders@[ll]@[yy])@.len() == orig[ll]@[yy]@.len(),
                forall|yy: int|
                    0 <= yy < y ==> (#[trigger] borders@[l as int]@[yy])@.len()
                        == orig[l as int]@[yy]@.len(),
                forall|ll: int, yy: int, x: int|
                    0 <= ll < l && 0 <= yy < orig[ll]@.len() && 0 <= x < orig[ll]@[yy]@.len()
                        ==> cell_modified(
                        mod_func,
                        x,
                        yy,
                        ll,
                        orig[ll]@[yy]@[x],
                        #[trigger] borders@[ll]@[yy]@[x],
                    ),
                forall|yy: int, x: int|
                    0 <= yy < y && 0 <= x < orig[l as int]@[yy]@.len() ==> cell_modified(
                        mod_func,
                        x,
                        yy,
                        l as int,
                        orig[l as int]@[yy]@[x],
                        #[trigger] borders@[l as int]@[yy]@[x],
                    ),
            decreases orig[l as int]@.len() - y,
        {
            let mut x: usize = 0;
            while x < borders[l][y].len()
                invariant
                    0 <= l < orig.len(),
                    borders@.len() == orig.len(),
                    0 <= y < orig[l as int]@.len(),
                    0 <= x <= orig[l as int]@[y as int]@.len(),
                    borders@[l as int]@.len() == orig[l as int]@.len(),
                    borders@[l as int]@[y as int]@.len() == orig[l as int]@[y as int]@.len(),
                    mod_callable(mod_func),
                    mod_output_bounded(mod_func),
                    forall|ll: int, yy: int, xx: int|
                        0 <= ll < orig.len() && 0 <= yy < orig[ll]@.len() && 0 <= xx
                            < orig[ll]@[yy]@.len() ==> 0 <= #[trigger] orig[ll]@[yy]@[xx]
                            <= 0x3fff_ffff,
                    forall|ll: int| l < ll < orig.len() ==> #[trigger] borders@[ll] == orig[ll],
                    forall|yy: int|
                        y < yy < orig[l as int]@.len() ==> #[trigger] borders@[l as int]@[yy]
                            == orig[l as int]@[yy],
                    forall|xx: int|
                        x <= xx < orig[l as int]@[y as int]@.len() ==> #[trigger] borders@[l as int]@[y as int]@[xx]
                            == orig[l as int]@[y as int]@[xx],
                    forall|ll: int|
                        0 <= ll < l ==> (#[trigger] borders@[ll])@.len() == orig[ll]@.len(),
                    forall|ll: int, yy: int|
                        0 <= ll < l && 0 <= yy < orig[ll]@.len() ==> (
                        #[trigger] borders@[ll]@[yy])@.len() == orig[ll]@[yy]@.len(),
                    forall|yy: int|
                        0 <= yy <= y ==> (#[trigger] borders@[l as int]@[yy])@.len()
                            == orig[l as int]@[yy]@.len(),
                    forall|ll: int, yy: int, xx: int|
                        0 <= ll < l && 0 <= yy < orig[ll]@.len() && 0 <= xx < orig[ll]@[yy]@.len()
                            ==> cell_modified(
                            mod_func,
                            xx,
                            yy,
                            ll,
                            orig[ll]@[yy]@[xx],
                            #[trigger] borders@[ll]@[yy]@[xx],
                        ),
                    forall|yy: int, xx: int|
                        0 <= yy < y && 0 <= xx < orig[l as int]@[yy]@.len() ==> cell_modified(
                            mod_func,
                            xx,
                            yy,
                            l as int,
                            orig[l as int]@[yy]@[xx],
                            #[trigger] borders@[l as int]@[yy]@[xx],
                        ),
                    forall|xx: int|
                        0 <= xx < x ==> cell_modified(
                            mod_func,
                            xx,
                            y as int,
                            l as int,
                            orig[l as int]@[y as int]@[xx],
                            #[trigger] borders@[l as int]@[y as int]@[xx],
                        ),
                decreases orig[l as int]@[y as int]@.len() - x,
            {
                let v = borders[l][y][x];
                let offset = mod_func(x, y, l, v);
                borders[l][y].set(x, v - offset);
                x += 1;
            }
            y += 1;
        }
        l += 1;
    }
}

/// Generates the full stack of interface heightfields `B[L][y][x]`:
/// one grid per layer, each cell within the layer's depth range, with
/// the neighbor-step constraint enforced when one is configured, and
/// an optional pure modifier subtracted afterwards.
pub fn create_layers_borders_3d<F: Fn(usize, usize, usize, i32) -> i32>(
    params: &Params3D,
    border_mod: Option<F>,
) -> (r: Result<Vec<Vec<Vec<i32>>>, BorderError>)
    requires
        params.wf(),
        borders_config_ok(*params),
        border_mod matches Some(f) ==> {
            &&& mod_callable(f)
            &&& mod_output_bounded(f)
            &&& forall|l: int|
                0 <= l < params.layers_dist.layers_dist@.len()
                    ==> (#[trigger] spec_layer_limits(*params, l)).1 <= 0x3fff_ffff
        },
    ensures
        r is Err <==> params.layers_border.border_type@ != "random"@,
        r is Err ==> r == Err::<Vec<Vec<Vec<i32>>>, BorderError>(BorderError::InvalidBorderType),
        r matches Ok(b) ==> {
            &&& b@.len() == params.layers_dist.layers_dist@.len()
            &&& forall|l: int|
                0 <= l < b@.len() ==> (#[trigger] b@[l])@.len() == params.y_ax.blocks_count
            &&& forall|l: int|
                0 <= l < b@.len() ==> grid_rect((#[trigger] b@[l])@, params.x_ax.blocks_count as int)
            &&& border_mod is None ==> forall|l: int|
                0 <= l < b@.len() ==> grid_in_range(
                    (#[trigger] b@[l])@,
                    spec_layer_limits(*params, l).0,
                    spec_layer_limits(*params, l).1,
                )
            &&& border_mod is None ==> (params.layers_border.border_max_step matches Some(s)
                ==> forall|l: int| 0 <= l < b@.len() ==> grid_smooth((#[trigger] b@[l])@, s as int))
            &&& border_mod matches Some(f) ==> forall|l: int, y: int, x: int|
                0 <= l < b@.len() && 0 <= y < b@[l]@.len() && 0 <= x < b@[l]@[y]@.len()
                    ==> cell_generated_and_modified(
                    f,
                    *params,
                    l,
                    y,
                    x,
                    #[trigger] b@[l]@[y]@[x],
                )
        },
{
    let layers_count = params.layers_dist.get_layers_count();
    let x_size = params.x_axis().blocks_count();
    let y_size = params.y_axis().blocks_count();

    let expected = String::from_str("random");
    if !params.layers_border.border_type.eq(&expected) {
        return Err(BorderError::InvalidBorderType);
    }

    let max_step = params.layers_border.border_max_step;

    let mut layers_borders: Vec<Vec<Vec<i32>>> = Vec::new();
    let mut l: usize = 0;
    while l < layers_count
        invariant
            0 <= l <= layers_count,
            params.wf(),
            borders_config_ok(*params),
            layers_count == params.layers_dist.layers_dist@.len(),
            x_size == params.x_ax.blocks_count,
            y_size == params.y_ax.blocks_count,
            max_step == params.layers_border.border_max_step,
            layers_borders@.len() == l,
            forall|ll: int|
                0 <= ll < l ==> (#[trigger] layers_borders@[ll])@.len() == y_size,
            forall|ll: int|
                0 <= ll < l ==> grid_rect((#[trigger] layers_borders@[ll])@, x_size as int),
            forall|ll: int|
                0 <= ll < l ==> grid_in_range(
                    (#[trigger] layers_borders@[ll])@,
                    spec_layer_limits(*params, ll).0,
                    spec_layer_limits(*params, ll).1,
                ),
            max_step matches Some(s) ==> forall|ll: int|
                0 <= ll < l ==> grid_smooth((#[trigger] layers_borders@[ll])@, s as int),
        decreases layers_count - l,
    {
        let (lower_limit, upper_limit) = layer_limits(params, l);
        let mut layer = zero_grid(y_size, x_size);
        proof {
            if y_size > 0 {
                assert(layer@[0]@.len() == x_size);
            }
        }
        let res = random_layer_creation(max_step, upper_limit, lower_limit, &mut layer);
        match res {
            Ok(_) => (),
            Err(e) => {
                proof {
                    assert(false);
                }
                return Err(e);
            },
        }
        layers_borders.push(layer);
        l += 1;
    }

    match border_mod {
        Some(f) => {
            proof {
                assert forall|ll: int, y: int, x: int|
                    0 <= ll < layers_borders@.len() && 0 <= y < layers_borders@[ll]@.len() && 0 <= x
                        < layers_borders@[ll]@[y]@.len() implies 0
                    <= #[trigger] layers_borders@[ll]@[y]@[x] <= 0x3fff_ffff by {
                    assert(grid_in_range(
                        layers_borders@[ll]@,
                        spec_layer_limits(*params, ll).0,
                        spec_layer_limits(*params, ll).1,
                    ));
                    assert(row_in_range(
                        layers_borders@[ll]@[y]@,
                        spec_layer_limits(*params, ll).0,
                        spec_layer_limits(*params, ll).1,
                    ));
                }
            }
            let ghost pre = layers_borders@;
            apply_border_mod(&mut layers_borders, f);
            proof {
                assert forall|ll: int, y: int, x: int|
                    0 <= ll < layers_borders@.len() && 0 <= y < layers_borders@[ll]@.len() && 0 <= x
                        < layers_borders@[ll]@[y]@.len() implies cell_generated_and_modified(
                    f,
                    *params,
                    ll,
                    y,
                    x,
                    #[trigger] layers_borders@[ll]@[y]@[x],
                ) by {
                    let g0 = pre[ll]@[y]@[x];
                    assert(row_in_range(
                        pre[ll]@[y]@,
                        spec_layer_limits(*params, ll).0,
                        spec_layer_limits(*params, ll).1,
                    ));
                    assert(spec_layer_limits(*params, ll).0 <= g0 <= spec_layer_limits(
                        *params,
                        ll,
                    ).1);
                    assert(cell_modified(f, x, y, ll, g0, layers_borders@[ll]@[y]@[x]));
                }
            }
            Ok(layers_borders)
        },
        None => Ok(layers_borders),
    }
}

/// Re-checks one generated layer: every cell within
/// `[lower_limit, upper_limit]` and, when a maximum step is given,
/// every pair of 4-neighboring cells within that step of each other.
pub fn validate_layer(
    max_step: Option<i32>,
    upper_limit: i32,
    lower_limit: i32,
    layer: &Vec<Vec<i32>>,
    _now_layer_id: usize,
) -> (r: Result<(), BorderError>)
    requires
        grid_rect(layer@, grid_xs(layer@)),
    ensures
        r is Ok <==> {
            &&& grid_in_range(layer@, lower_limit as int, upper_limit as int)
            &&& (max_step matches Some(s) ==> grid_smooth(layer@, s as int))
        },
        r is Err ==> r == Err::<(), BorderError>(BorderError::ValidationFailed),
{
    let ys = layer.len();
    let ghost xs_spec = grid_xs(layer@);

    let mut y: usize = 0;
    while y < ys
        invariant
            0 <= y <= ys,
            ys == layer@.len(),
            grid_rect(layer@, xs_spec),
            forall|yy: int|
                0 <= yy < y ==> row_in_range(
                    (#[trigger] layer@[yy])@,
                    lower_limit as int,
                    upper_limit as int,
                ),
        decreases ys - y,
    {
        let row_len = layer[y].len();
        let mut x: usize = 0;
        while x < row_len
            invariant
                0 <= x <= row_len,
                0 <= y < ys,
                ys == layer@.len(),
                row_len == layer@[y as int]@.len(),
                forall|xx: int|
                    0 <= xx < x ==> lower_limit <= #[trigger] layer@[y as int]@[xx] <= upper_limit,
            decreases row_len - x,
        {
            let v = layer[y][x];
            if !(lower_limit <= v && v <= upper_limit) {
                proof {
                    assert(!row_in_range(layer@[y as int]@, lower_limit as int, upper_limit as int));
                    assert(!grid_in_range(layer@, lower_limit as int, upper_limit as int));
                }
                return Err(BorderError::ValidationFailed);
            }
            x += 1;
        }
        y += 1;
    }

    if let Some(ms) = max_step {
        let mut y: usize = 0;
        while y < ys
            invariant
                0 <= y <= ys,
                ys == layer@.len(),
                max_step == Some(ms),
                grid_in_range(layer@, lower_limit as int, upper_limit as int),
                grid_rect(layer@, xs_spec),
                forall|yy: int| 0 <= yy < y ==> row_smooth((#[trigger] layer@[yy])@, ms as int),
                forall|yy: int|
                    1 <= yy < y ==> rows_close(
                        layer@[yy - 1]@,
                        (#[trigger] layer@[yy])@,
                        ms as int,
                    ),
            decreases ys - y,
        {
            let row_len = layer[y].len();
            let mut x: usize = 0;
            while x < row_len
                invariant
                    0 <= x <= row_len,
                    0 <= y < ys,
                    ys == layer@.len(),
                    max_step == Some(ms),
                    grid_in_range(layer@, lower_limit as int, upper_limit as int),
                    grid_rect(layer@, xs_spec),
                    row_len == layer@[y as int]@.len(),
                    forall|xx: int|
                        1 <= xx < x ==> -ms <= layer@[y as int]@[xx - 1]
                            - #[trigger] layer@[y as int]@[xx] <= ms,
                    forall|xx: int|
                        0 <= xx < x && y >= 1 ==> -ms <= layer@[y - 1]@[xx]
                            - #[trigger] layer@[y as int]@[xx] <= ms,
                decreases row_len - x,
            {
                if x > 0 {
                    let gap = layer[y][x - 1] as i64 - layer[y][x] as i64;
                    if gap > ms as i64 || gap < -(ms as i64) {
                        proof {
                            assert(!row_smooth(layer@[y as int]@, ms as int));
                            assert(!grid_smooth(layer@, ms as int));
                        }
                        return Err(BorderError::ValidationFailed);
                    }
                }
                if y > 0 {
                    let gap = layer[y - 1][x] as i64 - layer[y][x] as i64;
                    if gap > ms as i64 || gap < -(ms as i64) {
                        proof {
                            assert(!rows_close(layer@[y - 1]@, layer@[y as int]@, ms as int));
                            assert(!grid_smooth(layer@, ms as int));
                        }
                        return Err(BorderError::ValidationFailed);
                    }
                }
                x += 1;
            }
            y += 1;
        }
    }

    Ok(())
}

} // verus!
