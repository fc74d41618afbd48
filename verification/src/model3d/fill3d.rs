//! The fill engine: materializes the dense voxel value volume and the
//! layer-index mask from the generated borders.

use vstd::prelude::*;

use crate::model3d::borders3d::spec_deviation_delta;
use crate::random_source::random_in_range;
use crate::random_source::random_index;
use crate::types::generation_params::Params3D;

verus! {

/// How one layer's voxels are filled: an exact value or an inclusive
/// range drawn uniformly.
#[derive(Debug, Clone, Copy, PartialEq, Eq, Structural)]
pub enum GenerationTypes {
    /// Uniform draws from an inclusive range.
    GenerationRange(i32, i32),
    /// One exact value.
    GenerationExact(i32),
}

/// A range generator's bounds are ordered.
pub open spec fn gen_wf(g: GenerationTypes) -> bool {
    match g {
        GenerationTypes::GenerationRange(lo, hi) => lo <= hi,
        GenerationTypes::GenerationExact(_) => true,
    }
}

/// The value `v` is one the generator can produce.
pub open spec fn gen_matches(g: GenerationTypes, v: i32) -> bool {
    match g {
        GenerationTypes::GenerationRange(lo, hi) => lo <= v <= hi,
        GenerationTypes::GenerationExact(e) => v == e,
    }
}

/// The inclusive bounds of the values a generator can produce.
pub open spec fn gen_bounds(g: GenerationTypes) -> (int, int) {
    match g {
        GenerationTypes::GenerationRange(lo, hi) => (lo as int, hi as int),
        GenerationTypes::GenerationExact(e) => (e as int, e as int),
    }
}

/// The largest element of the sequence, floored at zero.
pub open spec fn row_max0(s: Seq<i32>) -> int
    decreases s.len(),
{
    if s.len() == 0 {
        0
    } else {
        let m = row_max0(s.drop_last());
        if s.last() > m {
            s.last() as int
        } else {
            m
        }
    }
}

/// The largest cell of the grid, floored at zero.
pub open spec fn grid_max0(g: Seq<Vec<i32>>) -> int
    decreases g.len(),
{
    if g.len() == 0 {
        0
    } else {
        let m = grid_max0(g.drop_last());
        if row_max0(g.last()@) > m {
            row_max0(g.last()@)
        } else {
            m
        }
    }
}

/// The largest cell of the whole border stack, floored at zero: the
/// depth extent of the voxel volume.
pub open spec fn stack_max0(b: Seq<Vec<Vec<i32>>>) -> int
    decreases b.len(),
{
    if b.len() == 0 {
        0
    } else {
        let m = stack_max0(b.drop_last());
        if grid_max0(b.last()@) > m {
            grid_max0(b.last()@)
        } else {
            m
        }
    }
}

/// The row maximum bounds every element.
pub proof fn lemma_row_max0_ge(s: Seq<i32>, x: int)
    requires
        0 <= x < s.len(),
    ensures
        s[x] <= row_max0(s),
        row_max0(s) >= 0,
    decreases s.len(),
{
    if x == s.len() - 1 {
        lemma_row_max0_nonneg(s);
    } else {
        lemma_row_max0_ge(s.drop_last(), x);
    }
}

/// The row maximum is never negative.
pub proof fn lemma_row_max0_nonneg(s: Seq<i32>)
    ensures
        row_max0(s) >= 0,
    decreases s.len(),
{
    if s.len() > 0 {
        lemma_row_max0_nonneg(s.drop_last());
    }
}

/// The grid maximum bounds every cell.
pub proof fn lemma_grid_max0_ge(g: Seq<Vec<i32>>, y: int, x: int)
    requires
        0 <= y < g.len(),
        0 <= x < g[y]@.len(),
    ensures
        g[y]@[x] <= grid_max0(g),
        grid_max0(g) >= 0,
    decreases g.len(),
{
    if y == g.len() - 1 {
        lemma_row_max0_ge(g[y]@, x);
        lemma_grid_max0_nonneg(g.drop_last());
    } else {
        lemma_grid_max0_ge(g.drop_last(), y, x);
        lemma_row_max0_nonneg(g.last()@);
    }
}

/// The grid maximum is never negative.
pub proof fn lemma_grid_max0_nonneg(g: Seq<Vec<i32>>)
    ensures
        grid_max0(g) >= 0,
    decreases g.len(),
{
    if g.len() > 0 {
        lemma_grid_max0_nonneg(g.drop_last());
    }
}

/// The stack maximum bounds every cell.
pub proof fn lemma_stack_max0_ge(b: Seq<Vec<Vec<i32>>>, l: int, y: int, x: int)
    requires
        0 <= l < b.len(),
        0 <= y < b[l]@.len(),
        0 <= x < b[l]@[y]@.len(),
    ensures
        b[l]@[y]@[x] <= stack_max0(b),
        stack_max0(b) >= 0,
    decreases b.len(),
{
    if l == b.len() - 1 {
        lemma_grid_max0_ge(b[l]@, y, x);
        lemma_stack_max0_nonneg(b.drop_last());
    } else {
        lemma_stack_max0_ge(b.drop_last(), l, y, x);
        lemma_grid_max0_nonneg(b.last()@);
    }
}

/// The stack maximum is never negative.
pub proof fn lemma_stack_max0_nonneg(b: Seq<Vec<Vec<i32>>>)
    ensures
        stack_max0(b) >= 0,
    decreases b.len(),
{
    if b.len() > 0 {
        lemma_stack_max0_nonneg(b.drop_last());
    }
}

/// A non-negative bound on every element bounds the row maximum.
pub proof fn lemma_row_max0_le(s: Seq<i32>, b: int)
    requires
        b >= 0,
        forall|x: int| 0 <= x < s.len() ==> #[trigger] s[x] <= b,
    ensures
        row_max0(s) <= b,
    decreases s.len(),
{
    if s.len() > 0 {
        assert forall|x: int| 0 <= x < s.drop_last().len() implies #[trigger] s.drop_last()[x]
            <= b by {
            assert(s.drop_last()[x] == s[x]);
        }
        lemma_row_max0_le(s.drop_last(), b);
    }
}

/// A non-negative bound on every cell bounds the grid maximum.
pub proof fn lemma_grid_max0_le(g: Seq<Vec<i32>>, b: int)
    requires
        b >= 0,
        forall|y: int, x: int|
            0 <= y < g.len() && 0 <= x < g[y]@.len() ==> #[trigger] g[y]@[x] <= b,
    ensures
        grid_max0(g) <= b,
    decreases g.len(),
{
    if g.len() > 0 {
        assert forall|y: int, x: int|
            0 <= y < g.drop_last().len() && 0 <= x < g.drop_last()[y]@.len() implies #[trigger] g.drop_last()[y]@[x]
            <= b by {
            assert(g.drop_last()[y] == g[y]);
        }
        lemma_grid_max0_le(g.drop_last(), b);
        lemma_row_max0_le(g.last()@, b);
    }
}

/// A non-negative bound on every cell bounds the stack maximum.
pub proof fn lemma_stack_max0_le(b: Seq<Vec<Vec<i32>>>, bound: int)
    requires
        bound >= 0,
        forall|l: int, y: int, x: int|
            0 <= l < b.len() && 0 <= y < b[l]@.len() && 0 <= x < b[l]@[y]@.len()
                ==> #[trigger] b[l]@[y]@[x] <= bound,
    ensures
        stack_max0(b) <= bound,
    decreases b.len(),
{
    if b.len() > 0 {
        assert forall|l: int, y: int, x: int|
            0 <= l < b.drop_last().len() && 0 <= y < b.drop_last()[l]@.len() && 0 <= x
                < b.drop_last()[l]@[y]@.len() implies #[trigger] b.drop_last()[l]@[y]@[x]
            <= bound by {
            assert(b.drop_last()[l] == b[l]);
        }
        lemma_stack_max0_le(b.drop_last(), bound);
        assert forall|y: int, x: int|
            0 <= y < b.last()@.len() && 0 <= x < b.last()@[y]@.len() implies #[trigger] b.last()@[y]@[x]
            <= bound by {
            assert(b.last() == b[b.len() - 1]);
        }
        lemma_grid_max0_le(b.last()@, bound);
    }
}

/// The border stack has one grid per layer, each of `ys` rows of `xs`
/// cells, with at least one layer and one row.
pub open spec fn stack_wf(b: Seq<Vec<Vec<i32>>>, ys: int, xs: int) -> bool {
    &&& b.len() >= 1
    &&& ys >= 1
    &&& forall|l: int| 0 <= l < b.len() ==> (#[trigger] b[l])@.len() == ys
    &&& forall|l: int, y: int|
        0 <= l < b.len() && 0 <= y < ys ==> (#[trigger] b[l]@[y])@.len() == xs
}

/// The interface depths above the ground cell (y, x), one per layer.
pub open spec fn column(b: Seq<Vec<Vec<i32>>>, y: int, x: int) -> Seq<i32> {
    Seq::new(b.len(), |l: int| b[l]@[y]@[x])
}

/// The layer that owns depth `z` in a column of interface depths: the
/// smallest index whose interface lies strictly deeper than `z`,
/// saturating at the last layer.
pub open spec fn mask_index(col: Seq<i32>, z: int) -> int
    decreases col.len(),
{
    if col.len() <= 1 {
        0
    } else if z < col[0] {
        0
    } else {
        1 + mask_index(col.drop_first(), z)
    }
}

/// The mask index stays within the layer count.
pub proof fn lemma_mask_index_bounds(col: Seq<i32>, z: int)
    requires
        col.len() >= 1,
    ensures
        0 <= mask_index(col, z) < col.len(),
    decreases col.len(),
{
    if col.len() > 1 && !(z < col[0]) {
        lemma_mask_index_bounds(col.drop_first(), z);
    }
}

/// A cursor position that has passed every shallower interface and
/// stopped at a deeper one (or at the last layer) is the mask index.
pub proof fn lemma_mask_index_characterization(col: Seq<i32>, z: int, idx: int)
    requires
        col.len() >= 1,
        0 <= idx < col.len(),
        forall|j: int| 0 <= j < idx ==> #[trigger] col[j] <= z,
        idx == col.len() - 1 || z < col[idx],
    ensures
        mask_index(col, z) == idx,
    decreases idx,
{
    if idx == 0 {
    } else {
        assert(col[0] <= z);
        assert forall|j: int| 0 <= j < idx - 1 implies #[trigger] col.drop_first()[j] <= z by {
            assert(col.drop_first()[j] == col[j + 1]);
        }
        assert(idx - 1 == col.drop_first().len() - 1 || z < col.drop_first()[idx - 1]);
        lemma_mask_index_characterization(col.drop_first(), z, idx - 1);
    }
}

/// The depth extent, layer count, row count and cell count of a border
/// stack.
pub fn generate_consts(borders: &Vec<Vec<Vec<i32>>>) -> (r: (i32, usize, usize, usize))
    requires
        borders@.len() >= 1,
        borders@[0]@.len() >= 1,
    ensures
        r.0 == stack_max0(borders@),
        r.1 == borders@.len(),
        r.2 == borders@[0]@.len(),
        r.3 == borders@[0]@[0]@.len(),
{
    let mut max_elem: i32 = 0;
    let mut l: usize = 0;
    proof {
        assert(borders@.subrange(0, 0) =~= Seq::<Vec<Vec<i32>>>::empty());
    }
    while l < borders.len()
        invariant
            0 <= l <= borders@.len(),
            max_elem == stack_max0(borders@.subrange(0, l as int)),
        decreases borders@.len() - l,
    {
        let grid = &borders[l];
        let mut y: usize = 0;
        let mut grid_m: i32 = 0;
        proof {
            assert(grid@.subrange(0, 0) =~= Seq::<Vec<i32>>::empty());
        }
        while y < grid.len()
            invariant
                0 <= y <= grid@.len(),
                grid_m == grid_max0(grid@.subrange(0, y as int)),
            decreases grid@.len() - y,
        {
            let row = &grid[y];
            let mut x: usize = 0;
            let mut row_m: i32 = 0;
            proof {
                assert(row@.subrange(0, 0) =~= Seq::<i32>::empty());
            }
            while x < row.len()
                invariant
                    0 <= x <= row@.len(),
                    row_m == row_max0(row@.subrange(0, x as int)),
                decreases row@.len() - x,
            {
                proof {
                    assert(row@.subrange(0, x + 1).drop_last() =~= row@.subrange(0, x as int));
                    assert(row@.subrange(0, x + 1).last() == row@[x as int]);
                }
                if row[x] > row_m {
                    row_m = row[x];
                }
                x += 1;
            }
            proof {
                assert(row@.subrange(0, row@.len() as int) =~= row@);
                assert(grid@.subrange(0, y + 1).drop_last() =~= grid@.subrange(0, y as int));
                assert(grid@.subrange(0, y + 1).last() == grid@[y as int]);
            }
            if row_m > grid_m {
                grid_m = row_m;
            }
            y += 1;
        }
        proof {
            assert(grid@.subrange(0, grid@.len() as int) =~= grid@);
            assert(borders@.subrange(0, l + 1).drop_last() =~= borders@.subrange(0, l as int));
            assert(borders@.subrange(0, l + 1).last() == borders@[l as int]);
        }
        if grid_m > max_elem {
            max_elem = grid_m;
        }
        l += 1;
    }
    proof {
        assert(borders@.subrange(0, borders@.len() as int) =~= borders@);
    }
    (max_elem, borders.len(), borders[0].len(), borders[0][0].len())
}

/// A negative interface depth counts as depth zero.
pub open spec fn clamp0(v: i32) -> int {
    if v < 0 {
        0
    } else {
        v as int
    }
}

/// Walks one ground cell's column from the surface down, yielding for
/// every depth the index of the layer that owns it.
fn column_layers(
    borders: &Vec<Vec<Vec<i32>>>,
    y_cord: usize,
    x_cord: usize,
    max_elem: usize,
    Ghost(ys): Ghost<int>,
    Ghost(xs): Ghost<int>,
) -> (r: Vec<u8>)
    requires
        stack_wf(borders@, ys, xs),
        borders@.len() <= 255,
        y_cord < ys,
        x_cord < xs,
    ensures
        r@.len() == max_elem,
        forall|z: int|
            0 <= z < max_elem ==> #[trigger] r@[z] == mask_index(
                column(borders@, y_cord as int, x_cord as int),
                z,
            ),
        forall|z: int| 0 <= z < max_elem ==> #[trigger] r@[z] < borders@.len(),
{
    let ghost col = column(borders@, y_cord as int, x_cord as int);
    let layers_count = borders.len();

    let mut mask_col: Vec<u8> = Vec::new();
    let mut now_index: usize = 0;
    let mut now_index_u8: u8 = 0;
    let c0 = borders[0][y_cord][x_cord];
    let mut now_depth: usize = if c0 < 0 {
        0
    } else {
        c0 as usize
    };

    let mut depth: usize = 0;
    while depth < max_elem
        invariant
            0 <= depth <= max_elem,
            layers_count == borders@.len(),
            1 <= layers_count <= 255,
            stack_wf(borders@, ys, xs),
            y_cord < ys,
            x_cord < xs,
            col == column(borders@, y_cord as int, x_cord as int),
            now_index < layers_count,
            now_index_u8 == now_index,
            now_depth == clamp0(col[now_index as int]),
            forall|j: int| 0 <= j < now_index ==> #[trigger] col[j] <= depth,
            mask_col@.len() == depth,
            forall|z: int| 0 <= z < depth ==> #[trigger] mask_col@[z] == mask_index(col, z),
            forall|z: int| 0 <= z < depth ==> #[trigger] mask_col@[z] < layers_count,
        decreases max_elem - depth,
    {
        if depth >= now_depth && now_index < layers_count - 1 {
            now_index += 1;
            let c = borders[now_index][y_cord][x_cord];
            now_depth = if c < 0 {
                0
            } else {
                c as usize
            };
            while now_depth <= depth && now_index < layers_count - 1
                invariant
                    1 <= now_index <= layers_count - 1,
                    layers_count == borders@.len(),
                    layers_count <= 255,
                    stack_wf(borders@, ys, xs),
                    y_cord < ys,
                    x_cord < xs,
                    col == column(borders@, y_cord as int, x_cord as int),
                    now_depth == clamp0(col[now_index as int]),
                    forall|j: int| 0 <= j < now_index ==> #[trigger] col[j] <= depth,
                decreases layers_count - 1 - now_index,
            {
                now_index += 1;
                let c = borders[now_index][y_cord][x_cord];
                now_depth = if c < 0 {
                    0
                } else {
                    c as usize
                };
            }
            now_index_u8 = now_index as u8;
        }
        proof {
            lemma_mask_index_characterization(col, depth as int, now_index as int);
        }
        mask_col.push(now_index_u8);
        depth += 1;
    }
    mask_col
}

/// Draws one voxel value per depth of a column, each from the
/// generator of the layer that owns the depth.
fn column_values(col_mask: &Vec<u8>, fill_values: &Vec<GenerationTypes>) -> (r: Vec<i32>)
    requires
        forall|z: int|
            0 <= z < col_mask@.len() ==> (#[trigger] col_mask@[z]) < fill_values@.len(),
        forall|j: int| 0 <= j < fill_values@.len() ==> gen_wf(#[trigger] fill_values@[j]),
    ensures
        r@.len() == col_mask@.len(),
        forall|z: int|
            0 <= z < col_mask@.len() ==> gen_matches(
                fill_values@[col_mask@[z] as int],
                #[trigger] r@[z],
            ),
{
    let mut values: Vec<i32> = Vec::new();
    let mut z: usize = 0;
    while z < col_mask.len()
        invariant
            0 <= z <= col_mask@.len(),
            forall|zz: int|
                0 <= zz < col_mask@.len() ==> (#[trigger] col_mask@[zz]) < fill_values@.len(),
            forall|j: int| 0 <= j < fill_values@.len() ==> gen_wf(#[trigger] fill_values@[j]),
            values@.len() == z,
            forall|zz: int|
                0 <= zz < z ==> gen_matches(
                    fill_values@[col_mask@[zz] as int],
                    #[trigger] values@[zz],
                ),
        decreases col_mask@.len() - z,
    {
        let v = match fill_values[col_mask[z] as usize] {
            GenerationTypes::GenerationExact(value) => value,
            GenerationTypes::GenerationRange(lo, hi) => random_in_range(lo, hi),
        };
        values.push(v);
        z += 1;
    }
    values
}

/// Produces both the dense voxel value volume `M[x][y][z]` and the
/// layer-index mask `K[x][y][z]`: each voxel's value is drawn from the
/// generator of the layer that owns its depth, recorded in the mask.
pub fn create_full_model_with_mask(
    borders: &Vec<Vec<Vec<i32>>>,
    fill_values: &Vec<GenerationTypes>,
) -> (r: (Vec<Vec<Vec<i32>>>, Vec<Vec<Vec<u8>>>))
    requires
        stack_wf(borders@, borders@[0]@.len() as int, borders@[0]@[0]@.len() as int),
        borders@.len() <= 255,
        fill_values@.len() >= borders@.len(),
        forall|j: int| 0 <= j < fill_values@.len() ==> gen_wf(#[trigger] fill_values@[j]),
    ensures
        ({
            let ys = borders@[0]@.len() as int;
            let xs = borders@[0]@[0]@.len() as int;
            let zs = stack_max0(borders@);
            &&& r.0@.len() == xs && r.1@.len() == xs
            &&& forall|x: int| 0 <= x < xs ==> (#[trigger] r.0@[x])@.len() == ys
            &&& forall|x: int| 0 <= x < xs ==> (#[trigger] r.1@[x])@.len() == ys
            &&& forall|x: int, y: int|
                0 <= x < xs && 0 <= y < ys ==> (#[trigger] r.0@[x]@[y])@.len() == zs
            &&& forall|x: int, y: int|
                0 <= x < xs && 0 <= y < ys ==> (#[trigger] r.1@[x]@[y])@.len() == zs
            &&& forall|x: int, y: int, z: int|
                0 <= x < xs && 0 <= y < ys && 0 <= z < zs ==> #[trigger] r.1@[x]@[y]@[z]
                    == mask_index(column(borders@, y, x), z)
            &&& forall|x: int, y: int, z: int|
                0 <= x < xs && 0 <= y < ys && 0 <= z < zs ==> gen_matches(
                    fill_values@[mask_index(column(borders@, y, x), z)],
                    #[trigger] r.0@[x]@[y]@[z],
                )
        }),
{
    let (max_elem_i, layers_count, y_size, x_size) = generate_consts(borders);
    proof {
        lemma_stack_max0_nonneg(borders@);
    }
    let max_elem = max_elem_i as usize;

    let mut model: Vec<Vec<Vec<i32>>> = Vec::new();
    let mut model_mask: Vec<Vec<Vec<u8>>> = Vec::new();
    let mut x_cord: usize = 0;
    while x_cord < x_size
        invariant
            0 <= x_cord <= x_size,
            stack_wf(borders@, y_size as int, x_size as int),
            borders@.len() <= 255,
            fill_values@.len() >= borders@.len(),
            forall|j: int| 0 <= j < fill_values@.len() ==> gen_wf(#[trigger] fill_values@[j]),
            y_size == borders@[0]@.len(),
            x_size == borders@[0]@[0]@.len(),
            max_elem == stack_max0(borders@),
            model@.len() == x_cord && model_mask@.len() == x_cord,
            forall|x: int| 0 <= x < x_cord ==> (#[trigger] model@[x])@.len() == y_size,
            forall|x: int| 0 <= x < x_cord ==> (#[trigger] model_mask@[x])@.len() == y_size,
            forall|x: int, y: int|
                0 <= x < x_cord && 0 <= y < y_size ==> (#[trigger] model@[x]@[y])@.len()
                    == max_elem,
            forall|x: int, y: int|
                0 <= x < x_cord && 0 <= y < y_size ==> (#[trigger] model_mask@[x]@[y])@.len()
                    == max_elem,
            forall|x: int, y: int, z: int|
                0 <= x < x_cord && 0 <= y < y_size && 0 <= z < max_elem
                    ==> #[trigger] model_mask@[x]@[y]@[z] == mask_index(column(borders@, y, x), z),
            forall|x: int, y: int, z: int|
                0 <= x < x_cord && 0 <= y < y_size && 0 <= z < max_elem ==> gen_matches(
                    fill_values@[mask_index(column(borders@, y, x), z)],
                    #[trigger] model@[x]@[y]@[z],
                ),
        decreases x_size - x_cord,
    {
        let mut now_x: Vec<Vec<i32>> = Vec::new();
        let mut now_x_mask: Vec<Vec<u8>> = Vec::new();
        let mut y_cord: usize = 0;
        while y_cord < y_size
            invariant
                0 <= y_cord <= y_size,
                x_cord < x_size,
                stack_wf(borders@, y_size as int, x_size as int),
                borders@.len() <= 255,
                fill_values@.len() >= borders@.len(),
                forall|j: int| 0 <= j < fill_values@.len() ==> gen_wf(#[trigger] fill_values@[j]),
                max_elem == stack_max0(borders@),
                now_x@.len() == y_cord && now_x_mask@.len() == y_cord,
                forall|y: int| 0 <= y < y_cord ==> (#[trigger] now_x@[y])@.len() == max_elem,
                forall|y: int| 0 <= y < y_cord ==> (#[trigger] now_x_mask@[y])@.len() == max_elem,
                forall|y: int, z: int|
                    0 <= y < y_cord && 0 <= z < max_elem ==> #[trigger] now_x_mask@[y]@[z]
                        == mask_index(column(borders@, y, x_cord as int), z),
                forall|y: int, z: int|
                    0 <= y < y_cord && 0 <= z < max_elem ==> gen_matches(
                        fill_values@[mask_index(column(borders@, y, x_cord as int), z)],
                        #[trigger] now_x@[y]@[z],
                    ),
            decreases y_size - y_cord,
        {
            let col = column_layers(
                borders,
                y_cord,
                x_cord,
                max_elem,
                Ghost(y_size as int),
                Ghost(x_size as int),
            );
            let vals = column_values(&col, fill_values);
            now_x.push(vals);
            now_x_mask.push(col);
            y_cord += 1;
        }
        model.push(now_x);
        model_mask.push(now_x_mask);
        x_cord += 1;
    }
    (model, model_mask)
}

/// Produces the dense voxel value volume `M[x][y][z]` alone: each
/// voxel's value is drawn from the generator of the layer that owns
/// its depth.
pub fn create_full_model_without_mask(
    borders: &Vec<Vec<Vec<i32>>>,
    fill_values: &Vec<GenerationTypes>,
) -> (r: Vec<Vec<Vec<i32>>>)
    requires
        stack_wf(borders@, borders@[0]@.len() as int, borders@[0]@[0]@.len() as int),
        borders@.len() <= 255,
        fill_values@.len() >= borders@.len(),
        forall|j: int| 0 <= j < fill_values@.len() ==> gen_wf(#[trigger] fill_values@[j]),
    ensures
        ({
            let ys = borders@[0]@.len() as int;
            let xs = borders@[0]@[0]@.len() as int;
            let zs = stack_max0(borders@);
            &&& r@.len() == xs
            &&& forall|x: int| 0 <= x < xs ==> (#[trigger] r@[x])@.len() == ys
            &&& forall|x: int, y: int|
                0 <= x < xs && 0 <= y < ys ==> (#[trigger] r@[x]@[y])@.len() == zs
            &&& forall|x: int, y: int, z: int|
                0 <= x < xs && 0 <= y < ys && 0 <= z < zs ==> gen_matches(
                    fill_values@[mask_index(column(borders@, y, x), z)],
                    #[trigger] r@[x]@[y]@[z],
                )
        }),
{
    let (max_elem_i, layers_count, y_size, x_size) = generate_consts(borders);
    proof {
        lemma_stack_max0_nonneg(borders@);
    }
    let max_elem = max_elem_i as usize;

    let mut model: Vec<Vec<Vec<i32>>> = Vec::new();
    let mut x_cord: usize = 0;
    while x_cord < x_size
        invariant
            0 <= x_cord <= x_size,
            stack_wf(borders@, y_size as int, x_size as int),
            borders@.len() <= 255,
            fill_values@.len() >= borders@.len(),
            forall|j: int| 0 <= j < fill_values@.len() ==> gen_wf(#[trigger] fill_values@[j]),
            y_size == borders@[0]@.len(),
            x_size == borders@[0]@[0]@.len(),
            max_elem == stack_max0(borders@),
            model@.len() == x_cord,
            forall|x: int| 0 <= x < x_cord ==> (#[trigger] model@[x])@.len() == y_size,
            forall|x: int, y: int|
                0 <= x < x_cord && 0 <= y < y_size ==> (#[trigger] model@[x]@[y])@.len()
                    == max_elem,
            forall|x: int, y: int, z: int|
                0 <= x < x_cord && 0 <= y < y_size && 0 <= z < max_elem ==> gen_matches(
                    fill_values@[mask_index(column(borders@, y, x), z)],
                    #[trigger] model@[x]@[y]@[z],
                ),
        decreases x_size - x_cord,
    {
        let mut now_x: Vec<Vec<i32>> = Vec::new();
        let mut y_cord: usize = 0;
        while y_cord < y_size
            invariant
                0 <= y_cord <= y_size,
                x_cord < x_size,
                stack_wf(borders@, y_size as int, x_size as int),
                borders@.len() <= 255,
                fill_values@.len() >= borders@.len(),
                forall|j: int| 0 <= j < fill_values@.len() ==> gen_wf(#[trigger] fill_values@[j]),
                max_elem == stack_max0(borders@),
                now_x@.len() == y_cord,
                forall|y: int| 0 <= y < y_cord ==> (#[trigger] now_x@[y])@.len() == max_elem,
                forall|y: int, z: int|
                    0 <= y < y_cord && 0 <= z < max_elem ==> gen_matches(
                        fill_values@[mask_index(column(borders@, y, x_cord as int), z)],
                        #[trigger] now_x@[y]@[z],
                    ),
            decreases y_size - y_cord,
        {
            let col = column_layers(
                borders,
                y_cord,
                x_cord,
                max_elem,
                Ghost(y_size as int),
                Ghost(x_size as int),
            );
            let vals = column_values(&col, fill_values);
            now_x.push(vals);
            y_cord += 1;
        }
        model.push(now_x);
        x_cord += 1;
    }
    model
}

/// Produces the layer-index mask `K[x][y][z]` alone: each voxel holds
/// the index of the layer that owns its depth.
pub fn create_only_mask(borders: &Vec<Vec<Vec<i32>>>) -> (r: Vec<Vec<Vec<u8>>>)
    requires
        stack_wf(borders@, borders@[0]@.len() as int, borders@[0]@[0]@.len() as int),
        borders@.len() <= 255,
    ensures
        ({
            let ys = borders@[0]@.len() as int;
            let xs = borders@[0]@[0]@.len() as int;
            let zs = stack_max0(borders@);
            &&& r@.len() == xs
            &&& forall|x: int| 0 <= x < xs ==> (#[trigger] r@[x])@.len() == ys
            &&& forall|x: int, y: int|
                0 <= x < xs && 0 <= y < ys ==> (#[trigger] r@[x]@[y])@.len() == zs
            &&& forall|x: int, y: int, z: int|
                0 <= x < xs && 0 <= y < ys && 0 <= z < zs ==> #[trigger] r@[x]@[y]@[z]
                    == mask_index(column(borders@, y, x), z)
        }),
{
    let (max_elem_i, layers_count, y_size, x_size) = generate_consts(borders);
    proof {
        lemma_stack_max0_nonneg(borders@);
    }
    let max_elem = max_elem_i as usize;

    let mut model_mask: Vec<Vec<Vec<u8>>> = Vec::new();
    let mut x_cord: usize = 0;
    while x_cord < x_size
        invariant
            0 <= x_cord <= x_size,
            stack_wf(borders@, y_size as int, x_size as int),
            borders@.len() <= 255,
            y_size == borders@[0]@.len(),
            x_size == borders@[0]@[0]@.len(),
            max_elem == stack_max0(borders@),
            model_mask@.len() == x_cord,
            forall|x: int| 0 <= x < x_cord ==> (#[trigger] model_mask@[x])@.len() == y_size,
            forall|x: int, y: int|
                0 <= x < x_cord && 0 <= y < y_size ==> (#[trigger] model_mask@[x]@[y])@.len()
                    == max_elem,
            forall|x: int, y: int, z: int|
                0 <= x < x_cord && 0 <= y < y_size && 0 <= z < max_elem
                    ==> #[trigger] model_mask@[x]@[y]@[z] == mask_index(column(borders@, y, x), z),
        decreases x_size - x_cord,
    {
        let mut now_x_mask: Vec<Vec<u8>> = Vec::new();
        let mut y_cord: usize = 0;
        while y_cord < y_size
            invariant
                0 <= y_cord <= y_size,
                x_cord < x_size,
                stack_wf(borders@, y_size as int, x_size as int),
                borders@.len() <= 255,
                max_elem == stack_max0(borders@),
                now_x_mask@.len() == y_cord,
                forall|y: int|
                    0 <= y < y_cord ==> (#[trigger] now_x_mask@[y])@.len() == max_elem,
                forall|y: int, z: int|
                    0 <= y < y_cord && 0 <= z < max_elem ==> #[trigger] now_x_mask@[y]@[z]
                        == mask_index(column(borders@, y, x_cord as int), z),
            decreases y_size - y_cord,
        {
            let col = column_layers(
                borders,
                y_cord,
                x_cord,
                max_elem,
                Ghost(y_size as int),
                Ghost(x_size as int),
            );
            now_x_mask.push(col);
            y_cord += 1;
        }
        model_mask.push(now_x_mask);
        x_cord += 1;
    }
    model_mask
}

/// The generator resolved from preset entry `j`: a two-value entry is
/// an inclusive range; a one-value entry is exact, or widened by the
/// configured deviation into a range floored at zero.
pub open spec fn resolved_gen(params: Params3D, j: int) -> GenerationTypes {
    let entry = params.layers_fill.values_preset@[j]@;
    if entry.len() == 2 {
        GenerationTypes::GenerationRange(entry[0], entry[1])
    } else {
        match params.layers_fill.values_deviation {
            Some(dev) => {
                let dist = params.layers_dist.layers_dist@;
                let delta = spec_deviation_delta(dev, dist[dist.len() - 1] as int);
                let first = if delta > entry[0] {
                    0int
                } else {
                    entry[0] - delta
                };
                GenerationTypes::GenerationRange(first as i32, (entry[0] + delta) as i32)
            },
            None => GenerationTypes::GenerationExact(entry[0]),
        }
    }
}

/// The realized rows follow a walk over the preset: one in-range
/// entry index per row, no index repeated on consecutive rows when
/// the preset offers a choice, and each row holding the bounds of its
/// entry's resolved generator.
pub open spec fn rows_follow_walk(
    params: Params3D,
    rows: Seq<Vec<i32>>,
    idxs: Seq<int>,
    plen: int,
) -> bool {
    &&& idxs.len() == rows.len()
    &&& forall|li: int| 0 <= li < idxs.len() ==> 0 <= #[trigger] idxs[li] < plen
    &&& plen > 1 ==> forall|li: int| 1 <= li < idxs.len() ==> #[trigger] idxs[li] != idxs[li - 1]
    &&& forall|li: int|
        0 <= li < rows.len() ==> (#[trigger] rows[li])@[0] == gen_bounds(
            resolved_gen(params, idxs[li]),
        ).0 && rows[li]@[1] == gen_bounds(resolved_gen(params, idxs[li])).1
}

/// The fill stage accepts a configuration when every two-value entry
/// is ordered and, under a deviation, every widened exact value stays
/// a non-negative `i32`.
pub open spec fn fill_config_ok(params: Params3D) -> bool {
    let preset = params.layers_fill.values_preset@;
    &&& forall|j: int|
        0 <= j < preset.len() && (#[trigger] preset[j])@.len() == 2 ==> preset[j]@[0]
            <= preset[j]@[1]
    &&& (params.layers_fill.values_deviation matches Some(dev) ==> forall|j: int|
        0 <= j < preset.len() && (#[trigger] preset[j])@.len() == 1 ==> {
            let dist = params.layers_dist.layers_dist@;
            let delta = spec_deviation_delta(dev, dist[dist.len() - 1] as int);
            0 <= preset[j]@[0] + delta <= i32::MAX
        })
}

/// Resolves every preset entry into its generator and the inclusive
/// bounds recorded for serialization.
fn resolve_fill_values(params: &Params3D) -> (r: (Vec<GenerationTypes>, Vec<Vec<i32>>))
    requires
        params.wf(),
        fill_config_ok(*params),
    ensures
        r.0@.len() == params.layers_fill.values_preset@.len(),
        r.1@.len() == params.layers_fill.values_preset@.len(),
        forall|j: int| 0 <= j < r.0@.len() ==> #[trigger] r.0@[j] == resolved_gen(*params, j),
        forall|j: int| 0 <= j < r.0@.len() ==> gen_wf(#[trigger] r.0@[j]),
        forall|j: int| 0 <= j < r.1@.len() ==> (#[trigger] r.1@[j])@.len() == 2,
        forall|j: int|
            0 <= j < r.1@.len() ==> (#[trigger] r.1@[j])@[0] == gen_bounds(
                resolved_gen(*params, j),
            ).0 && r.1@[j]@[1] == gen_bounds(resolved_gen(*params, j)).1,
{
    let preset = &params.layers_fill.values_preset;
    let dist = &params.layers_dist.layers_dist;
    let ref_size = dist[dist.len() - 1];

    let mut gens: Vec<GenerationTypes> = Vec::new();
    let mut exports: Vec<Vec<i32>> = Vec::new();
    let mut j: usize = 0;
    while j < preset.len()
        invariant
            0 <= j <= preset@.len(),
            params.wf(),
            fill_config_ok(*params),
            preset == &params.layers_fill.values_preset,
            ref_size == params.layers_dist.layers_dist@[params.layers_dist.layers_dist@.len()
                - 1],
            ref_size > 0,
            gens@.len() == j,
            exports@.len() == j,
            forall|jj: int| 0 <= jj < j ==> #[trigger] gens@[jj] == resolved_gen(*params, jj),
            forall|jj: int| 0 <= jj < j ==> gen_wf(#[trigger] gens@[jj]),
            forall|jj: int| 0 <= jj < j ==> (#[trigger] exports@[jj])@.len() == 2,
            forall|jj: int|
                0 <= jj < j ==> (#[trigger] exports@[jj])@[0] == gen_bounds(
                    resolved_gen(*params, jj),
                ).0 && exports@[jj]@[1] == gen_bounds(resolved_gen(*params, jj)).1,
        decreases preset@.len() - j,
    {
        let entry = &preset[j];
        if entry.len() == 2 {
            let lo = entry[0];
            let hi = entry[1];
            gens.push(GenerationTypes::GenerationRange(lo, hi));
            let mut row: Vec<i32> = Vec::new();
            row.push(lo);
            row.push(hi);
            exports.push(row);
        } else {
            let v = entry[0];
            match params.layers_fill.values_deviation {
                Some(dev) => {
                    let delta64: i64 = if dev < 1_000 {
                        proof {
                            vstd::arithmetic::mul::lemma_mul_upper_bound(
                                dev as int,
                                999,
                                ref_size as int,
                                0x7fff_ffff,
                            );
                            vstd::arithmetic::mul::lemma_mul_nonnegative(
                                dev as int,
                                ref_size as int,
                            );
                        }
                        dev * ref_size as i64 / 1_000
                    } else {
                        dev / 1_000
                    };
                    let first: i32 = if delta64 > v as i64 {
                        0
                    } else {
                        (v as i64 - delta64) as i32
                    };
                    let hi: i32 = (v as i64 + delta64) as i32;
                    gens.push(GenerationTypes::GenerationRange(first, hi));
                    let mut row: Vec<i32> = Vec::new();
                    row.push(first);
                    row.push(hi);
                    exports.push(row);
                },
                None => {
                    gens.push(GenerationTypes::GenerationExact(v));
                    let mut row: Vec<i32> = Vec::new();
                    row.push(v);
                    row.push(v);
                    exports.push(row);
                },
            }
        }
        j += 1;
    }
    (gens, exports)
}

/// Fills the voxel volume and/or the layer-index mask from the borders
/// and the fill policy, returning (volume, mask, realized per-layer
/// bounds). Which outputs are produced follows the configuration
/// flags; a missing output is an empty vector.
pub fn fill(params: &Params3D, borders: &Vec<Vec<Vec<i32>>>) -> (r: (
    Vec<Vec<Vec<i32>>>,
    Vec<Vec<Vec<u8>>>,
    Vec<Vec<i32>>,
))
    requires
        params.wf(),
        fill_config_ok(*params),
        stack_wf(borders@, borders@[0]@.len() as int, borders@[0]@[0]@.len() as int),
        borders@.len() <= 255,
    ensures
        ({
            let ys = borders@[0]@.len() as int;
            let xs = borders@[0]@[0]@.len() as int;
            let zs = stack_max0(borders@);
            let plen = params.layers_fill.values_preset@.len() as int;
            &&& r.2@.len() == borders@.len()
            &&& forall|li: int| 0 <= li < r.2@.len() ==> (#[trigger] r.2@[li])@.len() == 2
            &&& params.layers_fill.is_preset_ordered ==> forall|li: int|
                0 <= li < r.2@.len() ==> (#[trigger] r.2@[li])@[0] == gen_bounds(
                    resolved_gen(*params, li % plen),
                ).0 && r.2@[li]@[1] == gen_bounds(resolved_gen(*params, li % plen)).1
            &&& !params.layers_fill.is_preset_ordered ==> exists|idxs: Seq<int>|
                #[trigger] rows_follow_walk(*params, r.2@, idxs, plen)
            &&& params.model_needed ==> {
                &&& r.0@.len() == xs
                &&& forall|x: int| 0 <= x < xs ==> (#[trigger] r.0@[x])@.len() == ys
                &&& forall|x: int, y: int|
                    0 <= x < xs && 0 <= y < ys ==> (#[trigger] r.0@[x]@[y])@.len() == zs
                &&& forall|x: int, y: int, z: int|
                    0 <= x < xs && 0 <= y < ys && 0 <= z < zs ==> {
                        let li = mask_index(column(borders@, y, x), z);
                        r.2@[li]@[0] <= #[trigger] r.0@[x]@[y]@[z] <= r.2@[li]@[1]
                    }
            }
            &&& !params.model_needed ==> r.0@.len() == 0
            &&& (params.mask_needed || !params.model_needed) ==> {
                &&& r.1@.len() == xs
                &&& forall|x: int| 0 <= x < xs ==> (#[trigger] r.1@[x])@.len() == ys
                &&& forall|x: int, y: int|
                    0 <= x < xs && 0 <= y < ys ==> (#[trigger] r.1@[x]@[y])@.len() == zs
                &&& forall|x: int, y: int, z: int|
                    0 <= x < xs && 0 <= y < ys && 0 <= z < zs ==> #[trigger] r.1@[x]@[y]@[z]
                        == mask_index(column(borders@, y, x), z)
            }
            &&& !(params.mask_needed || !params.model_needed) ==> r.1@.len() == 0
        }),
{
    let (fill_values_gen_type, export_fill_values) = resolve_fill_values(params);
    let plen = fill_values_gen_type.len();

    let n = borders.len();
    let mut new_fill_values: Vec<GenerationTypes> = Vec::new();
    let mut new_export_fill_values: Vec<Vec<i32>> = Vec::new();

    if params.layers_fill.is_preset_ordered {
        let mut i: usize = 0;
        while i < n
            invariant
                0 <= i <= n,
                plen == fill_values_gen_type@.len(),
                plen == export_fill_values@.len(),
                plen >= 1,
                params.wf(),
                fill_config_ok(*params),
                plen == params.layers_fill.values_preset@.len(),
                forall|j: int|
                    0 <= j < plen ==> #[trigger] fill_values_gen_type@[j] == resolved_gen(
                        *params,
                        j,
                    ),
                forall|j: int| 0 <= j < plen ==> gen_wf(#[trigger] fill_values_gen_type@[j]),
                forall|j: int| 0 <= j < plen ==> (#[trigger] export_fill_values@[j])@.len() == 2,
                forall|j: int|
                    0 <= j < plen ==> (#[trigger] export_fill_values@[j])@[0] == gen_bounds(
                        resolved_gen(*params, j),
                    ).0 && export_fill_values@[j]@[1] == gen_bounds(resolved_gen(*params, j)).1,
                new_fill_values@.len() == i,
                new_export_fill_values@.len() == i,
                forall|li: int|
                    0 <= li < i ==> #[trigger] new_fill_values@[li] == resolved_gen(
                        *params,
                        li % plen as int,
                    ),
                forall|li: int| 0 <= li < i ==> gen_wf(#[trigger] new_fill_values@[li]),
                forall|li: int|
                    0 <= li < i ==> (#[trigger] new_export_fill_values@[li])@.len() == 2,
                forall|li: int|
                    0 <= li < i ==> (#[trigger] new_export_fill_values@[li])@[0] == gen_bounds(
                        resolved_gen(*params, li % plen as int),
                    ).0 && new_export_fill_values@[li]@[1] == gen_bounds(
                        resolved_gen(*params, li % plen as int),
                    ).1,
                forall|li: int|
                    0 <= li < i ==> (#[trigger] new_export_fill_values@[li])@[0] == gen_bounds(
                        new_fill_values@[li],
                    ).0 && new_export_fill_values@[li]@[1] == gen_bounds(new_fill_values@[li]).1,
            decreases n - i,
        {
            let idx = i % plen;
            new_fill_values.push(fill_values_gen_type[idx]);
            let row = &export_fill_values[idx];
            let mut row2: Vec<i32> = Vec::new();
            row2.push(row[0]);
            row2.push(row[1]);
            new_export_fill_values.push(row2);
            i += 1;
        }
    } else {
        let mut last_index = random_index(plen);
        let ghost mut idxs: Seq<int> = Seq::empty();
        let mut i: usize = 0;
        while i < n
            invariant
                0 <= i <= n,
                plen == fill_values_gen_type@.len(),
                plen == export_fill_values@.len(),
                plen >= 1,
                last_index < plen,
                params.wf(),
                fill_config_ok(*params),
                plen == params.layers_fill.values_preset@.len(),
                forall|j: int|
                    0 <= j < plen ==> #[trigger] fill_values_gen_type@[j] == resolved_gen(
                        *params,
                        j,
                    ),
                forall|j: int| 0 <= j < plen ==> gen_wf(#[trigger] fill_values_gen_type@[j]),
                forall|j: int| 0 <= j < plen ==> (#[trigger] export_fill_values@[j])@.len() == 2,
                forall|j: int|
                    0 <= j < plen ==> (#[trigger] export_fill_values@[j])@[0] == gen_bounds(
                        resolved_gen(*params, j),
                    ).0 && export_fill_values@[j]@[1] == gen_bounds(resolved_gen(*params, j)).1,
                new_fill_values@.len() == i,
                new_export_fill_values@.len() == i,
                idxs.len() == i,
                i > 0 ==> idxs.last() == last_index,
                rows_follow_walk(*params, new_export_fill_values@, idxs, plen as int),
                forall|li: int| 0 <= li < i ==> gen_wf(#[trigger] new_fill_values@[li]),
                forall|li: int|
                    0 <= li < i ==> (#[trigger] new_export_fill_values@[li])@.len() == 2,
                forall|li: int|
                    0 <= li < i ==> (#[trigger] new_export_fill_values@[li])@[0] == gen_bounds(
                        new_fill_values@[li],
                    ).0 && new_export_fill_values@[li]@[1] == gen_bounds(new_fill_values@[li]).1,
            decreases n - i,
        {
            // A fresh index distinct from the previous one, uniform
            // over the remaining entries; with a single entry it is
            // that entry.
            let new_index = if plen == 1 {
                0
            } else {
                let t = random_index(plen - 1);
                if t >= last_index {
                    t + 1
                } else {
                    t
                }
            };
            new_fill_values.push(fill_values_gen_type[new_index]);
            let row = &export_fill_values[new_index];
            let mut row2: Vec<i32> = Vec::new();
            row2.push(row[0]);
            row2.push(row[1]);
            new_export_fill_values.push(row2);
            proof {
                idxs = idxs.push(new_index as int);
                assert(new_export_fill_values@[i as int]@[0] == gen_bounds(
                    resolved_gen(*params, new_index as int),
                ).0);
            }
            last_index = new_index;
            i += 1;
        }
    }

    let (model, model_mask) = if params.mask_needed && params.model_needed {
        create_full_model_with_mask(borders, &new_fill_values)
    } else if params.model_needed {
        (create_full_model_without_mask(borders, &new_fill_values), Vec::new())
    } else {
        (Vec::new(), create_only_mask(borders))
    };

    proof {
        if params.model_needed {
            let ys = borders@[0]@.len() as int;
            let xs = borders@[0]@[0]@.len() as int;
            let zs = stack_max0(borders@);
            assert forall|x: int, y: int, z: int|
                0 <= x < xs && 0 <= y < ys && 0 <= z < zs implies {
                let li = mask_index(column(borders@, y, x), z);
                new_export_fill_values@[li]@[0] <= #[trigger] model@[x]@[y]@[z]
                    <= new_export_fill_values@[li]@[1]
            } by {
                let col = column(borders@, y, x);
                lemma_mask_index_bounds(col, z);
                let li = mask_index(col, z);
                assert(gen_matches(new_fill_values@[li], model@[x]@[y]@[z]));
            }
        }
    }

    (model, model_mask, new_export_fill_values)
}

} // verus!
