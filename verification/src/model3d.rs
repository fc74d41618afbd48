//! The 3D model pipeline: border generation, shift application, voxel
//! fill, and the aggregate result.

use vstd::prelude::*;

pub mod borders3d;
pub mod convert_data;
pub mod export;
pub mod fill3d;
pub mod shifts3d;

use crate::model3d::borders3d::borders_config_ok;
use crate::model3d::borders3d::create_layers_borders_3d;
use crate::model3d::borders3d::grid_in_range;
use crate::model3d::borders3d::grid_smooth;
use crate::model3d::borders3d::mod_callable;
use crate::model3d::borders3d::mod_output_bounded;
use crate::model3d::borders3d::spec_layer_limits;
use crate::model3d::fill3d::column;
use crate::model3d::fill3d::rows_follow_walk;
use crate::model3d::fill3d::fill;
use crate::model3d::fill3d::fill_config_ok;
use crate::model3d::fill3d::gen_bounds;
use crate::model3d::fill3d::lemma_stack_max0_ge;
use crate::model3d::fill3d::lemma_stack_max0_nonneg;
use crate::model3d::fill3d::mask_index;
use crate::model3d::fill3d::resolved_gen;
use crate::model3d::fill3d::stack_max0;
use crate::model3d::shifts3d::add_shift;
use crate::model3d::shifts3d::borders_match_axes;
use crate::model3d::shifts3d::ShiftGeometry;
use crate::types::generation_params::Params3D;
use crate::types::layers_borders_gen::BorderError;

verus! {

/// The result of a generation run: the borders, the optional voxel
/// volume and mask, the realized per-layer fill bounds, the depth
/// extent, and the originating configuration.
#[derive(Debug, Clone)]
pub struct Model3D {
    /// The voxel value volume `M[x][y][z]`; empty when not requested.
    pub model: Vec<Vec<Vec<i32>>>,
    /// The layer-index mask `K[x][y][z]`; empty when not requested.
    pub model_mask: Vec<Vec<Vec<u8>>>,
    /// The interface heightfields `B[L][y][x]` after all shifts.
    pub borders: Vec<Vec<Vec<i32>>>,
    /// The realized inclusive fill bounds, one `[low, high]` per layer.
    pub layers_filling_values: Vec<Vec<i32>>,
    /// The largest depth occurring anywhere in the borders.
    pub max_depth: i32,
    /// The configuration the model was generated from.
    pub params: Params3D,
}

impl Model3D {
    /// Assembles a model from its parts.
    pub fn new(
        model: Vec<Vec<Vec<i32>>>,
        model_mask: Vec<Vec<Vec<u8>>>,
        borders: Vec<Vec<Vec<i32>>>,
        layers_filling_values: Vec<Vec<i32>>,
        max_depth: i32,
        params: Params3D,
    ) -> (r: Model3D)
        ensures
            r == (Model3D { model, model_mask, borders, layers_filling_values, max_depth, params }),
    {
        Model3D { model, model_mask, borders, layers_filling_values, max_depth, params }
    }
}

impl Model3D {
    /// Returns the voxel value volume.
    pub fn model(&self) -> (r: &Vec<Vec<Vec<i32>>>)
        ensures
            r == &self.model,
    {
        &self.model
    }

    /// Returns the layer-index mask.
    pub fn model_mask(&self) -> (r: &Vec<Vec<Vec<u8>>>)
        ensures
            r == &self.model_mask,
    {
        &self.model_mask
    }

    /// Returns the interface heightfields.
    pub fn borders(&self) -> (r: &Vec<Vec<Vec<i32>>>)
        ensures
            r == &self.borders,
    {
        &self.borders
    }

    /// Returns the realized per-layer fill bounds.
    pub fn layers_filling_values(&self) -> (r: &Vec<Vec<i32>>)
        ensures
            r == &self.layers_filling_values,
    {
        &self.layers_filling_values
    }

    /// Returns the depth extent.
    pub fn max_depth(&self) -> (r: i32)
        ensures
            r == self.max_depth,
    {
        self.max_depth
    }

    /// Returns the originating configuration.
    pub fn params(&self) -> (r: &Params3D)
        ensures
            r == &self.params,
    {
        &self.params
    }
}

/// The largest depth occurring anywhere in a border stack, floored at
/// zero.
pub fn get_max_depth(borders: &Vec<Vec<Vec<i32>>>) -> (r: i32)
    ensures
        r == stack_max0(borders@),
{
    let mut max_elem: i32 = 0;
    let mut l: usize = 0;
    proof {
        assert(borders@.subrange(0, 0) =~= Seq::<Vec<Vec<i32>>>::empty());
    }
    while l < borders.len()
        invariant
            0 <= l <= borders@.len(),
            max_elem == stack_max0(borders@.subrange(0, l as int)),
        decreases borders@.len() - l,
    {
        let grid = &borders[l];
        let mut y: usize = 0;
        let mut grid_m: i32 = 0;
        proof {
            assert(grid@.subrange(0, 0) =~= Seq::<Vec<i32>>::empty());
        }
        while y < grid.len()
            invariant
                0 <= y <= grid@.len(),
                grid_m == crate::model3d::fill3d::grid_max0(grid@.subrange(0, y as int)),
            decreases grid@.len() - y,
        {
            let row = &grid[y];
            let mut x: usize = 0;
            let mut row_m: i32 = 0;
            proof {
                assert(row@.subrange(0, 0) =~= Seq::<i32>::empty());
            }
            while x < row.len()
                invariant
                    0 <= x <= row@.len(),
                    row_m == crate::model3d::fill3d::row_max0(row@.subrange(0, x as int)),
                decreases row@.len() - x,
            {
                proof {
                    assert(row@.subrange(0, x + 1).drop_last() =~= row@.subrange(0, x as int));
                    assert(row@.subrange(0, x + 1).last() == row@[x as int]);
                }
                if row[x] > row_m {
                    row_m = row[x];
                }
                x += 1;
            }
            proof {
                assert(row@.subrange(0, row@.len() as int) =~= row@);
                assert(grid@.subrange(0, y + 1).drop_last() =~= grid@.subrange(0, y as int));
                assert(grid@.subrange(0, y + 1).last() == grid@[y as int]);
            }
            if row_m > grid_m {
                grid_m = row_m;
            }
            y += 1;
        }
        proof {
            assert(grid@.subrange(0, grid@.len() as int) =~= grid@);
            assert(borders@.subrange(0, l + 1).drop_last() =~= borders@.subrange(0, l as int));
            assert(borders@.subrange(0, l + 1).last() == borders@[l as int]);
        }
        if grid_m > max_elem {
            max_elem = grid_m;
        }
        l += 1;
    }
    proof {
        assert(borders@.subrange(0, borders@.len() as int) =~= borders@);
    }
    max_elem
}

/// Runs the whole pipeline: generates the borders, applies every
/// shift in insertion order with its precomputed geometry, fills the
/// requested outputs, and assembles the model.
pub fn generate_model<F: Fn(usize, usize, usize, i32) -> i32>(
    params: Params3D,
    border_mod: Option<F>,
    shift_geometries: &Vec<ShiftGeometry>,
) -> (r: Result<Model3D, BorderError>)
    requires
        params.wf(),
        borders_config_ok(params),
        params.model_needed || params.mask_needed ==> fill_config_ok(params),
        shift_geometries@.len() == params.shifts@.len(),
        forall|i: int|
            0 <= i < shift_geometries@.len() ==> (#[trigger] shift_geometries@[i]).wf(params),
        border_mod matches Some(f) ==> {
            &&& mod_callable(f)
            &&& mod_output_bounded(f)
            &&& forall|l: int|
                0 <= l < params.layers_dist.layers_dist@.len()
                    ==> (#[trigger] spec_layer_limits(params, l)).1 <= 0x3fff_ffff
        },
    ensures
        r is Err <==> params.layers_border.border_type@ != "random"@,
        r is Err ==> r == Err::<Model3D, BorderError>(BorderError::InvalidBorderType),
        r matches Ok(m) ==> {
            let ys = params.y_ax.blocks_count as int;
            let xs = params.x_ax.blocks_count as int;
            let zs = stack_max0(m.borders@);
            let plen = params.layers_fill.values_preset@.len() as int;
            &&& m.params == params
            &&& m.borders@.len() == params.layers_dist.layers_dist@.len()
            &&& borders_match_axes(m.borders@, params)
            &&& m.max_depth >= 0
            &&& forall|l: int, y: int, x: int|
                0 <= l < m.borders@.len() && 0 <= y < ys && 0 <= x < xs
                    ==> #[trigger] m.borders@[l]@[y]@[x] <= m.max_depth
            &&& params.shifts@.len() == 0 ==> m.max_depth == stack_max0(m.borders@)
            &&& (params.shifts@.len() == 0 && border_mod is None) ==> forall|l: int|
                0 <= l < m.borders@.len() ==> grid_in_range(
                    (#[trigger] m.borders@[l])@,
                    spec_layer_limits(params, l).0,
                    spec_layer_limits(params, l).1,
                )
            &&& (params.shifts@.len() == 0 && border_mod is None) ==> (
            match params.layers_border.border_max_step {
                Some(s) => forall|l: int|
                    0 <= l < m.borders@.len() ==> grid_smooth((#[trigger] m.borders@[l])@, s as int),
                None => true,
            })
            &&& (params.model_needed || params.mask_needed) ==> {
                &&& m.layers_filling_values@.len() == m.borders@.len()
                &&& forall|li: int|
                    0 <= li < m.layers_filling_values@.len() ==> (
                    #[trigger] m.layers_filling_values@[li])@.len() == 2
                &&& params.layers_fill.is_preset_ordered ==> forall|li: int|
                    0 <= li < m.layers_filling_values@.len() ==> (
                    #[trigger] m.layers_filling_values@[li])@[0] == gen_bounds(
                        resolved_gen(params, li % plen),
                    ).0 && m.layers_filling_values@[li]@[1] == gen_bounds(
                        resolved_gen(params, li % plen),
                    ).1
                &&& !params.layers_fill.is_preset_ordered ==> exists|idxs: Seq<int>|
                    #[trigger] rows_follow_walk(params, m.layers_filling_values@, idxs, plen)
            }
            &&& !(params.model_needed || params.mask_needed) ==> {
                m.layers_filling_values@.len() == 0 && m.model@.len() == 0 && m.model_mask@.len()
                    == 0
            }
            &&& params.model_needed ==> {
                &&& m.model@.len() == xs
                &&& forall|x: int| 0 <= x < xs ==> (#[trigger] m.model@[x])@.len() == ys
                &&& forall|x: int, y: int|
                    0 <= x < xs && 0 <= y < ys ==> (#[trigger] m.model@[x]@[y])@.len() == zs
                &&& forall|x: int, y: int, z: int|
                    0 <= x < xs && 0 <= y < ys && 0 <= z < zs ==> {
                        let li = mask_index(column(m.borders@, y, x), z);
                        m.layers_filling_values@[li]@[0] <= #[trigger] m.model@[x]@[y]@[z]
                            <= m.layers_filling_values@[li]@[1]
                    }
            }
            &&& !params.model_needed ==> m.model@.len() == 0
            &&& params.model_needed && !params.mask_needed ==> m.model_mask@.len() == 0
            &&& ((params.model_needed || params.mask_needed) && (params.mask_needed
                || !params.model_needed)) ==> {
                &&& m.model_mask@.len() == xs
                &&& forall|x: int| 0 <= x < xs ==> (#[trigger] m.model_mask@[x])@.len() == ys
                &&& forall|x: int, y: int|
                    0 <= x < xs && 0 <= y < ys ==> (#[trigger] m.model_mask@[x]@[y])@.len() == zs
                &&& forall|x: int, y: int, z: int|
                    0 <= x < xs && 0 <= y < ys && 0 <= z < zs ==> #[trigger] m.model_mask@[x]@[y]@[z]
                        == mask_index(column(m.borders@, y, x), z)
            }
        },
{
    let mut borders = match create_layers_borders_3d(&params, border_mod) {
        Ok(b) => b,
        Err(e) => {
            return Err(e);
        },
    };
    let mut max_depth = get_max_depth(&borders);
    proof {
        lemma_stack_max0_nonneg(borders@);
        assert forall|l: int, y: int, x: int|
            0 <= l < borders@.len() && 0 <= y < borders@[l]@.len() && 0 <= x
                < borders@[l]@[y]@.len() implies #[trigger] borders@[l]@[y]@[x] <= max_depth by {
            lemma_stack_max0_ge(borders@, l, y, x);
        }
    }

    let ghost pre_shift_borders = borders@;
    let shifts_total = params.shifts.len();
    let mut i: usize = 0;
    while i < shifts_total
        invariant
            0 <= i <= shifts_total,
            shifts_total == 0 ==> borders@ == pre_shift_borders,
            shifts_total == 0 ==> max_depth == stack_max0(pre_shift_borders),
            params.wf(),
            shifts_total == params.shifts@.len(),
            shift_geometries@.len() == params.shifts@.len(),
            forall|k: int|
                0 <= k < shift_geometries@.len() ==> (#[trigger] shift_geometries@[k]).wf(params),
            borders@.len() == params.layers_dist.layers_dist@.len(),
            borders_match_axes(borders@, params),
            max_depth >= 0,
            forall|l: int, y: int, x: int|
                0 <= l < borders@.len() && 0 <= y < borders@[l]@.len() && 0 <= x
                    < borders@[l]@[y]@.len() ==> #[trigger] borders@[l]@[y]@[x] <= max_depth,
        decreases shifts_total - i,
    {
        add_shift(&params, &mut borders, &params.shifts[i], &shift_geometries[i], &mut max_depth);
        i += 1;
    }

    let (model, model_mask, fill_values) = if params.model_needed() || params.mask_needed() {
        fill(&params, &borders)
    } else {
        (Vec::new(), Vec::new(), Vec::new())
    };

    let final_model = Model3D::new(model, model_mask, borders, fill_values, max_depth, params);
    Ok(final_model)
}

} // verus!
