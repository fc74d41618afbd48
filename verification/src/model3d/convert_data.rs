//! Extraction of 2D data from a generated 3D model: single voxel
//! columns and whole slices along explicitly resolved cell paths.

use vstd::prelude::*;

use crate::model2d::Model2D;
use crate::model3d::Model3D;
use crate::types::generation_params::Params2D;
use crate::types::Axis;

verus! {

/// Why a 2D extraction failed.
#[derive(Debug, Clone, Copy, PartialEq, Eq, Structural)]
pub enum Model2DError {
    /// The model holds no voxel volume.
    NoModel,
    /// A requested cell lies outside the volume.
    OutOfBounds,
    /// The two coordinate sequences differ in length.
    SizeMismatch,
    /// A resolved cell lies outside the model's ground grid.
    InvalidCoordinates,
    /// A slice line's angle is degenerate or its anchor lies on the
    /// wrong side of the axis.
    SliceGeometryInvalid,
}

impl Model2DError {
    /// A human-readable description of the failure.
    pub fn message(&self) -> (r: &'static str)
        ensures
            self is NoModel ==> r@ == "Model doesn't exists in object"@,
            self is OutOfBounds ==> r@ == "X or Y out of bounds"@,
            self is SizeMismatch ==> r@ == "Vectors cords_x and cords_y must be with same size"@,
            self is InvalidCoordinates ==> r@
                == "Invalid coodinates: it must be smaller than model size"@,
            self is SliceGeometryInvalid ==> r@
                == "Angle is outside (0, 180) or pos_x lies on the wrong side of the axis"@,
    {
        match self {
            Model2DError::NoModel => "Model doesn't exists in object",
            Model2DError::OutOfBounds => "X or Y out of bounds",
            Model2DError::SizeMismatch => "Vectors cords_x and cords_y must be with same size",
            Model2DError::InvalidCoordinates => {
                "Invalid coodinates: it must be smaller than model size"
            },
            Model2DError::SliceGeometryInvalid => {
                "Angle is outside (0, 180) or pos_x lies on the wrong side of the axis"
            },
        }
    }
}

impl Model3D {
    /// The voxel volume is empty or a box of `xs` columns of `ys`
    /// rows.
    pub open spec fn model_grid_ok(&self, xs: int, ys: int) -> bool {
        self.model@.len() == 0 || (self.model@.len() == xs && forall|x: int|
            0 <= x < xs ==> (#[trigger] self.model@[x])@.len() == ys)
    }

    /// The mask is empty or a box of `xs` columns of `ys` rows.
    pub open spec fn mask_grid_ok(&self, xs: int, ys: int) -> bool {
        self.model_mask@.len() == 0 || (self.model_mask@.len() == xs && forall|x: int|
            0 <= x < xs ==> (#[trigger] self.model_mask@[x])@.len() == ys)
    }

    /// The borders form a non-empty stack of `ys`-by-`xs` grids.
    pub open spec fn borders_box_ok(&self, ys: int, xs: int) -> bool {
        &&& self.borders@.len() >= 1
        &&& ys >= 1
        &&& forall|l: int| 0 <= l < self.borders@.len() ==> (#[trigger] self.borders@[l])@.len() == ys
        &&& forall|l: int, y: int|
            0 <= l < self.borders@.len() && 0 <= y < ys ==> (#[trigger] self.borders@[l]@[y])@.len()
                == xs
    }

    /// Returns a copy of the voxel column at ground cell (x, y).
    ///
    /// The bounds test rejects a coordinate only when it lies strictly
    /// past the size, so the sizes themselves are excluded up front by
    /// the caller.
    pub fn get_by_num(&self, x: usize, y: usize) -> (r: Result<Vec<i32>, Model2DError>)
        requires
            self.model@.len() > 0 ==> {
                &&& x != self.model@.len()
                &&& forall|xx: int|
                    0 <= xx < self.model@.len() ==> (#[trigger] self.model@[xx])@.len()
                        == self.model@[0]@.len()
                &&& y != self.model@[0]@.len()
            },
        ensures
            r == Err::<Vec<i32>, Model2DError>(Model2DError::NoModel) <==> self.model@.len() == 0,
            self.model@.len() > 0 ==> (r == Err::<Vec<i32>, Model2DError>(Model2DError::OutOfBounds)
                <==> (self.model@.len() < x || self.model@[0]@.len() < y)),
            r is Ok <==> (self.model@.len() > 0 && !(self.model@.len() < x
                || self.model@[0]@.len() < y)),
            r matches Ok(v) ==> {
                &&& x < self.model@.len()
                &&& y < self.model@[x as int]@.len()
                &&& v@ == self.model@[x as int]@[y as int]@
            },
    {
        if self.model.len() == 0 {
            return Err(Model2DError::NoModel);
        }
        if self.model.len() < x || self.model[0].len() < y {
            return Err(Model2DError::OutOfBounds);
        }

        let col = &self.model[x][y];
        let mut out: Vec<i32> = Vec::new();
        let mut z: usize = 0;
        while z < col.len()
            invariant
                0 <= z <= col@.len(),
                out@.len() == z,
                forall|k: int| 0 <= k < z ==> #[trigger] out@[k] == col@[k],
            decreases col@.len() - z,
        {
            out.push(col[z]);
            z += 1;
        }
        proof {
            assert(out@ =~= col@);
        }
        Ok(out)
    }

    /// Gathers the border, voxel and mask columns of the resolved
    /// cells (nums_x[i], nums_y[i]) into a 2D slice whose axis counts
    /// the samples.
    pub fn form_2d_by_nums(&self, nums_x: Vec<usize>, nums_y: Vec<usize>) -> (r: Result<
        Model2D,
        Model2DError,
    >)
        requires
            self.borders_box_ok(self.borders@[0]@.len() as int, self.borders@[0]@[0]@.len() as int),
            self.model_grid_ok(
                self.borders@[0]@[0]@.len() as int,
                self.borders@[0]@.len() as int,
            ),
            self.mask_grid_ok(self.borders@[0]@[0]@.len() as int, self.borders@[0]@.len() as int),
            2 <= nums_x@.len() <= 1_000_000_000,
        ensures
            r == Err::<Model2D, Model2DError>(Model2DError::SizeMismatch) <==> nums_x@.len()
                != nums_y@.len(),
            nums_x@.len() == nums_y@.len() ==> (r == Err::<Model2D, Model2DError>(
                Model2DError::InvalidCoordinates,
            ) <==> exists|i: int|
                0 <= i < nums_x@.len() && (#[trigger] nums_y@[i] >= self.borders@[0]@.len()
                    || #[trigger] nums_x@[i] >= self.borders@[0]@[0]@.len())),
            r is Ok <==> (nums_x@.len() == nums_y@.len() && forall|i: int|
                0 <= i < nums_x@.len() ==> #[trigger] nums_y@[i] < self.borders@[0]@.len()
                    && #[trigger] nums_x@[i] < self.borders@[0]@[0]@.len()),
            r matches Ok(m2) ==> {
                let n = nums_x@.len() as int;
                let zs = self.borders@.len() as int;
                &&& nums_x@.len() == nums_y@.len()
                &&& forall|i: int|
                    0 <= i < n ==> nums_y@[i] < self.borders@[0]@.len() && nums_x@[i]
                        < self.borders@[0]@[0]@.len()
                &&& m2.borders@.len() == n
                &&& forall|i: int| 0 <= i < n ==> (#[trigger] m2.borders@[i])@.len() == zs
                &&& forall|i: int, l: int|
                    0 <= i < n && 0 <= l < zs ==> #[trigger] m2.borders@[i]@[l]
                        == self.borders@[l]@[nums_y@[i] as int]@[nums_x@[i] as int]
                &&& self.model@.len() > 0 ==> m2.model@.len() == n && forall|i: int|
                    0 <= i < n ==> (#[trigger] m2.model@[i])@
                        == self.model@[nums_x@[i] as int]@[nums_y@[i] as int]@
                &&& self.model@.len() == 0 ==> m2.model@.len() == 0
                &&& self.model_mask@.len() > 0 ==> m2.model_mask@.len() == n && forall|i: int|
                    0 <= i < n ==> (#[trigger] m2.model_mask@[i])@
                        == self.model_mask@[nums_x@[i] as int]@[nums_y@[i] as int]@
                &&& self.model_mask@.len() == 0 ==> m2.model_mask@.len() == 0
                &&& m2.params.x_ax.wf()
                &&& m2.params.x_ax.blocks_count == n - 1
                &&& m2.params.x_ax.axis@.len() == n
                &&& forall|k: int| 0 <= k < n ==> #[trigger] m2.params.x_ax.axis@[k] == 1000 * k
            },
    {
        if nums_x.len() != nums_y.len() {
            return Err(Model2DError::SizeMismatch);
        }

        let n = nums_x.len();
        let source_model_size_y = self.borders[0].len();
        let source_model_size_x = self.borders[0][0].len();
        let borders_model_size_z = self.borders.len();

        let model_ex: bool = self.model.len() > 0;
        let mask_ex: bool = self.model_mask.len() > 0;

        let mut borders: Vec<Vec<i32>> = Vec::new();
        let mut model: Vec<Vec<i32>> = Vec::new();
        let mut model_mask: Vec<Vec<u8>> = Vec::new();
        let mut x_ax: Vec<i64> = Vec::new();

        let mut num: usize = 0;
        while num < n
            invariant
                0 <= num <= n,
                n == nums_x@.len(),
                n == nums_y@.len(),
                2 <= n <= 1_000_000_000,
                source_model_size_y == self.borders@[0]@.len(),
                source_model_size_x == self.borders@[0]@[0]@.len(),
                borders_model_size_z == self.borders@.len(),
                self.borders_box_ok(source_model_size_y as int, source_model_size_x as int),
                self.model_grid_ok(source_model_size_x as int, source_model_size_y as int),
                self.mask_grid_ok(source_model_size_x as int, source_model_size_y as int),
                model_ex <==> self.model@.len() > 0,
                mask_ex <==> self.model_mask@.len() > 0,
                forall|i: int|
                    0 <= i < num ==> nums_y@[i] < source_model_size_y && nums_x@[i]
                        < source_model_size_x,
                borders@.len() == num,
                forall|i: int|
                    0 <= i < num ==> (#[trigger] borders@[i])@.len() == borders_model_size_z,
                forall|i: int, l: int|
                    0 <= i < num && 0 <= l < borders_model_size_z ==> #[trigger] borders@[i]@[l]
                        == self.borders@[l]@[nums_y@[i] as int]@[nums_x@[i] as int],
                model_ex ==> model@.len() == num && forall|i: int|
                    0 <= i < num ==> (#[trigger] model@[i])@
                        == self.model@[nums_x@[i] as int]@[nums_y@[i] as int]@,
                !model_ex ==> model@.len() == 0,
                mask_ex ==> model_mask@.len() == num && forall|i: int|
                    0 <= i < num ==> (#[trigger] model_mask@[i])@
                        == self.model_mask@[nums_x@[i] as int]@[nums_y@[i] as int]@,
                !mask_ex ==> model_mask@.len() == 0,
                x_ax@.len() == num,
                forall|i: int| 0 <= i < num ==> #[trigger] x_ax@[i] == 1000 * i,
            decreases n - num,
        {
            let x_num = nums_x[num];
            let y_num = nums_y[num];

            if y_num >= source_model_size_y || x_num >= source_model_size_x {
                proof {
                    assert(nums_y@[num as int] >= self.borders@[0]@.len() || nums_x@[num as int]
                        >= self.borders@[0]@[0]@.len());
                }
                return Err(Model2DError::InvalidCoordinates);
            }

            x_ax.push((num as i64) * 1000);

            let mut borders_temp_vec: Vec<i32> = Vec::new();
            let mut l: usize = 0;
            while l < borders_model_size_z
                invariant
                    0 <= l <= borders_model_size_z,
                    borders_model_size_z == self.borders@.len(),
                    self.borders_box_ok(source_model_size_y as int, source_model_size_x as int),
                    source_model_size_y == self.borders@[0]@.len(),
                    source_model_size_x == self.borders@[0]@[0]@.len(),
                    y_num < source_model_size_y,
                    x_num < source_model_size_x,
                    borders_temp_vec@.len() == l,
                    forall|k: int|
                        0 <= k < l ==> #[trigger] borders_temp_vec@[k]
                            == self.borders@[k]@[y_num as int]@[x_num as int],
                decreases borders_model_size_z - l,
            {
                borders_temp_vec.push(self.borders[l][y_num][x_num]);
                l += 1;
            }
            borders.push(borders_temp_vec);

            if model_ex {
                let col = &self.model[x_num][y_num];
                let mut out: Vec<i32> = Vec::new();
                let mut z: usize = 0;
                while z < col.len()
                    invariant
                        0 <= z <= col@.len(),
                        out@.len() == z,
                        forall|k: int| 0 <= k < z ==> #[trigger] out@[k] == col@[k],
                    decreases col@.len() - z,
                {
                    out.push(col[z]);
                    z += 1;
                }
                proof {
                    assert(out@ =~= col@);
                }
                model.push(out);
            }

            if mask_ex {
                let col = &self.model_mask[x_num][y_num];
                let mut out: Vec<u8> = Vec::new();
                let mut z: usize = 0;
                while z < col.len()
                    invariant
                        0 <= z <= col@.len(),
                        out@.len() == z,
                        forall|k: int| 0 <= k < z ==> #[trigger] out@[k] == col@[k],
                    decreases col@.len() - z,
                {
                    out.push(col[z]);
                    z += 1;
                }
                proof {
                    assert(out@ =~= col@);
                }
                model_mask.push(out);
            }

            num += 1;
        }

        let mut params = Params2D::new();
        let axis = match Axis::create_from_edges(x_ax) {
            Ok(ax) => ax,
            Err(_) => {
                proof {
                    assert(false);
                }
                return Err(Model2DError::InvalidCoordinates);
            },
        };
        params.set_x_axis(axis);

        Ok(Model2D::new(model, model_mask, borders, params))
    }
}

} // verus!
