//! A 2D slice of a generated model: per-sample border columns and
//! voxel columns along a traced line.

use vstd::prelude::*;

pub mod export;

use crate::types::generation_params::Params2D;

verus! {

/// One extracted 2D slice: per-sample voxel values, mask values and
/// border depths, with the slice's own axis.
#[derive(Debug, Clone)]
pub struct Model2D {
    /// Voxel values per sample; empty when the source had none.
    pub model: Vec<Vec<i32>>,
    /// Mask values per sample; empty when the source had none.
    pub model_mask: Vec<Vec<u8>>,
    /// Border depths per sample, one per layer.
    pub borders: Vec<Vec<i32>>,
    /// The slice's configuration.
    pub params: Params2D,
}

impl Model2D {
    /// Assembles a slice from its parts.
    pub fn new(
        model: Vec<Vec<i32>>,
        model_mask: Vec<Vec<u8>>,
        borders: Vec<Vec<i32>>,
        params: Params2D,
    ) -> (r: Model2D)
        ensures
            r == (Model2D { model, model_mask, borders, params }),
    {
        Model2D { model, model_mask, borders, params }
    }
}

impl Model2D {
    /// Returns the voxel values.
    pub fn model(&self) -> (r: &Vec<Vec<i32>>)
        ensures
            r == &self.model,
    {
        &self.model
    }

    /// Returns the mask values.
    pub fn model_mask(&self) -> (r: &Vec<Vec<u8>>)
        ensures
            r == &self.model_mask,
    {
        &self.model_mask
    }

    /// Returns the border depths.
    pub fn borders(&self) -> (r: &Vec<Vec<i32>>)
        ensures
            r == &self.borders,
    {
        &self.borders
    }
}

} // verus!
