//! The aggregate configuration of a generation run.

use vstd::prelude::*;

use crate::types::Axis;
use crate::types::LayersBorder;
use crate::types::LayersDist;
use crate::types::LayersFill;
use crate::types::shifts::Shift3D;

verus! {

/// Everything a 3D generation run needs: the two ground axes, the
/// layer profile, the border and fill policies, the shifts to apply
/// in order, and which outputs to materialize.
#[derive(Debug, Clone)]
pub struct Params3D {
    /// Partition of the ground plane along X.
    pub x_ax: Axis,
    /// Partition of the ground plane along Y.
    pub y_ax: Axis,
    /// Nominal layer thicknesses.
    pub layers_dist: LayersDist,
    /// Border generation policy.
    pub layers_border: LayersBorder,
    /// Fill value policy.
    pub layers_fill: LayersFill,
    /// Deformations, applied in insertion order.
    pub shifts: Vec<Shift3D>,
    /// Whether the dense value volume is produced.
    pub model_needed: bool,
    /// Whether the layer-index mask is produced.
    pub mask_needed: bool,
    /// Reserved depth scaling factor, in millis; a passthrough.
    pub depth_scale: i64,
}

/// The configuration a 2D slice carries: its X axis.
#[derive(Debug, Clone)]
pub struct Params2D {
    /// Partition of the slice along X.
    pub x_ax: Axis,
}

impl Params3D {
    /// Well-formedness of every component.
    pub open spec fn wf(&self) -> bool {
        &&& self.x_ax.wf()
        &&& self.y_ax.wf()
        &&& self.layers_dist.wf()
        &&& self.layers_border.wf()
        &&& self.layers_fill.wf()
        &&& forall|i: int| 0 <= i < self.shifts@.len() ==> (#[trigger] self.shifts@[i]).wf()
    }

    /// The default configuration: default components, no shifts, both
    /// outputs, unit depth scale.
    pub fn new() -> (r: Params3D)
        ensures
            r.wf(),
            r.shifts@.len() == 0,
            r.model_needed,
            r.mask_needed,
            r.depth_scale == 1_000,
    {
        Params3D {
            x_ax: Axis::new(),
            y_ax: Axis::new(),
            layers_dist: LayersDist::new(),
            layers_border: LayersBorder::new(),
            layers_fill: LayersFill::new(),
            shifts: Vec::new(),
            model_needed: true,
            mask_needed: true,
            depth_scale: 1_000,
        }
    }

    /// Replaces the X axis.
    pub fn set_x_axis(&mut self, axis: Axis)
        ensures
            *final(self) == (Params3D { x_ax: axis, ..*old(self) }),
    {
        self.x_ax = axis;
    }

    /// Returns the X axis.
    pub fn x_axis(&self) -> (r: &Axis)
        ensures
            r == &self.x_ax,
    {
        &self.x_ax
    }

    /// Replaces the Y axis.
    pub fn set_y_axis(&mut self, axis: Axis)
        ensures
            *final(self) == (Params3D { y_ax: axis, ..*old(self) }),
    {
        self.y_ax = axis;
    }

    /// Returns the Y axis.
    pub fn y_axis(&self) -> (r: &Axis)
        ensures
            r == &self.y_ax,
    {
        &self.y_ax
    }

    /// Replaces the layer profile.
    pub fn set_layers_dist(&mut self, layers: LayersDist)
        ensures
            *final(self) == (Params3D { layers_dist: layers, ..*old(self) }),
    {
        self.layers_dist = layers;
    }

    /// Returns the layer profile.
    pub fn layers_dist(&self) -> (r: &LayersDist)
        ensures
            r == &self.layers_dist,
    {
        &self.layers_dist
    }

    /// Replaces the border policy.
    pub fn set_layers_border(&mut self, layers_border: LayersBorder)
        ensures
            *final(self) == (Params3D { layers_border, ..*old(self) }),
    {
        self.layers_border = layers_border;
    }

    /// Returns the border policy.
    pub fn layers_border(&self) -> (r: &LayersBorder)
        ensures
            r == &self.layers_border,
    {
        &self.layers_border
    }

    /// Replaces the fill policy.
    pub fn set_layers_fill(&mut self, layers_fill: LayersFill)
        ensures
            *final(self) == (Params3D { layers_fill, ..*old(self) }),
    {
        self.layers_fill = layers_fill;
    }

    /// Returns the fill policy.
    pub fn layers_fill(&self) -> (r: &LayersFill)
        ensures
            r == &self.layers_fill,
    {
        &self.layers_fill
    }

    /// Appends a shift; shifts apply in insertion order.
    pub fn add_shift(&mut self, shift: Shift3D)
        ensures
            final(self).shifts@ == old(self).shifts@.push(shift),
            *final(self) == (Params3D { shifts: final(self).shifts, ..*old(self) }),
    {
        self.shifts.push(shift);
    }

    /// Returns the shifts in application order.
    pub fn shifts(&self) -> (r: &Vec<Shift3D>)
        ensures
            r == &self.shifts,
    {
        &self.shifts
    }

    /// Sets whether the dense value volume is produced.
    pub fn set_model_needed(&mut self, is_full_model: bool)
        ensures
            *final(self) == (Params3D { model_needed: is_full_model, ..*old(self) }),
    {
        self.model_needed = is_full_model;
    }

    /// Returns whether the dense value volume is produced.
    pub fn model_needed(&self) -> (r: bool)
        ensures
            r == self.model_needed,
    {
        self.model_needed
    }

    /// Sets whether the layer-index mask is produced.
    pub fn set_mask_needed(&mut self, is_mask: bool)
        ensures
            *final(self) == (Params3D { mask_needed: is_mask, ..*old(self) }),
    {
        self.mask_needed = is_mask;
    }

    /// Returns whether the layer-index mask is produced.
    pub fn mask_needed(&self) -> (r: bool)
        ensures
            r == self.mask_needed,
    {
        self.mask_needed
    }

    /// Sets the reserved depth scale, in millis.
    pub fn set_depth_scale(&mut self, depth_scale: i64)
        ensures
            *final(self) == (Params3D { depth_scale, ..*old(self) }),
    {
        self.depth_scale = depth_scale;
    }

    /// Returns the reserved depth scale, in millis.
    pub fn depth_scale(&self) -> (r: i64)
        ensures
            r == self.depth_scale,
    {
        self.depth_scale
    }
}

impl Default for Params3D {
    /// The default configuration of [`Params3D::new`].
    fn default() -> (r: Self)
        ensures
            r.wf(),
    {
        Self::new()
    }
}

impl Params2D {
    /// A 2D configuration around the default axis.
    pub fn new() -> (r: Params2D)
        ensures
            r.x_ax.wf(),
    {
        Params2D { x_ax: Axis::new() }
    }

    /// Replaces the X axis.
    pub fn set_x_axis(&mut self, axis: Axis)
        ensures
            *final(self) == (Params2D { x_ax: axis }),
    {
        self.x_ax = axis;
    }

    /// Returns the X axis.
    pub fn x_axis(&self) -> (r: &Axis)
        ensures
            r == &self.x_ax,
    {
        &self.x_ax
    }
}

impl Default for Params2D {
    /// The default configuration of [`Params2D::new`].
    fn default() -> (r: Self)
        ensures
            r.x_ax.wf(),
    {
        Self::new()
    }
}

} // verus!
