//! Configuration and value types shared by the generation pipeline.

use vstd::prelude::*;

pub mod axis;
pub mod default_layers_dist;
pub mod generation_params;
pub mod layers_borders_gen;
pub mod layers_filling_gen;
pub mod shifts;

verus! {


/// How an axis is rendered for a serialization sink.
#[derive(Debug, Clone)]
pub enum AxisExportType {
    /// Block indices `0..blocks_count`.
    AsNum,
    /// The edge coordinates themselves.
    AsSelf,
    /// Edge coordinates scaled by a constant factor, in millis.
    Scale(i64),
    /// An explicit externally provided edges sequence, in millis.
    CustomAxis(Vec<i64>),
}

/// A 1D partition of an interval into contiguous blocks. All
/// coordinates are in millis (thousandths of a unit); `axis` holds the
/// `blocks_count + 1` block edges and `centers` the block midpoints.
#[derive(Debug, Clone)]
pub struct Axis {
    /// Coordinate of the beginning of the first block.
    pub start: i64,
    /// Coordinate of the end of the last block.
    pub end: i64,
    /// Step between consecutive edges, when the axis was generated.
    pub step: Option<i64>,
    /// Number of blocks; one less than the number of edges.
    pub blocks_count: usize,
    /// Coordinates of the block centers.
    pub centers: Vec<i64>,
    /// Coordinates of the block edges.
    pub axis: Vec<i64>,
}

/// The nominal thickness profile of the model's layers: per-layer
/// thicknesses and their prefix sums (the nominal interface depths).
#[derive(Debug, Clone)]
pub struct LayersDist {
    /// Number of layers; equals `layers_dist.len()`.
    pub layers_num: u8,
    /// The largest layer size: of the elements for an explicit profile,
    /// of the allowed range for a generated one.
    pub max_layer_size: i32,
    /// The smallest layer size, likewise.
    pub min_layer_size: i32,
    /// The sum of all layer sizes.
    pub layers_sum: i32,
    /// The per-layer sizes, each positive.
    pub layers_dist: Vec<i32>,
    /// Prefix sums of `layers_dist`: the nominal depth of each
    /// interface.
    pub layers_dist_summed: Vec<i32>,
}

/// Generation policy for the interface heightfields: how far borders
/// may deviate from their nominal depths and how abruptly they may
/// step between neighboring cells.
#[derive(Debug, Clone)]
pub struct LayersBorder {
    /// Allowed deviation from the nominal depth, in millis: a whole
    /// number of depth units when at least one unit, else a fraction
    /// of the last layer's size.
    pub border_deviation: i64,
    /// The border generation algorithm; only "random" is known.
    pub border_type: String,
    /// Largest allowed difference between 4-neighboring cells.
    pub border_max_step: Option<i32>,
    /// Reserved probability knob, in millis of probability.
    pub border_step_prob: Option<i64>,
    /// Reserved flag: reuse one pattern for all layers.
    pub borders_same_pattern: bool,
    /// Explicit per-layer depth ranges, overriding the deviation.
    pub deviation_override: Option<Vec<[i32; 2]>>,
}

/// Per-layer fill value policy: each preset entry is either an exact
/// value or an inclusive range.
#[derive(Debug, Clone)]
pub struct LayersFill {
    /// One or two values per entry: `[exact]` or `[low, high]`.
    pub values_preset: Vec<Vec<i32>>,
    /// Whether layers take preset entries in order (cyclically) or by
    /// a random walk that never repeats an entry.
    pub is_preset_ordered: bool,
    /// Optional deviation around exact values, in millis: a whole
    /// number of value units when at least one unit, else a fraction
    /// of the last layer's size.
    pub values_deviation: Option<i64>,
    /// Reserved; not consulted by the generator.
    pub values_smooth: Option<u32>,
    /// Reserved; not consulted by the generator.
    pub values_offset: Option<u32>,
}

} // verus!
