//! Procedural generator for layered 3D volumetric models: stacks of
//! horizontal layers whose interfaces are irregular integer heightfields
//! over a rectangular XY grid, optionally deformed by oblique planar
//! shift operators and materialized into a dense voxel volume plus a
//! layer-index mask.
//!
//! All ground-plane coordinates are fixed-point values in thousandths
//! of a unit ("millis"): the value `1500` stands for the coordinate
//! `1.5`. Depths, fill values and layer sizes are plain integers.

use vstd::prelude::*;

pub mod model2d;
pub mod model3d;
pub mod types;

mod random_source;
pub mod text_num;

verus! {

/// Largest coordinate magnitude, in millis, that the library accepts.
/// Keeping coordinates within this bound keeps every intermediate
/// product of the fixed-point arithmetic inside `i64`.
pub const MILLI_LIMIT: i64 = 1_000_000_000_000;

/// Rounds a count of half-millis to whole millis, halves away from zero.
pub open spec fn spec_div2_round(s: int) -> int {
    if s >= 0 {
        (s + 1) / 2
    } else {
        -(((-s) + 1) / 2)
    }
}

/// Halves `s`, rounding halves away from zero: the midpoint of two
/// milli coordinates, itself expressed in millis.
pub fn div2_round(s: i64) -> (r: i64)
    requires
        -MILLI_LIMIT * 2 <= s <= MILLI_LIMIT * 2,
    ensures
        r == spec_div2_round(s as int),
{
    if s >= 0 {
        (s + 1) / 2
    } else {
        -(((-s) + 1) / 2)
    }
}

} // verus!
