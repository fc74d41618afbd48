//! Setters and queries of [`LayersFill`], the fill value policy.

use vstd::prelude::*;

use crate::types::LayersFill;

verus! {

/// Why a fill configuration was rejected.
#[derive(Debug, Clone, Copy, PartialEq, Eq, Structural)]
pub enum FillError {
    /// The preset holds no entry.
    EmptyPreset,
    /// A preset entry holds no value or more than two.
    MalformedSpec,
    /// The deviation is zero or negative.
    NonPositiveDeviation,
}

impl FillError {
    /// A human-readable description of the failure.
    pub fn message(&self) -> (r: &'static str)
        ensures
            self is EmptyPreset ==> r@ == "Vector must contain at least one element"@,
            self is MalformedSpec ==> r@ == "Every sub vector can contain only 1 or 2 elements"@,
            self is NonPositiveDeviation ==> r@ == "deviation must be positive"@,
    {
        match self {
            FillError::EmptyPreset => "Vector must contain at least one element",
            FillError::MalformedSpec => "Every sub vector can contain only 1 or 2 elements",
            FillError::NonPositiveDeviation => "deviation must be positive",
        }
    }
}

impl LayersFill {
    /// Well-formedness: at least one preset entry, each of one or two
    /// values, and a positive deviation when one is set.
    pub open spec fn wf(&self) -> bool {
        &&& self.values_preset@.len() >= 1
        &&& forall|i: int|
            0 <= i < self.values_preset@.len() ==> 1 <= (#[trigger] self.values_preset@[i])@.len()
                <= 2
        &&& (self.values_deviation matches Some(d) ==> d > 0)
    }

    /// The default policy: three ordered entries, the last a range.
    pub fn new() -> (r: LayersFill)
        ensures
            r.wf(),
            r.values_preset@.len() == 3,
            r.values_preset@[0]@ =~= seq![100i32],
            r.values_preset@[1]@ =~= seq![200i32],
            r.values_preset@[2]@ =~= seq![300i32, 330i32],
            r.is_preset_ordered,
            r.values_deviation is None,
            r.values_smooth is None,
            r.values_offset is None,
    {
        let mut values_preset: Vec<Vec<i32>> = Vec::new();
        values_preset.push(vec![100]);
        values_preset.push(vec![200]);
        values_preset.push(vec![300, 330]);
        LayersFill {
            values_preset,
            is_preset_ordered: true,
            values_deviation: None,
            values_smooth: None,
            values_offset: None,
        }
    }

    /// Sets the preset; it must hold at least one entry, each of one
    /// or two values.
    pub fn set_values_preset(&mut self, values: Vec<Vec<i32>>) -> (r: Result<(), FillError>)
        ensures
            r == Err::<(), FillError>(FillError::EmptyPreset) <==> values@.len() == 0,
            values@.len() >= 1 ==> (r == Err::<(), FillError>(FillError::MalformedSpec) <==> exists|
                i: int,
            | 0 <= i < values@.len() && !(1 <= (#[trigger] values@[i])@.len() <= 2)),
            r is Ok <==> (values@.len() >= 1 && forall|i: int|
                0 <= i < values@.len() ==> 1 <= (#[trigger] values@[i])@.len() <= 2),
            r is Ok ==> *final(self) == (LayersFill { values_preset: values, ..*old(self) }),
            r is Err ==> *final(self) == *old(self),
    {
        if values.len() == 0 {
            return Err(FillError::EmptyPreset);
        }
        let mut i: usize = 0;
        while i < values.len()
            invariant
                0 <= i <= values@.len(),
                forall|j: int| 0 <= j < i ==> 1 <= (#[trigger] values@[j])@.len() <= 2,
            decreases values@.len() - i,
        {
            if values[i].len() < 1 || values[i].len() > 2 {
                return Err(FillError::MalformedSpec);
            }
            i += 1;
        }
        self.values_preset = values;
        Ok(())
    }

    /// Returns a reference to the preset.
    pub fn values_preset(&self) -> (r: &Vec<Vec<i32>>)
        ensures
            r == &self.values_preset,
    {
        &self.values_preset
    }

    /// Sets whether layers take preset entries in order.
    pub fn set_is_preset_odreder(&mut self, state: bool)
        ensures
            *final(self) == (LayersFill { is_preset_ordered: state, ..*old(self) }),
    {
        self.is_preset_ordered = state;
    }

    /// Returns whether layers take preset entries in order.
    pub fn is_preset_ordered(&self) -> (r: bool)
        ensures
            r == self.is_preset_ordered,
    {
        self.is_preset_ordered
    }

    /// Sets or clears the deviation, in millis; a given deviation must
    /// be positive.
    pub fn set_values_deviation(&mut self, deviation: Option<i64>) -> (r: Result<(), FillError>)
        ensures
            r is Ok <==> (deviation matches Some(d) ==> d > 0),
            r is Ok ==> *final(self) == (LayersFill { values_deviation: deviation, ..*old(self) }),
            r is Err ==> *final(self) == *old(self),
    {
        if let Some(d) = deviation {
            if d <= 0 {
                return Err(FillError::NonPositiveDeviation);
            }
        }
        self.values_deviation = deviation;
        Ok(())
    }

    /// Returns the deviation in millis, if any.
    pub fn values_deviation(&self) -> (r: Option<i64>)
        ensures
            r == self.values_deviation,
    {
        self.values_deviation
    }

    /// Sets the reserved smoothing knob.
    pub fn set_values_smooth(&mut self, smooth: Option<u32>)
        ensures
            *final(self) == (LayersFill { values_smooth: smooth, ..*old(self) }),
    {
        self.values_smooth = smooth;
    }

    /// Returns the reserved smoothing knob.
    pub fn values_smooth(&self) -> (r: Option<u32>)
        ensures
            r == self.values_smooth,
    {
        self.values_smooth
    }

    /// Sets the reserved offset knob.
    pub fn set_values_offset(&mut self, offset: Option<u32>)
        ensures
            *final(self) == (LayersFill { values_offset: offset, ..*old(self) }),
    {
        self.values_offset = offset;
    }

    /// Returns the reserved offset knob.
    pub fn values_offset(&self) -> (r: Option<u32>)
        ensures
            r == self.values_offset,
    {
        self.values_offset
    }
}

impl Default for LayersFill {
    /// The default policy of [`LayersFill::new`].
    fn default() -> (r: Self)
        ensures
            r.wf(),
    {
        Self::new()
    }
}

} // verus!
