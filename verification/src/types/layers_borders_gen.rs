//! Setters and queries of [`LayersBorder`], the border generation
//! policy.

use vstd::prelude::*;

use crate::types::LayersBorder;

verus! {

/// Why a border configuration or a border generation failed.
#[derive(Debug, Clone, Copy, PartialEq, Eq, Structural)]
pub enum BorderError {
    /// The deviation is negative.
    NegativeDeviation,
    /// The border type is not a known algorithm.
    InvalidBorderType,
    /// The step probability lies outside `[0, 1]`.
    InvalidProbability,
    /// The deviation override holds no range.
    EmptyOverride,
    /// A deviation override range has its upper bound below its lower.
    MalformedOverride,
    /// The backtracking budget was exceeded during generation.
    GenerationExhausted,
    /// A generated layer failed the range or step re-check.
    ValidationFailed,
}

impl BorderError {
    /// A human-readable description of the failure.
    pub fn message(&self) -> (r: &'static str)
        ensures
            self is NegativeDeviation ==> r@ == "Border deviation can't be negative."@,
            self is InvalidBorderType ==> r@ == "border_type can be next: random"@,
            self is InvalidProbability ==> r@ == "Probability must be between 0.0 and 1.0"@,
            self is EmptyOverride ==> r@ == "Devitaion override vec cannot be empty"@,
            self is MalformedOverride ==> r@
                == "Second element in vector's array must be bigger or equal first one"@,
            self is GenerationExhausted ==> r@ == "Could not find solution"@,
            self is ValidationFailed ==> r@ == "Model is not valid"@,
    {
        match self {
            BorderError::NegativeDeviation => "Border deviation can't be negative.",
            BorderError::InvalidBorderType => "border_type can be next: random",
            BorderError::InvalidProbability => "Probability must be between 0.0 and 1.0",
            BorderError::EmptyOverride => "Devitaion override vec cannot be empty",
            BorderError::MalformedOverride => {
                "Second element in vector's array must be bigger or equal first one"
            },
            BorderError::GenerationExhausted => "Could not find solution",
            BorderError::ValidationFailed => "Model is not valid",
        }
    }
}

impl LayersBorder {
    /// Well-formedness: a non-negative deviation, a probability within
    /// `[0, 1]`, and override ranges that are non-empty and ordered.
    pub open spec fn wf(&self) -> bool {
        &&& self.border_deviation >= 0
        &&& (self.border_step_prob matches Some(p) ==> 0 <= p <= 1_000)
        &&& (self.deviation_override matches Some(v) ==> v@.len() >= 1 && forall|i: int|
            0 <= i < v@.len() ==> (#[trigger] v@[i])[0] <= v@[i][1])
    }

    /// The default policy: no deviation, random borders, no step
    /// limit, probability one half, no override.
    pub fn new() -> (r: LayersBorder)
        ensures
            r.wf(),
            r.border_deviation == 0,
            r.border_type@ == "random"@,
            r.border_max_step is None,
            r.border_step_prob == Some(500i64),
            !r.borders_same_pattern,
            r.deviation_override is None,
    {
        LayersBorder {
            border_deviation: 0,
            border_type: String::from_str("random"),
            border_max_step: None,
            border_step_prob: Some(500),
            borders_same_pattern: false,
            deviation_override: None,
        }
    }

    /// Sets the deviation, in millis; it must not be negative.
    pub fn set_border_deviation(&mut self, border_deviation: i64) -> (r: Result<(), BorderError>)
        ensures
            r is Ok <==> border_deviation >= 0,
            r is Ok ==> *final(self) == (LayersBorder { border_deviation, ..*old(self) }),
            r is Err ==> *final(self) == *old(self),
    {
        if border_deviation < 0 {
            return Err(BorderError::NegativeDeviation);
        }
        self.border_deviation = border_deviation;
        Ok(())
    }

    /// Returns the deviation, in millis.
    pub fn border_deviation(&self) -> (r: i64)
        ensures
            r == self.border_deviation,
    {
        self.border_deviation
    }

    /// Sets the border type; only "random" is known.
    pub fn set_border_type(&mut self, border_type: String) -> (r: Result<(), BorderError>)
        ensures
            r is Ok <==> border_type@ == "random"@,
            r is Ok ==> *final(self) == (LayersBorder { border_type, ..*old(self) }),
            r is Err ==> *final(self) == *old(self),
    {
        let expected = String::from_str("random");
        if !border_type.eq(&expected) {
            return Err(BorderError::InvalidBorderType);
        }
        self.border_type = border_type;
        Ok(())
    }

    /// Returns the border type.
    pub fn border_type(&self) -> (r: &String)
        ensures
            r == &self.border_type,
    {
        &self.border_type
    }

    /// Sets or clears the largest allowed step between neighbors.
    pub fn set_border_max_step(&mut self, max_step: Option<i32>)
        ensures
            *final(self) == (LayersBorder { border_max_step: max_step, ..*old(self) }),
    {
        self.border_max_step = max_step;
    }

    /// Returns the largest allowed step between neighbors, if any.
    pub fn border_max_step(&self) -> (r: Option<i32>)
        ensures
            r == self.border_max_step,
    {
        self.border_max_step
    }

    /// Sets or clears the step probability; a probability is given in
    /// millis and must lie within `[0, 1000]`.
    pub fn set_border_step_prob(&mut self, prob: Option<i64>) -> (r: Result<(), BorderError>)
        ensures
            r is Ok <==> (prob matches Some(p) ==> 0 <= p <= 1_000),
            r is Ok ==> *final(self) == (LayersBorder { border_step_prob: prob, ..*old(self) }),
            r is Err ==> *final(self) == *old(self),
    {
        match prob {
            None => {
                self.border_step_prob = None;
            },
            Some(p) => {
                if p < 0 || p > 1_000 {
                    return Err(BorderError::InvalidProbability);
                }
                self.border_step_prob = Some(p);
            },
        }
        Ok(())
    }

    /// Returns the step probability in millis, if any.
    pub fn border_step_prob(&self) -> (r: Option<i64>)
        ensures
            r == self.border_step_prob,
    {
        self.border_step_prob
    }

    /// Sets whether all layers reuse one border pattern.
    pub fn set_layers_same_deviation(&mut self, is_pattern_same: bool)
        ensures
            *final(self) == (LayersBorder { borders_same_pattern: is_pattern_same, ..*old(self) }),
    {
        self.borders_same_pattern = is_pattern_same;
    }

    /// Returns whether all layers reuse one border pattern.
    pub fn layers_same_deviation(&self) -> (r: bool)
        ensures
            r == self.borders_same_pattern,
    {
        self.borders_same_pattern
    }

    /// Sets or clears the explicit per-layer depth ranges; a given
    /// sequence must be non-empty with every range ordered.
    pub fn set_deviation_override(&mut self, deviation_override: Option<Vec<[i32; 2]>>) -> (r:
        Result<(), BorderError>)
        ensures
            r is Ok <==> (deviation_override matches Some(v) ==> v@.len() >= 1 && forall|i: int|
                0 <= i < v@.len() ==> (#[trigger] v@[i])[0] <= v@[i][1]),
            r is Ok ==> *final(self) == (LayersBorder {
                deviation_override,
                ..*old(self)
            }),
            r == Err::<(), BorderError>(BorderError::EmptyOverride) <==> (
            deviation_override matches Some(v) && v@.len() == 0),
            r is Err ==> *final(self) == *old(self),
    {
        match &deviation_override {
            Some(override_vec) => {
                if override_vec.len() == 0 {
                    return Err(BorderError::EmptyOverride);
                }
                let mut i: usize = 0;
                while i < override_vec.len()
                    invariant
                        0 <= i <= override_vec@.len(),
                        deviation_override == Some(*override_vec),
                        override_vec@.len() >= 1,
                        forall|j: int|
                            0 <= j < i ==> (#[trigger] override_vec@[j])[0] <= override_vec@[j][1],
                    decreases override_vec@.len() - i,
                {
                    if override_vec[i][1] < override_vec[i][0] {
                        return Err(BorderError::MalformedOverride);
                    }
                    i += 1;
                }
            },
            None => {},
        }
        self.deviation_override = deviation_override;
        Ok(())
    }

    /// Returns the explicit per-layer depth ranges, if any.
    pub fn deviation_override(&self) -> (r: &Option<Vec<[i32; 2]>>)
        ensures
            r == &self.deviation_override,
    {
        &self.deviation_override
    }
}

impl Default for LayersBorder {
    /// The default policy of [`LayersBorder::new`].
    fn default() -> (r: LayersBorder)
        ensures
            r.wf(),
    {
        LayersBorder::new()
    }
}

} // verus!
