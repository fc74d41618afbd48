//! Construction of [`LayersDist`]: either from an explicit sequence of
//! layer sizes or by randomized generation under bounds, optionally
//! steered toward a target total thickness.

use vstd::prelude::*;

use crate::types::LayersDist;
use crate::random_source::random_in_range;
use crate::random_source::random_in_range_i64;

verus! {

/// Why a layer distribution could not be built.
#[derive(Debug, Clone, Copy, PartialEq, Eq, Structural)]
pub enum DistError {
    /// The smallest allowed layer size exceeds the largest.
    BoundsInconsistent,
    /// A count, bound or target sum is zero or negative.
    NonPositiveArgument,
    /// The target sum exceeds what the largest layer size allows.
    SumTooLarge,
    /// The target sum falls short of what the smallest layer size needs.
    SumTooSmall,
    /// An explicit sequence holds no element.
    EmptyDist,
    /// An explicit sequence holds 255 or more elements.
    TooManyLayers,
    /// An explicit sequence holds a zero or negative element.
    NonPositiveElement,
    /// The cumulative sum of an explicit sequence leaves `i32`.
    SumOverflow,
    /// The randomized adjustment gave up before meeting the target sum.
    BudgetExhausted,
}

impl DistError {
    /// A human-readable description of the failure.
    pub fn message(&self) -> (r: &'static str)
        ensures
            self is BoundsInconsistent ==> r@
                == "Max layer's size must be bigger than min layer's size"@,
            self is NonPositiveArgument ==> r@ == "Any argument must be bigger than zero"@,
            self is SumTooLarge ==> r@
                == "Impossible: (max layer's size) * (number of layers) must be bigger than (layers sum)"@,
            self is SumTooSmall ==> r@
                == "Impossible: (min layer's size) * (number of layers) must be smaller than (layers sum)"@,
            self is EmptyDist ==> r@
                == "Distibution of layers vec must contain at least one value"@,
            self is TooManyLayers ==> r@
                == "Program do not support models with more than 255 layers"@,
            self is NonPositiveElement ==> r@ == "Elements should be bigger than zero"@,
            self is SumOverflow ==> r@
                == "Problem with calculating sum of layers: i32 overflow"@,
            self is BudgetExhausted ==> r@
                == "Something really gone wrong, this is program's fault, just try another arguments"@,
    {
        match self {
            DistError::BoundsInconsistent => {
                "Max layer's size must be bigger than min layer's size"
            },
            DistError::NonPositiveArgument => "Any argument must be bigger than zero",
            DistError::SumTooLarge => {
                "Impossible: (max layer's size) * (number of layers) must be bigger than (layers sum)"
            },
            DistError::SumTooSmall => {
                "Impossible: (min layer's size) * (number of layers) must be smaller than (layers sum)"
            },
            DistError::EmptyDist => "Distibution of layers vec must contain at least one value",
            DistError::TooManyLayers => {
                "Program do not support models with more than 255 layers"
            },
            DistError::NonPositiveElement => "Elements should be bigger than zero",
            DistError::SumOverflow => "Problem with calculating sum of layers: i32 overflow",
            DistError::BudgetExhausted => {
                "Something really gone wrong, this is program's fault, just try another arguments"
            },
        }
    }
}

/// The sum of a sequence of layer sizes, as an unbounded integer.
pub open spec fn sum_of(s: Seq<i32>) -> int
    decreases s.len(),
{
    if s.len() == 0 {
        0
    } else {
        sum_of(s.drop_last()) + s.last()
    }
}

/// Replacing one element changes the sum by the difference.
pub proof fn lemma_sum_update(s: Seq<i32>, i: int, v: i32)
    requires
        0 <= i < s.len(),
    ensures
        sum_of(s.update(i, v)) == sum_of(s) - s[i] + v,
    decreases s.len(),
{
    if i == s.len() - 1 {
        assert(s.update(i, v).drop_last() =~= s.drop_last());
    } else {
        assert(s.update(i, v).drop_last() =~= s.drop_last().update(i, v));
        lemma_sum_update(s.drop_last(), i, v);
    }
}

/// A prefix one element longer adds exactly that element to the sum.
pub proof fn lemma_sum_prefix_step(s: Seq<i32>, i: int)
    requires
        0 <= i < s.len(),
    ensures
        sum_of(s.subrange(0, i + 1)) == sum_of(s.subrange(0, i)) + s[i],
{
    assert(s.subrange(0, i + 1).drop_last() =~= s.subrange(0, i));
}

/// The whole sequence is its own full prefix.
pub proof fn lemma_sum_full_prefix(s: Seq<i32>)
    ensures
        sum_of(s.subrange(0, s.len() as int)) == sum_of(s),
{
    assert(s.subrange(0, s.len() as int) =~= s);
}

/// Prefix sums grow along a stretch of positive elements.
pub proof fn lemma_sum_monotone(s: Seq<i32>, a: int, b: int)
    requires
        0 <= a <= b <= s.len(),
        forall|j: int| a <= j < b ==> #[trigger] s[j] > 0,
    ensures
        sum_of(s.subrange(0, a)) <= sum_of(s.subrange(0, b)),
    decreases b - a,
{
    if a < b {
        lemma_sum_prefix_step(s, b - 1);
        lemma_sum_monotone(s, a, b - 1);
    }
}

/// A sequence whose elements all stay within `[lo, hi]` has a sum
/// within `[len * lo, len * hi]`.
pub proof fn lemma_sum_bounds(s: Seq<i32>, lo: int, hi: int)
    requires
        forall|i: int| 0 <= i < s.len() ==> lo <= #[trigger] s[i] <= hi,
    ensures
        s.len() * lo <= sum_of(s) <= s.len() * hi,
    decreases s.len(),
{
    if s.len() == 0 {
    } else {
        lemma_sum_bounds(s.drop_last(), lo, hi);
        assert((s.len() - 1) * lo == s.len() * lo - lo) by (nonlinear_arith);
        assert((s.len() - 1) * hi == s.len() * hi - hi) by (nonlinear_arith);
    }
}

impl LayersDist {
    /// Well-formedness: at least one layer, every size positive,
    /// `layers_sum` the exact total, and `layers_dist_summed` the
    /// prefix sums of `layers_dist`.
    pub open spec fn wf(&self) -> bool {
        &&& 1 <= self.layers_num
        &&& self.layers_dist@.len() == self.layers_num
        &&& forall|i: int| 0 <= i < self.layers_dist@.len() ==> #[trigger] self.layers_dist@[i] > 0
        &&& self.layers_sum == sum_of(self.layers_dist@)
        &&& self.layers_dist_summed@.len() == self.layers_dist@.len()
        &&& forall|i: int|
            0 <= i < self.layers_dist@.len() ==> #[trigger] self.layers_dist_summed@[i] == sum_of(
                self.layers_dist@.subrange(0, i + 1),
            )
    }

    /// The default profile: three layers of sizes 70, 90 and 80.
    pub fn new() -> (r: LayersDist)
        ensures
            r.wf(),
            r.layers_num == 3,
            r.layers_dist@ =~= seq![70i32, 90i32, 80i32],
            r.layers_dist_summed@ =~= seq![70i32, 160i32, 240i32],
            r.layers_sum == 240,
    {
        let r = LayersDist {
            layers_num: 3,
            max_layer_size: 100,
            min_layer_size: 70,
            layers_sum: 240,
            layers_dist: vec![70, 90, 80],
            layers_dist_summed: vec![70, 160, 240],
        };
        proof {
            let d = r.layers_dist@;
            reveal_with_fuel(sum_of, 5);
            assert(d.subrange(0, 1).drop_last() =~= d.subrange(0, 0));
            assert(d.subrange(0, 2).drop_last() =~= d.subrange(0, 1));
            assert(d.subrange(0, 3).drop_last() =~= d.subrange(0, 2));
            assert(d.drop_last() =~= d.subrange(0, 2));
        }
        r
    }

    /// Accepts an explicit sequence of positive layer sizes, computing
    /// its extremes, total and prefix sums; the total must stay within
    /// `i32`.
    pub fn create_from_vec(layers_dist: Vec<i32>) -> (r: Result<LayersDist, DistError>)
        ensures
            r == Err::<LayersDist, DistError>(DistError::EmptyDist) <==> layers_dist@.len() == 0,
            r == Err::<LayersDist, DistError>(DistError::TooManyLayers) <==> layers_dist@.len()
                >= 255,
            r == Err::<LayersDist, DistError>(DistError::NonPositiveElement) <==> (1 <= layers_dist@.len()
                < 255 && exists|i: int|
                {
                    &&& 0 <= i < layers_dist@.len()
                    &&& #[trigger] layers_dist@[i] <= 0
                    &&& forall|j: int| 0 <= j < i ==> #[trigger] layers_dist@[j] > 0
                    &&& sum_of(layers_dist@.subrange(0, i)) <= i32::MAX
                }),
            r == Err::<LayersDist, DistError>(DistError::SumOverflow) <==> (1 <= layers_dist@.len()
                < 255 && exists|i: int|
                {
                    &&& 0 <= i < layers_dist@.len()
                    &&& forall|j: int| 0 <= j <= i ==> #[trigger] layers_dist@[j] > 0
                    &&& sum_of(layers_dist@.subrange(0, i + 1)) > i32::MAX
                    &&& sum_of(#[trigger] layers_dist@.subrange(0, i)) <= i32::MAX
                }),
            r is Ok <==> {
                &&& 1 <= layers_dist@.len() < 255
                &&& forall|i: int| 0 <= i < layers_dist@.len() ==> #[trigger] layers_dist@[i] > 0
                &&& sum_of(layers_dist@) <= i32::MAX
            },
            r matches Ok(ld) ==> {
                &&& ld.wf()
                &&& ld.layers_dist@ == layers_dist@
                &&& ld.layers_num == layers_dist@.len()
                &&& ld.layers_sum == sum_of(layers_dist@)
                &&& forall|i: int|
                    0 <= i < layers_dist@.len() ==> ld.min_layer_size <= #[trigger] layers_dist@[i]
                        <= ld.max_layer_size
                &&& exists|i: int|
                    0 <= i < layers_dist@.len() && #[trigger] layers_dist@[i] == ld.min_layer_size
                &&& exists|i: int|
                    0 <= i < layers_dist@.len() && #[trigger] layers_dist@[i] == ld.max_layer_size
            },
    {
        if layers_dist.len() == 0 {
            return Err(DistError::EmptyDist);
        }
        if layers_dist.len() >= 255 {
            return Err(DistError::TooManyLayers);
        }

        let mut min_layer_size: i32 = i32::MAX;
        let mut max_layer_size: i32 = 0;
        let mut layers_sum: i64 = 0;
        let mut layers_dist_summed: Vec<i32> = Vec::new();
        let mut k: usize = 0;

        while k < layers_dist.len()
            invariant
                0 <= k <= layers_dist@.len(),
                1 <= layers_dist@.len() < 255,
                forall|j: int| 0 <= j < k ==> #[trigger] layers_dist@[j] > 0,
                layers_sum == sum_of(layers_dist@.subrange(0, k as int)),
                forall|j: int|
                    0 <= j <= k ==> sum_of(#[trigger] layers_dist@.subrange(0, j)) <= i32::MAX,
                layers_dist_summed@.len() == k,
                forall|j: int|
                    0 <= j < k ==> #[trigger] layers_dist_summed@[j] == sum_of(
                        layers_dist@.subrange(0, j + 1),
                    ),
                k > 0 ==> forall|j: int|
                    0 <= j < k ==> min_layer_size <= #[trigger] layers_dist@[j] <= max_layer_size,
                k > 0 ==> exists|j: int|
                    0 <= j < k && #[trigger] layers_dist@[j] == min_layer_size,
                k > 0 ==> exists|j: int|
                    0 <= j < k && #[trigger] layers_dist@[j] == max_layer_size,
                k == 0 ==> min_layer_size == i32::MAX && max_layer_size == 0,
                0 <= layers_sum <= i32::MAX,
            decreases layers_dist@.len() - k,
        {
            let el = layers_dist[k];
            if k == 0 {
                min_layer_size = el;
                max_layer_size = el;
            } else {
                if el < min_layer_size {
                    min_layer_size = el;
                }
                if el > max_layer_size {
                    max_layer_size = el;
                }
            }
            if el <= 0 {
                proof {
                    assert(layers_dist@[k as int] <= 0);
                    assert(sum_of(layers_dist@.subrange(0, k as int)) <= i32::MAX);
                    // No earlier position can witness an overflow: every
                    // prefix so far stays within `i32`, and any later
                    // one would need this non-positive element positive.
                    assert forall|i: int|
                        0 <= i < layers_dist@.len() && (forall|j: int|
                            0 <= j <= i ==> #[trigger] layers_dist@[j] > 0) implies sum_of(
                        #[trigger] layers_dist@.subrange(0, i + 1),
                    ) <= i32::MAX by {
                        assert(layers_dist@[k as int] <= 0);
                        assert(i < k);
                    }
                }
                return Err(DistError::NonPositiveElement);
            }
            proof {
                lemma_sum_prefix_step(layers_dist@, k as int);
            }
            if layers_sum + el as i64 > i32::MAX as i64 {
                proof {
                    assert(layers_dist@[k as int] > 0);
                    assert(sum_of(layers_dist@.subrange(0, k + 1)) > i32::MAX);
                    // No position can witness a first non-positive
                    // element: it would lie past this overflowing
                    // prefix, whose sum only grows further.
                    assert forall|i: int|
                        0 <= i < layers_dist@.len() && #[trigger] layers_dist@[i] <= 0 && (
                        forall|j: int| 0 <= j < i ==> #[trigger] layers_dist@[j] > 0) implies !(
                    sum_of(layers_dist@.subrange(0, i)) <= i32::MAX) by {
                        assert(i > k);
                        lemma_sum_monotone(layers_dist@, k + 1, i);
                    }
                    // Nor can the whole sequence be positive with a sum
                    // within `i32`.
                    if forall|i: int| 0 <= i < layers_dist@.len() ==> #[trigger] layers_dist@[i]
                        > 0 {
                        lemma_sum_monotone(layers_dist@, k + 1, layers_dist@.len() as int);
                        lemma_sum_full_prefix(layers_dist@);
                    }
                }
                return Err(DistError::SumOverflow);
            }
            layers_sum = layers_sum + el as i64;
            layers_dist_summed.push(layers_sum as i32);
            k += 1;
        }

        proof {
            lemma_sum_full_prefix(layers_dist@);
        }

        let layers_num = layers_dist.len() as u8;
        Ok(
            LayersDist {
                layers_num,
                max_layer_size,
                min_layer_size,
                layers_sum: layers_sum as i32,
                layers_dist,
                layers_dist_summed,
            },
        )
    }

    /// The arguments under which randomized generation is possible:
    /// positive bounds in order, and a target sum that the bounds can
    /// reach.
    pub open spec fn params_valid(ln: u8, min_ls: i32, max_ls: i32, ls: Option<i32>) -> bool {
        &&& min_ls <= max_ls
        &&& ln > 0
        &&& min_ls > 0
        &&& max_ls > 0
        &&& (ls matches Some(t) ==> t > 0 && min_ls * ln <= t <= max_ls * ln)
    }

    fn validate_params(ln: u8, min_ls: i32, max_ls: i32, ls: Option<i32>) -> (r: Result<
        (),
        DistError,
    >)
        ensures
            r == Err::<(), DistError>(DistError::BoundsInconsistent) <==> min_ls > max_ls,
            min_ls <= max_ls ==> (r == Err::<(), DistError>(DistError::NonPositiveArgument) <==> (ln
                == 0 || min_ls <= 0 || max_ls <= 0 || (ls matches Some(t) && t <= 0))),
            (min_ls <= max_ls && ln > 0 && 0 < min_ls && 0 < max_ls && (ls matches Some(t) ==> t
                > 0)) ==> {
                &&& (r == Err::<(), DistError>(DistError::SumTooLarge) <==> (ls matches Some(t)
                    && max_ls * ln < t))
                &&& (r == Err::<(), DistError>(DistError::SumTooSmall) <==> (ls matches Some(t)
                    && min_ls * ln > t))
            },
            r is Ok <==> LayersDist::params_valid(ln, min_ls, max_ls, ls),
    {
        if min_ls > max_ls {
            return Err(DistError::BoundsInconsistent);
        }

        if max_ls <= 0 || ln == 0 || min_ls <= 0 {
            return Err(DistError::NonPositiveArgument);
        }

        if let Some(ls) = ls {
            if ls <= 0 {
                return Err(DistError::NonPositiveArgument);
            }
            proof {
                vstd::arithmetic::mul::lemma_mul_upper_bound(
                    max_ls as int,
                    0x7fff_ffff,
                    ln as int,
                    255,
                );
                vstd::arithmetic::mul::lemma_mul_upper_bound(
                    min_ls as int,
                    0x7fff_ffff,
                    ln as int,
                    255,
                );
                vstd::arithmetic::mul::lemma_mul_nonnegative(max_ls as int, ln as int);
                vstd::arithmetic::mul::lemma_mul_nonnegative(min_ls as int, ln as int);
                vstd::arithmetic::mul::lemma_mul_inequality(min_ls as int, max_ls as int, ln as int);
            }
            if (max_ls as i64) * (ln as i64) < ls as i64 {
                return Err(DistError::SumTooLarge);
            }
            if (min_ls as i64) * (ln as i64) > ls as i64 {
                return Err(DistError::SumTooSmall);
            }
        }

        Ok(())
    }

    /// Randomly draws `ln` layer sizes in `[min_ls, max_ls]` and, when
    /// a target sum is given, redistributes random increments within a
    /// bounded budget until the sizes add up to it exactly.
    pub fn generate_layers_dist_vec(ln: u8, min_ls: i32, max_ls: i32, ls: Option<i32>) -> (r:
        Result<Vec<i32>, DistError>)
        ensures
            r == Err::<Vec<i32>, DistError>(DistError::BoundsInconsistent) <==> min_ls > max_ls,
            min_ls <= max_ls ==> (r == Err::<Vec<i32>, DistError>(DistError::NonPositiveArgument)
                <==> (ln == 0 || min_ls <= 0 || max_ls <= 0 || (ls matches Some(t) && t <= 0))),
            (min_ls <= max_ls && ln > 0 && 0 < min_ls && 0 < max_ls && (ls matches Some(t) ==> t
                > 0)) ==> {
                &&& (r == Err::<Vec<i32>, DistError>(DistError::SumTooLarge) <==> (
                ls matches Some(t) && max_ls * ln < t))
                &&& (r == Err::<Vec<i32>, DistError>(DistError::SumTooSmall) <==> (
                ls matches Some(t) && min_ls * ln > t))
            },
            (r is Ok || r == Err::<Vec<i32>, DistError>(DistError::BudgetExhausted)) <==>
                LayersDist::params_valid(ln, min_ls, max_ls, ls),
            LayersDist::params_valid(ln, min_ls, max_ls, ls) && (ls is None || min_ls == max_ls)
                ==> r is Ok,
            r matches Ok(v) ==> {
                &&& v@.len() == ln
                &&& forall|i: int| 0 <= i < v@.len() ==> min_ls <= #[trigger] v@[i] <= max_ls
                &&& (ls matches Some(t) ==> sum_of(v@) == t)
            },
    {
        match LayersDist::validate_params(ln, min_ls, max_ls, ls) {
            Ok(_) => (),
            Err(err) => {
                return Err(err);
            },
        }

        if min_ls == max_ls {
            let mut layers: Vec<i32> = Vec::new();
            let mut k: usize = 0;
            while k < ln as usize
                invariant
                    0 <= k <= ln,
                    layers@.len() == k,
                    forall|i: int| 0 <= i < k ==> #[trigger] layers@[i] == max_ls,
                    sum_of(layers@) == k * max_ls,
                decreases ln - k,
            {
                proof {
                    assert(layers@.push(max_ls).drop_last() =~= layers@);
                    assert((k + 1) * max_ls == k * max_ls + max_ls) by (nonlinear_arith);
                }
                layers.push(max_ls);
                k += 1;
            }
            proof {
                vstd::arithmetic::mul::lemma_mul_is_commutative(max_ls as int, ln as int);
            }
            return Ok(layers);
        }

        let mut layers: Vec<i32> = Vec::new();
        let mut sum: i64 = 0;
        let mut k: usize = 0;
        while k < ln as usize
            invariant
                0 <= k <= ln,
                min_ls < max_ls,
                min_ls >= 1,
                layers@.len() == k,
                forall|i: int| 0 <= i < k ==> min_ls <= #[trigger] layers@[i] <= max_ls,
                sum == sum_of(layers@),
                0 <= sum <= (k as int) * 0x8000_0000,
            decreases ln - k,
        {
            let el = random_in_range(min_ls, max_ls - 1);
            proof {
                assert(layers@.push(el).drop_last() =~= layers@);
            }
            layers.push(el);
            sum = sum + el as i64;
            k += 1;
        }

        let target: i32 = match ls {
            Some(t) => t,
            None => {
                return Ok(layers);
            },
        };

        let t64 = target as i64;
        let mut znak = true;
        let mut points: i64;
        if t64 > sum {
            points = t64 - sum;
        } else {
            znak = false;
            points = sum - t64;
        }
        let mut tries: i32 = 0;

        while points != 0 && tries <= 10000
            invariant
                layers@.len() == ln,
                1 <= min_ls < max_ls,
                forall|i: int| 0 <= i < layers@.len() ==> min_ls <= #[trigger] layers@[i] <= max_ls,
                sum == sum_of(layers@),
                0 <= points,
                points <= 0x200_0000_0000,
                0 <= sum <= 0x100_0000_0000,
                znak ==> t64 == sum + points,
                !znak ==> t64 == sum - points,
                1 <= t64 <= 0x7fff_ffff,
                ln >= 1,
            decreases 10001 - tries,
        {
            let avg_layer_mod: i64 = points / (ln as i64);
            let mut idx: usize = 0;

            while idx < layers.len()
                invariant
                    layers@.len() == ln,
                    1 <= min_ls < max_ls,
                    forall|i: int|
                        0 <= i < layers@.len() ==> min_ls <= #[trigger] layers@[i] <= max_ls,
                    sum == sum_of(layers@),
                    0 <= points,
                    points <= 0x200_0000_0000,
                    0 <= sum <= 0x100_0000_0000,
                    znak ==> t64 == sum + points,
                    !znak ==> t64 == sum - points,
                    1 <= t64 <= 0x7fff_ffff,
                    avg_layer_mod >= 0,
                    avg_layer_mod <= 0x200_0000_0000,
                    ln >= 1,
                    0 <= idx <= layers@.len(),
                decreases layers@.len() - idx,
        {
                let layer = layers[idx] as i64;

                if znak {
                    if points + layer <= max_ls as i64 {
                        proof {
                            lemma_sum_update(layers@, idx as int, (layer + points) as i32);
                        }
                        layers.set(idx, (layer + points) as i32);
                        sum = sum + points;
                        points = 0;
                        break ;
                    }

                    let now_mod: i64 = if avg_layer_mod == 0 {
                        1
                    } else {
                        random_in_range_i64(0, 2 * avg_layer_mod - 1)
                    };

                    if layer + now_mod <= max_ls as i64 && now_mod <= points {
                        proof {
                            lemma_sum_update(layers@, idx as int, (layer + now_mod) as i32);
                        }
                        layers.set(idx, (layer + now_mod) as i32);
                        sum = sum + now_mod;
                        points = points - now_mod;
                    }
                } else {
                    if layer - points >= min_ls as i64 {
                        proof {
                            lemma_sum_update(layers@, idx as int, (layer - points) as i32);
                        }
                        layers.set(idx, (layer - points) as i32);
                        sum = sum - points;
                        points = 0;
                        break ;
                    }

                    let now_mod: i64 = if avg_layer_mod == 0 {
                        1
                    } else {
                        random_in_range_i64(0, 2 * avg_layer_mod - 1)
                    };

                    if layer - now_mod >= min_ls as i64 && now_mod <= points {
                        proof {
                            lemma_sum_update(layers@, idx as int, (layer - now_mod) as i32);
                        }
                        layers.set(idx, (layer - now_mod) as i32);
                        sum = sum - now_mod;
                        points = points - now_mod;
                    }
                }
                idx += 1;
            }
            tries += 1;
        }

        if points != 0 {
            return Err(DistError::BudgetExhausted);
        }
        Ok(layers)
    }

    /// Randomly generates a whole profile under bounds, recording the
    /// bounds, the realized or target total and the prefix sums.
    pub fn generate_from_params(
        layers_num: u8,
        min_layer_size: i32,
        max_layer_size: i32,
        layers_sum: Option<i32>,
    ) -> (r: Result<LayersDist, DistError>)
        requires
            layers_sum is None ==> (layers_num as int) * (max_layer_size as int) <= i32::MAX,
        ensures
            r == Err::<LayersDist, DistError>(DistError::BoundsInconsistent) <==> min_layer_size
                > max_layer_size,
            min_layer_size <= max_layer_size ==> (r == Err::<LayersDist, DistError>(
                DistError::NonPositiveArgument,
            ) <==> (layers_num == 0 || min_layer_size <= 0 || max_layer_size <= 0 || (
            layers_sum matches Some(t) && t <= 0))),
            (min_layer_size <= max_layer_size && layers_num > 0 && 0 < min_layer_size && 0
                < max_layer_size && (layers_sum matches Some(t) ==> t > 0)) ==> {
                &&& (r == Err::<LayersDist, DistError>(DistError::SumTooLarge) <==> (
                layers_sum matches Some(t) && max_layer_size * layers_num < t))
                &&& (r == Err::<LayersDist, DistError>(DistError::SumTooSmall) <==> (
                layers_sum matches Some(t) && min_layer_size * layers_num > t))
            },
            (r is Ok || r == Err::<LayersDist, DistError>(DistError::BudgetExhausted)) <==>
                LayersDist::params_valid(layers_num, min_layer_size, max_layer_size, layers_sum),
            LayersDist::params_valid(layers_num, min_layer_size, max_layer_size, layers_sum) && (
            layers_sum is None || min_layer_size == max_layer_size) ==> r is Ok,
            r matches Ok(ld) ==> {
                &&& ld.wf()
                &&& ld.layers_num == layers_num
                &&& ld.min_layer_size == min_layer_size
                &&& ld.max_layer_size == max_layer_size
                &&& forall|i: int|
                    0 <= i < ld.layers_dist@.len() ==> min_layer_size
                        <= #[trigger] ld.layers_dist@[i] <= max_layer_size
                &&& (layers_sum matches Some(t) ==> ld.layers_sum == t)
            },
    {
        let layers = LayersDist::generate_layers_dist_vec(
            layers_num,
            min_layer_size,
            max_layer_size,
            layers_sum,
        );
        match layers {
            Err(err) => Err(err),
            Ok(layers) => {
                proof {
                    lemma_sum_bounds(layers@, min_layer_size as int, max_layer_size as int);
                    vstd::arithmetic::mul::lemma_mul_is_commutative(
                        layers@.len() as int,
                        max_layer_size as int,
                    );
                    vstd::arithmetic::mul::lemma_mul_is_commutative(
                        layers@.len() as int,
                        min_layer_size as int,
                    );
                    vstd::arithmetic::mul::lemma_mul_nonnegative(
                        min_layer_size as int,
                        layers@.len() as int,
                    );
                }
                let mut layers_summed: Vec<i32> = Vec::new();
                let mut acc: i64 = 0;
                let mut i: usize = 0;
                while i < layers.len()
                    invariant
                        0 <= i <= layers@.len(),
                        forall|j: int|
                            0 <= j < layers@.len() ==> 0 < #[trigger] layers@[j],
                        acc == sum_of(layers@.subrange(0, i as int)),
                        0 <= acc <= sum_of(layers@),
                        sum_of(layers@) <= i32::MAX,
                        layers_summed@.len() == i,
                        forall|j: int|
                            0 <= j < i ==> #[trigger] layers_summed@[j] == sum_of(
                                layers@.subrange(0, j + 1),
                            ),
                    decreases layers@.len() - i,
                {
                    proof {
                        lemma_sum_prefix_step(layers@, i as int);
                        lemma_sum_monotone(layers@, i + 1, layers@.len() as int);
                        lemma_sum_full_prefix(layers@);
                    }
                    acc = acc + layers[i] as i64;
                    layers_summed.push(acc as i32);
                    i += 1;
                }

                let layers_sum_value: i32 = match layers_sum {
                    Some(t) => t,
                    None => {
                        proof {
                            lemma_sum_full_prefix(layers@);
                        }
                        acc as i32
                    },
                };
                proof {
                    lemma_sum_full_prefix(layers@);
                }
                Ok(
                    LayersDist {
                        layers_num,
                        min_layer_size,
                        max_layer_size,
                        layers_sum: layers_sum_value,
                        layers_dist: layers,
                        layers_dist_summed: layers_summed,
                    },
                )
            },
        }
    }
}

impl LayersDist {
    /// Returns the layer count, size extremes, total and sizes.
    pub fn get_full_data(&self) -> (r: (u8, i32, i32, i32, &Vec<i32>))
        ensures
            r == (
                self.layers_num,
                self.max_layer_size,
                self.min_layer_size,
                self.layers_sum,
                &self.layers_dist,
            ),
    {
        (
            self.layers_num,
            self.max_layer_size,
            self.min_layer_size,
            self.layers_sum,
            &self.layers_dist,
        )
    }

    /// Returns the number of layers.
    pub fn get_layers_num(&self) -> (r: u8)
        ensures
            r == self.layers_num,
    {
        self.layers_num
    }

    /// Returns the largest and smallest layer size.
    pub fn get_layer_max_min_sizes(&self) -> (r: (i32, i32))
        ensures
            r == (self.max_layer_size, self.min_layer_size),
    {
        (self.max_layer_size, self.min_layer_size)
    }

    /// Returns the total thickness.
    pub fn get_layers_sum(&self) -> (r: i32)
        ensures
            r == self.layers_sum,
    {
        self.layers_sum
    }

    /// Returns a reference to the layer sizes.
    pub fn get_layers_dist(&self) -> (r: &Vec<i32>)
        ensures
            r == &self.layers_dist,
    {
        &self.layers_dist
    }

    /// Returns a reference to the prefix sums of the layer sizes.
    pub fn get_layers_dist_summed(&self) -> (r: &Vec<i32>)
        ensures
            r == &self.layers_dist_summed,
    {
        &self.layers_dist_summed
    }

    /// Returns the number of layers as a sequence length.
    pub fn get_layers_count(&self) -> (r: usize)
        ensures
            r == self.layers_dist@.len(),
    {
        self.layers_dist.len()
    }
}

impl Default for LayersDist {
    /// The default three-layer profile of [`LayersDist::new`].
    fn default() -> (r: LayersDist)
        ensures
            r.wf(),
    {
        LayersDist::new()
    }
}

} // verus!
