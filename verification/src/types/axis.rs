//! Construction and queries of [`Axis`]: a strictly increasing sequence
//! of block edges over an interval, with precomputed block centers.

use vstd::prelude::*;

use crate::types::Axis;
use crate::types::AxisExportType;
use crate::spec_div2_round;
use crate::div2_round;
use crate::MILLI_LIMIT;

verus! {

/// Why an axis could not be built.
#[derive(Debug, Clone, Copy, PartialEq, Eq, Structural)]
pub enum AxisError {
    /// The end coordinate does not lie past the start coordinate.
    InvalidRange,
    /// Fewer than two edges would result.
    InsufficientElements,
    /// An explicit edge sequence is not strictly increasing.
    NonIncreasingValues,
    /// The step is zero or negative.
    NonPositiveStep,
}

impl AxisError {
    /// A human-readable description of the failure.
    pub fn message(&self) -> (r: &'static str)
        ensures
            self is InvalidRange ==> r@
                == "Coordinates for the end the model must be greater than the start ones"@,
            self is InsufficientElements ==> r@
                == "Vec must contain at least two (for edges) or one (for blocks) elements"@,
            self is NonIncreasingValues ==> r@
                == "Coordinates inside the vec must constatnly increase"@,
            self is NonPositiveStep ==> r@ == "Step must be bigger than zero"@,
    {
        match self {
            AxisError::InvalidRange => {
                "Coordinates for the end the model must be greater than the start ones"
            },
            AxisError::InsufficientElements => {
                "Vec must contain at least two (for edges) or one (for blocks) elements"
            },
            AxisError::NonIncreasingValues => {
                "Coordinates inside the vec must constatnly increase"
            },
            AxisError::NonPositiveStep => "Step must be bigger than zero",
        }
    }
}

impl Axis {
    /// Well-formedness: edges are strictly increasing and bounded,
    /// `start` is the first edge, the last edge does not pass `end`,
    /// and every center is the rounded midpoint of its two edges.
    pub open spec fn wf(&self) -> bool {
        &&& self.axis@.len() == self.blocks_count + 1
        &&& self.blocks_count >= 1
        &&& forall|i: int|
            0 <= i < self.blocks_count ==> (#[trigger] self.axis@[i]) < self.axis@[i + 1]
        &&& forall|i: int|
            0 <= i <= self.blocks_count ==> -MILLI_LIMIT <= #[trigger] self.axis@[i]
                <= MILLI_LIMIT
        &&& self.start == self.axis@[0]
        &&& self.axis@[self.blocks_count as int] <= self.end
        &&& self.centers@.len() == self.blocks_count
        &&& forall|i: int|
            0 <= i < self.blocks_count ==> #[trigger] self.centers@[i] == spec_div2_round(
                self.axis@[i] + self.axis@[i + 1],
            )
    }

    /// The number of edges a soft generation from `start` to `end`
    /// with step `step` produces: one per multiple of `step` that does
    /// not pass `end`.
    pub open spec fn spec_soft_count(start: int, end: int, step: int) -> int {
        (end - start) / step + 1
    }

    /// The default axis: ten unit blocks from 0 to 10.
    pub fn new() -> (r: Axis)
        ensures
            r.wf(),
            r.start == 0,
            r.end == 10_000,
            r.step == Some(1_000i64),
            r.blocks_count == 10,
            forall|k: int| 0 <= k <= 10 ==> #[trigger] r.axis@[k] == 1_000 * k,
    {
        let r = Axis::generate_axis(0, 10_000, Some(1_000));
        match r {
            Ok(ax) => ax,
            Err(_) => {
                proof {
                    assert(false);
                }
                Axis {
                    start: 0,
                    end: 0,
                    step: None,
                    blocks_count: 0,
                    centers: Vec::new(),
                    axis: Vec::new(),
                }
            },
        }
    }

    /// Generates an axis whose edges are `start + k * step` for every
    /// `k` such that the edge does not pass `end` ("soft" mode: the
    /// last edge may fall short of `end`). A missing step defaults to
    /// one unit (1000 millis).
    pub fn generate_axis(start: i64, end: i64, step: Option<i64>) -> (r: Result<Axis, AxisError>)
        requires
            -MILLI_LIMIT <= start <= MILLI_LIMIT,
            -MILLI_LIMIT <= end <= MILLI_LIMIT,
            step matches Some(s) ==> -MILLI_LIMIT <= s <= MILLI_LIMIT,
        ensures
            r == Err::<Axis, AxisError>(AxisError::InvalidRange) <==> start >= end,
            start < end ==> (r == Err::<Axis, AxisError>(AxisError::NonPositiveStep) <==> (
            step matches Some(s) && s <= 0)),
            ({
                let s = match step {
                    Some(v) => v as int,
                    None => 1_000int,
                };
                &&& start < end && s > 0 ==> (r == Err::<Axis, AxisError>(
                    AxisError::InsufficientElements,
                ) <==> end - start < s)
                &&& (r is Ok <==> start < end && s > 0 && end - start >= s)
                &&& r matches Ok(ax) ==> {
                    &&& ax.wf()
                    &&& ax.start == start
                    &&& ax.end == end
                    &&& ax.step == step
                    &&& ax.axis@.len() == Axis::spec_soft_count(start as int, end as int, s)
                    &&& forall|k: int|
                        0 <= k < ax.axis@.len() ==> #[trigger] ax.axis@[k] == start + k * s
                }
            }),
    {
        if start >= end {
            return Err(AxisError::InvalidRange);
        }
        Axis::generate_axis_common(start, end, step, false)
    }

    /// Generates an axis as [`Axis::generate_axis`] does, then appends
    /// `end` as a final edge when the last computed edge falls short of
    /// it ("hard" mode: the last edge is always `end`).
    pub fn generate_axis_hard(start: i64, end: i64, step: Option<i64>) -> (r: Result<
        Axis,
        AxisError,
    >)
        requires
            -MILLI_LIMIT <= start <= MILLI_LIMIT,
            -MILLI_LIMIT <= end <= MILLI_LIMIT,
            step matches Some(s) ==> -MILLI_LIMIT <= s <= MILLI_LIMIT,
        ensures
            r == Err::<Axis, AxisError>(AxisError::InvalidRange) <==> start > end,
            start <= end ==> (r == Err::<Axis, AxisError>(AxisError::NonPositiveStep) <==> (
            step matches Some(s) && s <= 0)),
            ({
                let s = match step {
                    Some(v) => v as int,
                    None => 1_000int,
                };
                &&& start <= end && s > 0 ==> (r == Err::<Axis, AxisError>(
                    AxisError::InsufficientElements,
                ) <==> start == end)
                &&& (r is Ok <==> start < end && s > 0)
                &&& r matches Ok(ax) ==> {
                    let soft = Axis::spec_soft_count(start as int, end as int, s);
                    &&& ax.wf()
                    &&& ax.start == start
                    &&& ax.end == end
                    &&& ax.step == step
                    &&& forall|k: int|
                        0 <= k < soft ==> #[trigger] ax.axis@[k] == start + k * s
                    &&& if (end - start) % s == 0 {
                        ax.axis@.len() == soft
                    } else {
                        ax.axis@.len() == soft + 1 && ax.axis@[soft] == end
                    }
                }
            }),
    {
        if start > end {
            return Err(AxisError::InvalidRange);
        }
        Axis::generate_axis_common(start, end, step, true)
    }

    fn generate_axis_common(start: i64, end: i64, step: Option<i64>, is_hard: bool) -> (r: Result<
        Axis,
        AxisError,
    >)
        requires
            -MILLI_LIMIT <= start <= MILLI_LIMIT,
            -MILLI_LIMIT <= end <= MILLI_LIMIT,
            step matches Some(s) ==> -MILLI_LIMIT <= s <= MILLI_LIMIT,
            start <= end,
        ensures
            !(r == Err::<Axis, AxisError>(AxisError::InvalidRange)),
            r == Err::<Axis, AxisError>(AxisError::NonPositiveStep) <==> (step matches Some(s)
                && s <= 0),
            ({
                let s = match step {
                    Some(v) => v as int,
                    None => 1_000int,
                };
                let soft = Axis::spec_soft_count(start as int, end as int, s);
                &&& s > 0 ==> (r == Err::<Axis, AxisError>(AxisError::InsufficientElements) <==> (
                if is_hard {
                    start == end
                } else {
                    end - start < s
                }))
                &&& (r is Ok <==> s > 0 && (if is_hard {
                    start < end
                } else {
                    end - start >= s
                }))
                &&& r matches Ok(ax) ==> {
                    &&& ax.wf()
                    &&& ax.start == start
                    &&& ax.end == end
                    &&& ax.step == step
                    &&& forall|k: int|
                        0 <= k < soft ==> #[trigger] ax.axis@[k] == start + k * s
                    &&& if !is_hard || (end - start) % s == 0 {
                        ax.axis@.len() == soft
                    } else {
                        ax.axis@.len() == soft + 1 && ax.axis@[soft] == end
                    }
                }
            }),
    {
        let new_step = match step {
            Some(s) => s,
            None => 1_000,
        };
        if new_step <= 0 {
            return Err(AxisError::NonPositiveStep);
        }

        let mut axis = Axis::calculate_axis(start, end, new_step);

        proof {
            let d = (end - start) as int;
            let s = new_step as int;
            vstd::arithmetic::div_mod::lemma_fundamental_div_mod(d, s);
            vstd::arithmetic::div_mod::lemma_mod_bound(d, s);
            if d < s {
                vstd::arithmetic::div_mod::lemma_basic_div(d, s);
            } else {
                vstd::arithmetic::div_mod::lemma_div_is_ordered(s, d, s);
                vstd::arithmetic::div_mod::lemma_div_by_self(s);
            }
            assert(axis@[axis@.len() - 1] == start + (d / s) * s);
            vstd::arithmetic::mul::lemma_mul_is_commutative(d / s, s);
            // The last soft edge reaches `end` exactly when the step divides.
            assert(axis@[axis@.len() - 1] == end <==> d % s == 0);
        }

        if is_hard && axis[axis.len() - 1] != end {
            axis.push(end);
        } else if axis.len() < 2 {
            return Err(AxisError::InsufficientElements);
        }

        proof {
            let d = (end - start) as int;
            let s = new_step as int;
            let soft = Axis::spec_soft_count(start as int, end as int, s);
            assert(0 * s == 0) by (nonlinear_arith);
            assert(axis@[0] == start);
            assert forall|k: int| 0 <= k < axis@.len() - 1 implies (#[trigger] axis@[k])
                < axis@[k + 1] by {
                if k + 1 < soft {
                    assert(axis@[k] == start + k * s);
                    assert(axis@[k + 1] == start + (k + 1) * s);
                    assert((k + 1) * s == k * s + s) by (nonlinear_arith);
                } else {
                    // Only in hard mode with a pushed final edge: the
                    // previous edge stops short of `end` by `d % s`.
                    assert(axis@[k] == start + (d / s) * s);
                    assert(axis@[k + 1] == end);
                }
            }
        }

        let centers = Axis::centers_from_edges(&axis);
        let blocks_count = axis.len() - 1;
        Ok(Axis { start, end, step, blocks_count, centers, axis })
    }

    /// Accepts an explicit strictly increasing sequence of at least two
    /// edge coordinates; the step is then unknown.
    pub fn create_from_edges(axis: Vec<i64>) -> (r: Result<Axis, AxisError>)
        requires
            forall|i: int|
                0 <= i < axis@.len() ==> -MILLI_LIMIT <= #[trigger] axis@[i] <= MILLI_LIMIT,
        ensures
            r == Err::<Axis, AxisError>(AxisError::InsufficientElements) <==> axis@.len() < 2,
            axis@.len() >= 2 ==> (r == Err::<Axis, AxisError>(AxisError::NonIncreasingValues)
                <==> exists|i: int| 0 <= i < axis@.len() - 1 && #[trigger] axis@[i + 1] <= axis@[i]),
            r is Ok <==> (axis@.len() >= 2 && forall|i: int|
                0 <= i < axis@.len() - 1 ==> #[trigger] axis@[i + 1] > axis@[i]),
            r matches Ok(ax) ==> {
                &&& ax.wf()
                &&& ax.axis@ == axis@
                &&& ax.start == axis@[0]
                &&& ax.end == axis@[axis@.len() - 1]
                &&& ax.step is None
                &&& ax.blocks_count == axis@.len() - 1
            },
    {
        if axis.len() < 2 {
            return Err(AxisError::InsufficientElements);
        }

        let mut pr_el = axis[0];
        let mut i: usize = 1;
        while i < axis.len()
            invariant
                1 <= i <= axis@.len(),
                pr_el == axis@[i - 1],
                forall|j: int| 0 <= j < i - 1 ==> #[trigger] axis@[j + 1] > axis@[j],
            decreases axis@.len() - i,
        {
            if axis[i] <= pr_el {
                proof {
                    assert(exists|j: int|
                        0 <= j < axis@.len() - 1 && #[trigger] axis@[j + 1] <= axis@[j]) by {
                        assert(axis@[(i - 1) + 1] <= axis@[i - 1]);
                    }
                }
                return Err(AxisError::NonIncreasingValues);
            }
            pr_el = axis[i];
            i += 1;
        }

        let centers = Axis::centers_from_edges(&axis);
        let blocks_count = axis.len() - 1;
        let start = axis[0];
        let end = axis[axis.len() - 1];
        Ok(Axis { start, end, step: None, blocks_count, centers, axis })
    }

    /// Edges at `start + k * step` for `k = 0, 1, ...` while the edge
    /// does not pass `end`.
    fn calculate_axis(start: i64, end: i64, step: i64) -> (r: Vec<i64>)
        requires
            -MILLI_LIMIT <= start <= MILLI_LIMIT,
            -MILLI_LIMIT <= end <= MILLI_LIMIT,
            start <= end,
            1 <= step <= MILLI_LIMIT,
        ensures
            r@.len() == Axis::spec_soft_count(start as int, end as int, step as int),
            forall|k: int| 0 <= k < r@.len() ==> #[trigger] r@[k] == start + k * step,
            forall|k: int| 0 <= k < r@.len() ==> start <= #[trigger] r@[k] <= end,
    {
        let d = end - start;
        let count = d / step + 1;
        proof {
            vstd::arithmetic::div_mod::lemma_fundamental_div_mod(d as int, step as int);
            vstd::arithmetic::div_mod::lemma_mod_bound(d as int, step as int);
            vstd::arithmetic::mul::lemma_mul_is_commutative((count - 1) as int, step as int);
            vstd::arithmetic::div_mod::lemma_div_pos_is_pos(d as int, step as int);
        }
        let mut r: Vec<i64> = Vec::new();
        let mut k: i64 = 0;
        while k < count
            invariant
                0 <= k <= count,
                count == d / step + 1,
                d == end - start,
                0 <= d <= 2 * MILLI_LIMIT,
                1 <= step <= MILLI_LIMIT,
                -MILLI_LIMIT <= start <= MILLI_LIMIT,
                (count - 1) * step <= d,
                r@.len() == k,
                forall|j: int| 0 <= j < k ==> #[trigger] r@[j] == start + j * step,
                forall|j: int| 0 <= j < k ==> start <= #[trigger] r@[j] <= end,
            decreases count - k,
        {
            proof {
                vstd::arithmetic::mul::lemma_mul_inequality(k as int, count - 1, step as int);
                vstd::arithmetic::mul::lemma_mul_is_commutative(k as int, step as int);
                vstd::arithmetic::mul::lemma_mul_nonnegative(k as int, step as int);
            }
            r.push(start + k * step);
            k += 1;
        }
        r
    }

    /// The rounded midpoint of every pair of consecutive edges.
    fn centers_from_edges(edges_vec: &Vec<i64>) -> (r: Vec<i64>)
        requires
            edges_vec@.len() >= 1,
            forall|i: int|
                0 <= i < edges_vec@.len() ==> -MILLI_LIMIT <= #[trigger] edges_vec@[i]
                    <= MILLI_LIMIT,
        ensures
            r@.len() == edges_vec@.len() - 1,
            forall|i: int|
                0 <= i < r@.len() ==> #[trigger] r@[i] == spec_div2_round(
                    edges_vec@[i] + edges_vec@[i + 1],
                ),
    {
        let mut centers: Vec<i64> = Vec::new();
        let mut i: usize = 0;
        while i < edges_vec.len() - 1
            invariant
                0 <= i <= edges_vec@.len() - 1,
                edges_vec@.len() >= 1,
                forall|j: int|
                    0 <= j < edges_vec@.len() ==> -MILLI_LIMIT <= #[trigger] edges_vec@[j]
                        <= MILLI_LIMIT,
                centers@.len() == i,
                forall|j: int|
                    0 <= j < i ==> #[trigger] centers@[j] == spec_div2_round(
                        edges_vec@[j] + edges_vec@[j + 1],
                    ),
            decreases edges_vec@.len() - 1 - i,
        {
            centers.push(div2_round(edges_vec[i] + edges_vec[i + 1]));
            i += 1;
        }
        centers
    }

    /// The largest index whose edge does not exceed `target`, or `None`
    /// when `target` lies before the first edge.
    pub fn find_element_smaller(&self, target: i64) -> (r: Option<usize>)
        requires
            self.wf(),
        ensures
            r is None <==> target < self.axis@[0],
            r matches Some(i) ==> {
                &&& i < self.axis@.len()
                &&& self.axis@[i as int] <= target
                &&& i + 1 < self.axis@.len() ==> target < self.axis@[i + 1]
            },
    {
        if target < self.axis[0] {
            return None;
        }
        let mut lo: usize = 0;
        let mut hi: usize = self.axis.len() - 1;
        while lo < hi
            invariant
                0 <= lo <= hi < self.axis@.len(),
                self.axis@.len() == self.blocks_count + 1,
                self.axis@[lo as int] <= target,
                hi + 1 < self.axis@.len() ==> target < self.axis@[hi + 1],
            decreases hi - lo,
        {
            let mid = hi - (hi - lo) / 2;
            if self.axis[mid] <= target {
                lo = mid;
            } else {
                hi = mid - 1;
            }
        }
        Some(lo)
    }
}

/// The block indices `0,1,...,n` as comma-separated decimals.
pub open spec fn spec_num_ax(n: int) -> Seq<char>
    decreases n,
{
    if n <= 0 {
        crate::text_num::dec_digits(0)
    } else {
        spec_num_ax(n - 1) + seq![','] + crate::text_num::dec_digits(n)
    }
}

/// Milli coordinates as comma-separated decimal text.
pub open spec fn spec_join_milli(s: Seq<i64>) -> Seq<char>
    decreases s.len(),
{
    if s.len() <= 1 {
        crate::text_num::spec_milli_str(s[0] as int)
    } else {
        spec_join_milli(s.drop_last()) + seq![','] + crate::text_num::spec_milli_str(
            s.last() as int,
        )
    }
}

/// A milli coordinate scaled by a milli factor, rounded toward zero
/// to millis.
pub open spec fn spec_scale_milli(v: int, scale: int) -> int {
    let p = v * scale;
    if p >= 0 {
        p / 1000
    } else {
        -((-p) / 1000)
    }
}

/// Milli coordinates scaled by a milli factor (rounded toward zero to
/// millis), as comma-separated decimal text.
pub open spec fn spec_join_scaled(s: Seq<i64>, scale: int) -> Seq<char>
    decreases s.len(),
{
    if s.len() <= 1 {
        crate::text_num::spec_milli_str(spec_scale_milli(s[0] as int, scale))
    } else {
        spec_join_scaled(s.drop_last(), scale) + seq![','] + crate::text_num::spec_milli_str(
            spec_scale_milli(s.last() as int, scale),
        )
    }
}

/// The digits-and-comma run `0,1,...,i-1,` that precedes index `i`.
pub open spec fn spec_num_ax_prefix(i: int) -> Seq<char>
    decreases i,
{
    if i <= 0 {
        Seq::empty()
    } else {
        spec_num_ax_prefix(i - 1) + crate::text_num::dec_digits(i - 1) + seq![',']
    }
}

/// The index run splits into its comma-terminated prefix and the last
/// index.
pub proof fn lemma_num_ax_split(n: int)
    requires
        n >= 0,
    ensures
        spec_num_ax(n) == spec_num_ax_prefix(n) + crate::text_num::dec_digits(n),
    decreases n,
{
    if n == 0 {
        assert(spec_num_ax(0) =~= spec_num_ax_prefix(0) + crate::text_num::dec_digits(0));
    } else {
        lemma_num_ax_split(n - 1);
        assert(spec_num_ax(n) =~= spec_num_ax_prefix(n) + crate::text_num::dec_digits(n));
    }
}

/// The text an axis renders to under an export mode: its block
/// indices, its edge coordinates, those coordinates scaled, or an
/// explicit edge sequence.
pub open spec fn spec_export_axis(blocks_count: int, edges: Seq<i64>, t: AxisExportType) -> Seq<
    char,
> {
    match t {
        AxisExportType::AsNum => spec_num_ax(blocks_count),
        AxisExportType::AsSelf => spec_join_milli(edges),
        AxisExportType::Scale(k) => spec_join_scaled(edges, k as int),
        AxisExportType::CustomAxis(v) => spec_join_milli(v@),
    }
}

/// An export mode the library can render: a bounded scale factor, and
/// a custom axis that forms a valid edge sequence.
pub open spec fn axis_export_ok(t: AxisExportType) -> bool {
    match t {
        AxisExportType::AsNum => true,
        AxisExportType::AsSelf => true,
        AxisExportType::Scale(k) => -1_000_000 <= k <= 1_000_000,
        AxisExportType::CustomAxis(v) => {
            &&& v@.len() >= 2
            &&& forall|i: int| 0 <= i < v@.len() ==> -MILLI_LIMIT <= #[trigger] v@[i] <= MILLI_LIMIT
            &&& forall|i: int| 0 <= i < v@.len() - 1 ==> #[trigger] v@[i + 1] > v@[i]
        },
    }
}

impl Axis {
    /// Appends the block indices as decimals.
    fn export_num_ax(&self, result: &mut String)
        requires
            self.wf(),
        ensures
            final(result)@ == old(result)@ + spec_num_ax(self.blocks_count as int),
    {
        let mut i: usize = 0;
        while i < self.blocks_count
            invariant
                0 <= i <= self.blocks_count,
                result@ == old(result)@ + spec_num_ax_prefix(i as int),
            decreases self.blocks_count - i,
        {
            let piece = crate::text_num::usize_to_dec_str(i);
            result.append(piece.as_str());
            result.append(",");
            proof {
                reveal_strlit(",");
                assert(","@ =~= seq![',']);
                assert(result@ =~= old(result)@ + spec_num_ax_prefix(i + 1));
            }
            i += 1;
        }
        let last = crate::text_num::usize_to_dec_str(self.blocks_count);
        result.append(last.as_str());
        proof {
            lemma_num_ax_split(self.blocks_count as int);
            assert(result@ =~= old(result)@ + spec_num_ax(self.blocks_count as int));
        }
    }

    /// Appends the edge coordinates as decimals.
    fn export_self_ax_edges(edges: &Vec<i64>, result: &mut String)
        requires
            edges@.len() >= 1,
            forall|i: int| 0 <= i < edges@.len() ==> -MILLI_LIMIT <= #[trigger] edges@[i]
                <= MILLI_LIMIT,
        ensures
            final(result)@ == old(result)@ + spec_join_milli(edges@),
    {
        let first = crate::text_num::milli_to_str(edges[0]);
        result.append(first.as_str());
        proof {
            assert(edges@.subrange(0, 1) =~= seq![edges@[0]]);
            assert(result@ =~= old(result)@ + spec_join_milli(edges@.subrange(0, 1)));
        }
        let mut i: usize = 1;
        while i < edges.len()
            invariant
                1 <= i <= edges@.len(),
                forall|k: int| 0 <= k < edges@.len() ==> -MILLI_LIMIT <= #[trigger] edges@[k]
                    <= MILLI_LIMIT,
                result@ == old(result)@ + spec_join_milli(edges@.subrange(0, i as int)),
            decreases edges@.len() - i,
        {
            result.append(",");
            let piece = crate::text_num::milli_to_str(edges[i]);
            result.append(piece.as_str());
            proof {
                reveal_strlit(",");
                assert(","@ =~= seq![',']);
                assert(edges@.subrange(0, i + 1).drop_last() =~= edges@.subrange(0, i as int));
                assert(edges@.subrange(0, i + 1).last() == edges@[i as int]);
                assert(result@ =~= old(result)@ + spec_join_milli(edges@.subrange(0, i + 1)));
            }
            i += 1;
        }
        proof {
            assert(edges@.subrange(0, edges@.len() as int) =~= edges@);
        }
    }

    /// Appends the edge coordinates scaled by a milli factor, each
    /// rounded toward zero to millis.
    fn export_scale_ax(&self, result: &mut String, scale_value: i64)
        requires
            self.wf(),
            -1_000_000 <= scale_value <= 1_000_000,
        ensures
            final(result)@ == old(result)@ + spec_join_scaled(self.axis@, scale_value as int),
    {
        let edges = &self.axis;
        let first = crate::text_num::milli_to_str(scale_edge(edges[0], scale_value));
        result.append(first.as_str());
        proof {
            assert(edges@.subrange(0, 1) =~= seq![edges@[0]]);
            assert(result@ =~= old(result)@ + spec_join_scaled(
                edges@.subrange(0, 1),
                scale_value as int,
            ));
        }
        let mut i: usize = 1;
        while i < edges.len()
            invariant
                1 <= i <= edges@.len(),
                -1_000_000 <= scale_value <= 1_000_000,
                forall|k: int| 0 <= k < edges@.len() ==> -MILLI_LIMIT <= #[trigger] edges@[k]
                    <= MILLI_LIMIT,
                edges == &self.axis,
                result@ == old(result)@ + spec_join_scaled(
                    edges@.subrange(0, i as int),
                    scale_value as int,
                ),
            decreases edges@.len() - i,
        {
            result.append(",");
            let piece = crate::text_num::milli_to_str(scale_edge(edges[i], scale_value));
            result.append(piece.as_str());
            proof {
                reveal_strlit(",");
                assert(","@ =~= seq![',']);
                assert(edges@.subrange(0, i + 1).drop_last() =~= edges@.subrange(0, i as int));
                assert(edges@.subrange(0, i + 1).last() == edges@[i as int]);
                assert(result@ =~= old(result)@ + spec_join_scaled(
                    edges@.subrange(0, i + 1),
                    scale_value as int,
                ));
            }
            i += 1;
        }
        proof {
            assert(edges@.subrange(0, edges@.len() as int) =~= edges@);
        }
    }

    /// Appends this axis rendered under the given export mode.
    pub fn export_axis(&self, export_type: &AxisExportType, result: &mut String)
        requires
            self.wf(),
            axis_export_ok(*export_type),
        ensures
            final(result)@ == old(result)@ + spec_export_axis(
                self.blocks_count as int,
                self.axis@,
                *export_type,
            ),
    {
        match export_type {
            AxisExportType::AsNum => self.export_num_ax(result),
            AxisExportType::AsSelf => Axis::export_self_ax_edges(&self.axis, result),
            AxisExportType::Scale(scale_param) => self.export_scale_ax(result, *scale_param),
            AxisExportType::CustomAxis(ax) => Axis::export_self_ax_edges(ax, result),
        }
    }
}

/// One edge coordinate scaled by a milli factor, rounded toward zero
/// to millis.
fn scale_edge(edge: i64, scale_value: i64) -> (r: i64)
    requires
        -MILLI_LIMIT <= edge <= MILLI_LIMIT,
        -1_000_000 <= scale_value <= 1_000_000,
    ensures
        r == spec_scale_milli(edge as int, scale_value as int),
        -MILLI_LIMIT * 1000 <= r <= MILLI_LIMIT * 1000,
{
    proof {
        assert(-1_000_000_000_000_000_000 <= (edge as int) * (scale_value as int)
            <= 1_000_000_000_000_000_000) by (nonlinear_arith)
            requires
                -MILLI_LIMIT <= edge <= MILLI_LIMIT,
                -1_000_000 <= scale_value <= 1_000_000,
        ;
    }
    let p = edge * scale_value;
    if p >= 0 {
        p / 1000
    } else {
        -((-p) / 1000)
    }
}

impl Default for Axis {
    /// The default axis of [`Axis::new`].
    fn default() -> (r: Axis)
        ensures
            r.wf(),
    {
        Axis::new()
    }
}

impl Axis {
    /// Returns all information about the axis.
    pub fn get_full_axis(&self) -> (r: (i64, i64, Option<i64>, &Vec<i64>))
        ensures
            r == (self.start, self.end, self.step, &self.axis),
    {
        (self.start, self.end, self.step, &self.axis)
    }

    /// Returns the start coordinate of the first block.
    pub fn start(&self) -> (r: i64)
        ensures
            r == self.start,
    {
        self.start
    }

    /// Returns the end coordinate of the last block.
    pub fn end(&self) -> (r: i64)
        ensures
            r == self.end,
    {
        self.end
    }

    /// Returns the step value if the axis was generated with one.
    pub fn step(&self) -> (r: Option<i64>)
        ensures
            r == self.step,
    {
        self.step
    }

    /// Returns the number of blocks inside the axis (one less than the
    /// number of edges).
    pub fn blocks_count(&self) -> (r: usize)
        ensures
            r == self.blocks_count,
    {
        self.blocks_count
    }

    /// Returns a reference to the edges.
    pub fn axis(&self) -> (r: &Vec<i64>)
        ensures
            r == &self.axis,
    {
        &self.axis
    }

    /// Returns a reference to the centers.
    pub fn centers(&self) -> (r: &Vec<i64>)
        ensures
            r == &self.centers,
    {
        &self.centers
    }
}

} // verus!
