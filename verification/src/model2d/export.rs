//! Text rendering of a 2D slice: the JSON object the serialization
//! sink writes for a slice. File writing stays outside the library.

use vstd::prelude::*;

use crate::model2d::Model2D;
use crate::model3d::export::spec_join_i32;
use crate::model3d::export::spec_join_u8;
use crate::model3d::export::spec_keyed;
use crate::model3d::export::append_keyed_values_i32;
use crate::model3d::export::append_keyed_values_u8;
use crate::types::Axis;
use crate::types::AxisExportType;

verus! {

/// A sequence of rows as tag-keyed members, comma separated.
pub open spec fn spec_rows_json(tag: Seq<char>, g: Seq<Vec<i32>>) -> Seq<char>
    decreases g.len(),
{
    if g.len() <= 1 {
        spec_keyed(tag, 0, spec_join_i32(g[0]@))
    } else {
        spec_rows_json(tag, g.drop_last()) + seq![','] + spec_keyed(
            tag,
            g.len() - 1,
            spec_join_i32(g.last()@),
        )
    }
}

/// A sequence of mask rows as tag-keyed members, comma separated.
pub open spec fn spec_rows_json_u8(tag: Seq<char>, g: Seq<Vec<u8>>) -> Seq<char>
    decreases g.len(),
{
    if g.len() <= 1 {
        spec_keyed(tag, 0, spec_join_u8(g[0]@))
    } else {
        spec_rows_json_u8(tag, g.drop_last()) + seq![','] + spec_keyed(
            tag,
            g.len() - 1,
            spec_join_u8(g.last()@),
        )
    }
}

/// A bracketed sequence of keyed rows.
pub open spec fn spec_bracketed_rows(tag: Seq<char>, g: Seq<Vec<i32>>) -> Seq<char> {
    if g.len() == 0 {
        seq!['[', ']']
    } else {
        seq!['['] + spec_rows_json(tag, g) + seq![']']
    }
}

/// A bracketed sequence of keyed mask rows.
pub open spec fn spec_bracketed_rows_u8(tag: Seq<char>, g: Seq<Vec<u8>>) -> Seq<char> {
    if g.len() == 0 {
        seq!['[', ']']
    } else {
        seq!['['] + spec_rows_json_u8(tag, g) + seq![']']
    }
}

/// Appends a bracketed, tag-keyed sequence of value rows.
fn append_rows(result: &mut String, tag: &str, rows: &Vec<Vec<i32>>, Ghost(tag_view): Ghost<
    Seq<char>,
>)
    requires
        tag@ == tag_view,
        forall|i: int| 0 <= i < rows@.len() ==> (#[trigger] rows@[i])@.len() >= 1,
    ensures
        final(result)@ == old(result)@ + spec_bracketed_rows(tag_view, rows@),
{
    result.append("[");
    proof {
        reveal_strlit("[");
        assert("["@ =~= seq!['[']);
    }
    if rows.len() == 0 {
        result.append("]");
        proof {
            reveal_strlit("]");
            assert("]"@ =~= seq![']']);
            assert(result@ =~= old(result)@ + spec_bracketed_rows(tag_view, rows@));
        }
        return ;
    }
    let ghost mid0 = result@;
    append_keyed_values_i32(result, tag, 0, &rows[0], Ghost(tag_view));
    proof {
        assert(rows@.subrange(0, 1) =~= seq![rows@[0]]);
        assert(result@ =~= mid0 + spec_rows_json(tag_view, rows@.subrange(0, 1)));
    }
    let mut i: usize = 1;
    while i < rows.len()
        invariant
            1 <= i <= rows@.len(),
            tag@ == tag_view,
            forall|k: int| 0 <= k < rows@.len() ==> (#[trigger] rows@[k])@.len() >= 1,
            mid0 == old(result)@ + seq!['['],
            result@ == mid0 + spec_rows_json(tag_view, rows@.subrange(0, i as int)),
        decreases rows@.len() - i,
    {
        result.append(",");
        append_keyed_values_i32(result, tag, i, &rows[i], Ghost(tag_view));
        proof {
            reveal_strlit(",");
            assert(","@ =~= seq![',']);
            assert(rows@.subrange(0, i + 1).drop_last() =~= rows@.subrange(0, i as int));
            assert(rows@.subrange(0, i + 1).last() == rows@[i as int]);
            assert(result@ =~= mid0 + spec_rows_json(tag_view, rows@.subrange(0, i + 1)));
        }
        i += 1;
    }
    result.append("]");
    proof {
        reveal_strlit("]");
        assert("]"@ =~= seq![']']);
        assert(rows@.subrange(0, rows@.len() as int) =~= rows@);
        assert(result@ =~= old(result)@ + spec_bracketed_rows(tag_view, rows@));
    }
}

/// Appends a bracketed, tag-keyed sequence of mask rows.
fn append_rows_u8(result: &mut String, tag: &str, rows: &Vec<Vec<u8>>, Ghost(tag_view): Ghost<
    Seq<char>,
>)
    requires
        tag@ == tag_view,
        forall|i: int| 0 <= i < rows@.len() ==> (#[trigger] rows@[i])@.len() >= 1,
    ensures
        final(result)@ == old(result)@ + spec_bracketed_rows_u8(tag_view, rows@),
{
    result.append("[");
    proof {
        reveal_strlit("[");
        assert("["@ =~= seq!['[']);
    }
    if rows.len() == 0 {
        result.append("]");
        proof {
            reveal_strlit("]");
            assert("]"@ =~= seq![']']);
            assert(result@ =~= old(result)@ + spec_bracketed_rows_u8(tag_view, rows@));
        }
        return ;
    }
    let ghost mid0 = result@;
    append_keyed_values_u8(result, tag, 0, &rows[0], Ghost(tag_view));
    proof {
        assert(rows@.subrange(0, 1) =~= seq![rows@[0]]);
        assert(result@ =~= mid0 + spec_rows_json_u8(tag_view, rows@.subrange(0, 1)));
    }
    let mut i: usize = 1;
    while i < rows.len()
        invariant
            1 <= i <= rows@.len(),
            tag@ == tag_view,
            forall|k: int| 0 <= k < rows@.len() ==> (#[trigger] rows@[k])@.len() >= 1,
            mid0 == old(result)@ + seq!['['],
            result@ == mid0 + spec_rows_json_u8(tag_view, rows@.subrange(0, i as int)),
        decreases rows@.len() - i,
    {
        result.append(",");
        append_keyed_values_u8(result, tag, i, &rows[i], Ghost(tag_view));
        proof {
            reveal_strlit(",");
            assert(","@ =~= seq![',']);
            assert(rows@.subrange(0, i + 1).drop_last() =~= rows@.subrange(0, i as int));
            assert(rows@.subrange(0, i + 1).last() == rows@[i as int]);
            assert(result@ =~= mid0 + spec_rows_json_u8(tag_view, rows@.subrange(0, i + 1)));
        }
        i += 1;
    }
    result.append("]");
    proof {
        reveal_strlit("]");
        assert("]"@ =~= seq![']']);
        assert(rows@.subrange(0, rows@.len() as int) =~= rows@);
        assert(result@ =~= old(result)@ + spec_bracketed_rows_u8(tag_view, rows@));
    }
}

/// Appends the slice's border columns as `bo`-keyed members.
pub fn export_border_num(result: &mut String, borders: &Vec<Vec<i32>>)
    requires
        forall|i: int| 0 <= i < borders@.len() ==> (#[trigger] borders@[i])@.len() >= 1,
    ensures
        final(result)@ == old(result)@ + spec_bracketed_rows(seq!['b', 'o'], borders@),
{
    proof {
        reveal_strlit("bo");
        assert("bo"@ =~= seq!['b', 'o']);
    }
    let ghost tv = seq!['b', 'o'];
    append_rows(result, "bo", borders, Ghost(tv));
}

/// Appends the slice's voxel columns as `x`-keyed members.
pub fn export_model_num(result: &mut String, model: &Vec<Vec<i32>>)
    requires
        forall|i: int| 0 <= i < model@.len() ==> (#[trigger] model@[i])@.len() >= 1,
    ensures
        final(result)@ == old(result)@ + spec_bracketed_rows(seq!['x'], model@),
{
    proof {
        reveal_strlit("x");
        assert("x"@ =~= seq!['x']);
    }
    let ghost tv = seq!['x'];
    append_rows(result, "x", model, Ghost(tv));
}

/// Appends the slice's mask columns as `x`-keyed members.
pub fn export_mask_num(result: &mut String, model_mask: &Vec<Vec<u8>>)
    requires
        forall|i: int| 0 <= i < model_mask@.len() ==> (#[trigger] model_mask@[i])@.len() >= 1,
    ensures
        final(result)@ == old(result)@ + spec_bracketed_rows_u8(seq!['x'], model_mask@),
{
    proof {
        reveal_strlit("x");
        assert("x"@ =~= seq!['x']);
    }
    let ghost tv = seq!['x'];
    append_rows_u8(result, "x", model_mask, Ghost(tv));
}

/// The largest border depth of a slice, floored at zero.
pub fn get_max_depth(borders: &Vec<Vec<i32>>) -> (r: usize)
    ensures
        r == crate::model3d::fill3d::grid_max0(borders@),
{
    let mut max_elem: i32 = 0;
    let mut y: usize = 0;
    proof {
        assert(borders@.subrange(0, 0) =~= Seq::<Vec<i32>>::empty());
    }
    while y < borders.len()
        invariant
            0 <= y <= borders@.len(),
            max_elem == crate::model3d::fill3d::grid_max0(borders@.subrange(0, y as int)),
            max_elem >= 0,
        decreases borders@.len() - y,
    {
        let row = &borders[y];
        let mut x: usize = 0;
        let mut row_m: i32 = 0;
        proof {
            assert(row@.subrange(0, 0) =~= Seq::<i32>::empty());
        }
        while x < row.len()
            invariant
                0 <= x <= row@.len(),
                row_m == crate::model3d::fill3d::row_max0(row@.subrange(0, x as int)),
                row_m >= 0,
            decreases row@.len() - x,
        {
            proof {
                assert(row@.subrange(0, x + 1).drop_last() =~= row@.subrange(0, x as int));
                assert(row@.subrange(0, x + 1).last() == row@[x as int]);
            }
            if row[x] > row_m {
                row_m = row[x];
            }
            x += 1;
        }
        proof {
            assert(row@.subrange(0, row@.len() as int) =~= row@);
            assert(borders@.subrange(0, y + 1).drop_last() =~= borders@.subrange(0, y as int));
            assert(borders@.subrange(0, y + 1).last() == borders@[y as int]);
        }
        if row_m > max_elem {
            max_elem = row_m;
        }
        y += 1;
    }
    proof {
        assert(borders@.subrange(0, borders@.len() as int) =~= borders@);
    }
    max_elem as usize
}

/// The slice sink's output-axes object: the slice axis and a depth
/// axis of the given extent.
pub open spec fn spec_axes_obj_2d(
    params: crate::types::generation_params::Params2D,
    axes: Seq<AxisExportType>,
    depth: int,
) -> Seq<char> {
    "{\"x_ax\":["@ + crate::types::axis::spec_export_axis(
        params.x_ax.blocks_count as int,
        params.x_ax.axis@,
        axes[0],
    ) + "],"@ + "\"z_ax\":["@ + crate::types::axis::spec_export_axis(
        depth - 1,
        Seq::new((depth) as nat, |k: int| (1000 * k) as i64),
        axes[1],
    ) + "]}"@
}

/// Appends the slice's output-axes object.
fn export_true_axes_2d(
    result: &mut String,
    params: &crate::types::generation_params::Params2D,
    axes_export: &Vec<AxisExportType>,
    depth: usize,
)
    requires
        params.x_ax.wf(),
        2 <= depth <= 1_000_000_000,
        axes_export@.len() == 2,
        forall|i: int|
            0 <= i < 2 ==> crate::types::axis::axis_export_ok(#[trigger] axes_export@[i]),
    ensures
        final(result)@ == old(result)@ + spec_axes_obj_2d(*params, axes_export@, depth as int),
{
    result.append("{\"x_ax\":[");
    params.x_axis().export_axis(&axes_export[0], result);
    result.append("],");
    result.append("\"z_ax\":[");
    let z_axis = match Axis::generate_axis(0, (depth as i64 - 1) * 1000, None) {
        Ok(ax) => ax,
        Err(_) => {
            proof {
                assert(false);
            }
            Axis::new()
        },
    };
    proof {
        assert(z_axis.axis@ =~= Seq::new((depth) as nat, |k: int| (1000 * k) as i64));
        assert(z_axis.blocks_count == depth - 1);
    }
    z_axis.export_axis(&axes_export[1], result);
    result.append("]}");
    proof {
        assert(result@ =~= old(result)@ + spec_axes_obj_2d(*params, axes_export@, depth as int));
    }
}

impl Model2D {
    /// The depth extent the sink renders: the voxel column length when
    /// a volume or mask is present, else the largest border depth.
    pub open spec fn spec_depth_extent(&self) -> int {
        if self.model@.len() > 0 {
            self.model@[0]@.len() as int
        } else if self.model_mask@.len() > 0 {
            self.model_mask@[0]@.len() as int
        } else {
            crate::model3d::fill3d::grid_max0(self.borders@)
        }
    }

    /// Renders the sink's whole JSON object for this slice: the output
    /// axes and each requested section, with `null` for the others.
    #[verifier::rlimit(60)]
    pub fn export_model_text(
        &self,
        save_borders: bool,
        save_model: bool,
        save_mask: bool,
        axes_export: &Vec<AxisExportType>,
    ) -> (r: String)
        requires
            self.params.x_ax.wf(),
            axes_export@.len() == 2 ==> forall|i: int|
                0 <= i < 2 ==> crate::types::axis::axis_export_ok(#[trigger] axes_export@[i]),
            2 <= self.spec_depth_extent() <= 1_000_000_000,
            save_borders ==> forall|i: int|
                0 <= i < self.borders@.len() ==> (#[trigger] self.borders@[i])@.len() >= 1,
            save_model ==> forall|i: int|
                0 <= i < self.model@.len() ==> (#[trigger] self.model@[i])@.len() >= 1,
            save_mask ==> forall|i: int|
                0 <= i < self.model_mask@.len() ==> (#[trigger] self.model_mask@[i])@.len() >= 1,
        ensures
            ({
                let axes = if axes_export@.len() == 2 {
                    axes_export@
                } else {
                    seq![AxisExportType::AsSelf, AxisExportType::AsSelf]
                };
                let null = seq!['n', 'u', 'l', 'l'];
                r@ == "{\"params2D\":"@ + null + ",\"output_axes\":"@ + spec_axes_obj_2d(
                    self.params,
                    axes,
                    self.spec_depth_extent(),
                ) + ",\"borders\":"@ + (if save_borders {
                    spec_bracketed_rows(seq!['b', 'o'], self.borders@)
                } else {
                    null
                }) + ",\"fill_values\":"@ + null + ",\"model\":"@ + (if save_model {
                    spec_bracketed_rows(seq!['x'], self.model@)
                } else {
                    null
                }) + ",\"model_mask\":"@ + (if save_mask {
                    spec_bracketed_rows_u8(seq!['x'], self.model_mask@)
                } else {
                    null
                }) + seq!['}']
            }),
    {
        let mut default_axes: Vec<AxisExportType> = Vec::new();
        default_axes.push(AxisExportType::AsSelf);
        default_axes.push(AxisExportType::AsSelf);
        let axes: &Vec<AxisExportType> = if axes_export.len() != 2 {
            &default_axes
        } else {
            axes_export
        };
        proof {
            assert(default_axes@ =~= seq![AxisExportType::AsSelf, AxisExportType::AsSelf]);
        }

        let depth: usize = if self.model.len() > 0 {
            self.model[0].len()
        } else if self.model_mask.len() > 0 {
            self.model_mask[0].len()
        } else {
            get_max_depth(&self.borders)
        };

        let mut result = String::new();
        result.append("{\"params2D\":");
        result.append("null");

        result.append(",\"output_axes\":");
        export_true_axes_2d(&mut result, &self.params, axes, depth);

        result.append(",\"borders\":");
        if save_borders {
            export_border_num(&mut result, &self.borders);
        } else {
            result.append("null");
        }

        result.append(",\"fill_values\":");
        result.append("null");

        result.append(",\"model\":");
        if save_model {
            export_model_num(&mut result, &self.model);
        } else {
            result.append("null");
        }

        result.append(",\"model_mask\":");
        if save_mask {
            export_mask_num(&mut result, &self.model_mask);
        } else {
            result.append("null");
        }
        result.append("}");

        proof {
            reveal_strlit("null");
            reveal_strlit("}");
            assert("null"@ =~= seq!['n', 'u', 'l', 'l']);
            assert("}"@ =~= seq!['}']);
            let axes_spec = if axes_export@.len() == 2 {
                axes_export@
            } else {
                seq![AxisExportType::AsSelf, AxisExportType::AsSelf]
            };
            let null = seq!['n', 'u', 'l', 'l'];
            assert(result@ =~= "{\"params2D\":"@ + null + ",\"output_axes\":"@ + spec_axes_obj_2d(
                self.params,
                axes_spec,
                self.spec_depth_extent(),
            ) + ",\"borders\":"@ + (if save_borders {
                spec_bracketed_rows(seq!['b', 'o'], self.borders@)
            } else {
                null
            }) + ",\"fill_values\":"@ + null + ",\"model\":"@ + (if save_model {
                spec_bracketed_rows(seq!['x'], self.model@)
            } else {
                null
            }) + ",\"model_mask\":"@ + (if save_mask {
                spec_bracketed_rows_u8(seq!['x'], self.model_mask@)
            } else {
                null
            }) + seq!['}']);
        }
        result
    }
}

} // verus!
