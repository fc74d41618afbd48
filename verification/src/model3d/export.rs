//! Text rendering of a generated 3D model: the JSON object the
//! serialization sink writes, built piece by piece with exact
//! character-level contracts. File writing stays outside the library.

use vstd::prelude::*;

use crate::model3d::Model3D;
use crate::text_num::spec_int_str;
use crate::text_num::i32_to_dec_str;
use crate::text_num::u8_to_dec_str;
use crate::text_num::usize_to_dec_str;
use crate::types::Axis;
use crate::types::AxisExportType;
use crate::types::axis::AxisError;

verus! {

/// The comma-separated decimal rendering of a non-empty value row.
pub open spec fn spec_join_i32(s: Seq<i32>) -> Seq<char>
    decreases s.len(),
{
    if s.len() <= 1 {
        spec_int_str(s[0] as int)
    } else {
        spec_join_i32(s.drop_last()) + seq![','] + spec_int_str(s.last() as int)
    }
}

/// The comma-separated decimal rendering of a non-empty mask row.
pub open spec fn spec_join_u8(s: Seq<u8>) -> Seq<char>
    decreases s.len(),
{
    if s.len() <= 1 {
        spec_int_str(s[0] as int)
    } else {
        spec_join_u8(s.drop_last()) + seq![','] + spec_int_str(s.last() as int)
    }
}

/// A keyed JSON array member: `{"<tag><idx>":[<body>]}`.
pub open spec fn spec_keyed(tag: Seq<char>, idx: int, body: Seq<char>) -> Seq<char> {
    seq!['{', '"'] + tag + crate::text_num::dec_digits(idx) + seq!['"', ':', '['] + body + seq![
        ']',
        '}',
    ]
}

/// The rows of one grid as y-keyed members, comma separated.
pub open spec fn spec_grid_rows(g: Seq<Vec<i32>>) -> Seq<char>
    decreases g.len(),
{
    if g.len() <= 1 {
        spec_keyed(seq!['y'], 0, spec_join_i32(g[0]@))
    } else {
        spec_grid_rows(g.drop_last()) + seq![','] + spec_keyed(
            seq!['y'],
            g.len() - 1,
            spec_join_i32(g.last()@),
        )
    }
}

/// The rows of one mask grid as y-keyed members, comma separated.
pub open spec fn spec_grid_rows_u8(g: Seq<Vec<u8>>) -> Seq<char>
    decreases g.len(),
{
    if g.len() <= 1 {
        spec_keyed(seq!['y'], 0, spec_join_u8(g[0]@))
    } else {
        spec_grid_rows_u8(g.drop_last()) + seq![','] + spec_keyed(
            seq!['y'],
            g.len() - 1,
            spec_join_u8(g.last()@),
        )
    }
}

/// A whole stack of grids as tag-keyed members, comma separated.
pub open spec fn spec_stack_json(tag: Seq<char>, b: Seq<Vec<Vec<i32>>>) -> Seq<char>
    decreases b.len(),
{
    if b.len() <= 1 {
        spec_keyed(tag, 0, spec_grid_rows(b[0]@))
    } else {
        spec_stack_json(tag, b.drop_last()) + seq![','] + spec_keyed(
            tag,
            b.len() - 1,
            spec_grid_rows(b.last()@),
        )
    }
}

/// A whole stack of mask grids as tag-keyed members, comma separated.
pub open spec fn spec_stack_json_u8(tag: Seq<char>, b: Seq<Vec<Vec<u8>>>) -> Seq<char>
    decreases b.len(),
{
    if b.len() <= 1 {
        spec_keyed(tag, 0, spec_grid_rows_u8(b[0]@))
    } else {
        spec_stack_json_u8(tag, b.drop_last()) + seq![','] + spec_keyed(
            tag,
            b.len() - 1,
            spec_grid_rows_u8(b.last()@),
        )
    }
}

/// A stack has only non-empty rows (so every row renders).
pub open spec fn stack_rows_nonempty(b: Seq<Vec<Vec<i32>>>) -> bool {
    forall|l: int, y: int|
        0 <= l < b.len() && 0 <= y < b[l]@.len() ==> (#[trigger] b[l]@[y])@.len() >= 1
}

/// A mask stack has only non-empty rows.
pub open spec fn stack_rows_nonempty_u8(b: Seq<Vec<Vec<u8>>>) -> bool {
    forall|l: int, y: int|
        0 <= l < b.len() && 0 <= y < b[l]@.len() ==> (#[trigger] b[l]@[y])@.len() >= 1
}

/// Appends `[` then the keyed stack members then `]`.
pub open spec fn spec_bracketed_stack(tag: Seq<char>, b: Seq<Vec<Vec<i32>>>) -> Seq<char> {
    if b.len() == 0 {
        seq!['[', ']']
    } else {
        seq!['['] + spec_stack_json(tag, b) + seq![']']
    }
}

/// Appends `[` then the keyed mask stack members then `]`.
pub open spec fn spec_bracketed_stack_u8(tag: Seq<char>, b: Seq<Vec<Vec<u8>>>) -> Seq<char> {
    if b.len() == 0 {
        seq!['[', ']']
    } else {
        seq!['['] + spec_stack_json_u8(tag, b) + seq![']']
    }
}

/// Appends the comma-separated decimals of a non-empty row.
fn append_join_i32(result: &mut String, row: &Vec<i32>)
    requires
        row@.len() >= 1,
    ensures
        final(result)@ == old(result)@ + spec_join_i32(row@),
{
    let first = i32_to_dec_str(row[0]);
    result.append(first.as_str());
    proof {
        assert(row@.subrange(0, 1) =~= seq![row@[0]]);
        assert(result@ =~= old(result)@ + spec_join_i32(row@.subrange(0, 1)));
    }
    let mut x: usize = 1;
    while x < row.len()
        invariant
            1 <= x <= row@.len(),
            result@ == old(result)@ + spec_join_i32(row@.subrange(0, x as int)),
        decreases row@.len() - x,
    {
        result.append(",");
        let piece = i32_to_dec_str(row[x]);
        result.append(piece.as_str());
        proof {
            reveal_strlit(",");
            assert(row@.subrange(0, x + 1).drop_last() =~= row@.subrange(0, x as int));
            assert(row@.subrange(0, x + 1).last() == row@[x as int]);
            assert(","@ =~= seq![',']);
            assert(result@ =~= old(result)@ + spec_join_i32(row@.subrange(0, x + 1)));
        }
        x += 1;
    }
    proof {
        assert(row@.subrange(0, row@.len() as int) =~= row@);
    }
}

/// Appends the comma-separated decimals of a non-empty mask row.
fn append_join_u8(result: &mut String, row: &Vec<u8>)
    requires
        row@.len() >= 1,
    ensures
        final(result)@ == old(result)@ + spec_join_u8(row@),
{
    let first = u8_to_dec_str(row[0]);
    result.append(first.as_str());
    proof {
        assert(row@.subrange(0, 1) =~= seq![row@[0]]);
        assert(result@ =~= old(result)@ + spec_join_u8(row@.subrange(0, 1)));
    }
    let mut x: usize = 1;
    while x < row.len()
        invariant
            1 <= x <= row@.len(),
            result@ == old(result)@ + spec_join_u8(row@.subrange(0, x as int)),
        decreases row@.len() - x,
    {
        result.append(",");
        let piece = u8_to_dec_str(row[x]);
        result.append(piece.as_str());
        proof {
            reveal_strlit(",");
            assert(row@.subrange(0, x + 1).drop_last() =~= row@.subrange(0, x as int));
            assert(row@.subrange(0, x + 1).last() == row@[x as int]);
            assert(","@ =~= seq![',']);
            assert(result@ =~= old(result)@ + spec_join_u8(row@.subrange(0, x + 1)));
        }
        x += 1;
    }
    proof {
        assert(row@.subrange(0, row@.len() as int) =~= row@);
    }
}

/// Appends one y-keyed row member.
fn append_keyed_row_i32(result: &mut String, idx: usize, row: &Vec<i32>)
    requires
        row@.len() >= 1,
    ensures
        final(result)@ == old(result)@ + spec_keyed(seq!['y'], idx as int, spec_join_i32(row@)),
{
    result.append("{\"y");
    let idx_str = usize_to_dec_str(idx);
    result.append(idx_str.as_str());
    result.append("\":[");
    append_join_i32(result, row);
    result.append("]}");
    proof {
        reveal_strlit("{\"y");
        reveal_strlit("\":[");
        reveal_strlit("]}");
        assert("{\"y"@ =~= seq!['{', '"', 'y']);
        assert("\":["@ =~= seq!['"', ':', '[']);
        assert("]}"@ =~= seq![']', '}']);
        assert(result@ =~= old(result)@ + spec_keyed(
            seq!['y'],
            idx as int,
            spec_join_i32(row@),
        ));
    }
}

/// Appends one y-keyed mask row member.
fn append_keyed_row_u8(result: &mut String, idx: usize, row: &Vec<u8>)
    requires
        row@.len() >= 1,
    ensures
        final(result)@ == old(result)@ + spec_keyed(seq!['y'], idx as int, spec_join_u8(row@)),
{
    result.append("{\"y");
    let idx_str = usize_to_dec_str(idx);
    result.append(idx_str.as_str());
    result.append("\":[");
    append_join_u8(result, row);
    result.append("]}");
    proof {
        reveal_strlit("{\"y");
        reveal_strlit("\":[");
        reveal_strlit("]}");
        assert("{\"y"@ =~= seq!['{', '"', 'y']);
        assert("\":["@ =~= seq!['"', ':', '[']);
        assert("]}"@ =~= seq![']', '}']);
        assert(result@ =~= old(result)@ + spec_keyed(seq!['y'], idx as int, spec_join_u8(row@)));
    }
}

/// Appends one tag-keyed value row member.
pub(crate) fn append_keyed_values_i32(
    result: &mut String,
    tag: &str,
    idx: usize,
    row: &Vec<i32>,
    Ghost(tag_view): Ghost<Seq<char>>,
)
    requires
        tag@ == tag_view,
        row@.len() >= 1,
    ensures
        final(result)@ == old(result)@ + spec_keyed(tag_view, idx as int, spec_join_i32(row@)),
{
    result.append("{\"");
    result.append(tag);
    let idx_str = usize_to_dec_str(idx);
    result.append(idx_str.as_str());
    result.append("\":[");
    append_join_i32(result, row);
    result.append("]}");
    proof {
        reveal_strlit("{\"");
        reveal_strlit("\":[");
        reveal_strlit("]}");
        assert("{\""@ =~= seq!['{', '"']);
        assert("\":["@ =~= seq!['"', ':', '[']);
        assert("]}"@ =~= seq![']', '}']);
        assert(result@ =~= old(result)@ + spec_keyed(
            tag_view,
            idx as int,
            spec_join_i32(row@),
        ));
    }
}

/// Appends one tag-keyed mask row member.
pub(crate) fn append_keyed_values_u8(
    result: &mut String,
    tag: &str,
    idx: usize,
    row: &Vec<u8>,
    Ghost(tag_view): Ghost<Seq<char>>,
)
    requires
        tag@ == tag_view,
        row@.len() >= 1,
    ensures
        final(result)@ == old(result)@ + spec_keyed(tag_view, idx as int, spec_join_u8(row@)),
{
    result.append("{\"");
    result.append(tag);
    let idx_str = usize_to_dec_str(idx);
    result.append(idx_str.as_str());
    result.append("\":[");
    append_join_u8(result, row);
    result.append("]}");
    proof {
        reveal_strlit("{\"");
        reveal_strlit("\":[");
        reveal_strlit("]}");
        assert("{\""@ =~= seq!['{', '"']);
        assert("\":["@ =~= seq!['"', ':', '[']);
        assert("]}"@ =~= seq![']', '}']);
        assert(result@ =~= old(result)@ + spec_keyed(tag_view, idx as int, spec_join_u8(row@)));
    }
}

/// Appends the comma-separated y-keyed rows of one non-empty grid.
fn append_grid_rows(result: &mut String, grid: &Vec<Vec<i32>>)
    requires
        grid@.len() >= 1,
        forall|y: int| 0 <= y < grid@.len() ==> (#[trigger] grid@[y])@.len() >= 1,
    ensures
        final(result)@ == old(result)@ + spec_grid_rows(grid@),
{
    append_keyed_row_i32(result, 0, &grid[0]);
    proof {
        assert(grid@.subrange(0, 1) =~= seq![grid@[0]]);
        assert(result@ =~= old(result)@ + spec_grid_rows(grid@.subrange(0, 1)));
    }
    let mut y: usize = 1;
    while y < grid.len()
        invariant
            1 <= y <= grid@.len(),
            forall|yy: int| 0 <= yy < grid@.len() ==> (#[trigger] grid@[yy])@.len() >= 1,
            result@ == old(result)@ + spec_grid_rows(grid@.subrange(0, y as int)),
        decreases grid@.len() - y,
    {
        result.append(",");
        append_keyed_row_i32(result, y, &grid[y]);
        proof {
            reveal_strlit(",");
            assert(grid@.subrange(0, y + 1).drop_last() =~= grid@.subrange(0, y as int));
            assert(grid@.subrange(0, y + 1).last() == grid@[y as int]);
            assert(","@ =~= seq![',']);
            assert(result@ =~= old(result)@ + spec_grid_rows(grid@.subrange(0, y + 1)));
        }
        y += 1;
    }
    proof {
        assert(grid@.subrange(0, grid@.len() as int) =~= grid@);
    }
}

/// Appends the comma-separated y-keyed rows of one non-empty mask
/// grid.
fn append_grid_rows_u8(result: &mut String, grid: &Vec<Vec<u8>>)
    requires
        grid@.len() >= 1,
        forall|y: int| 0 <= y < grid@.len() ==> (#[trigger] grid@[y])@.len() >= 1,
    ensures
        final(result)@ == old(result)@ + spec_grid_rows_u8(grid@),
{
    append_keyed_row_u8(result, 0, &grid[0]);
    proof {
        assert(grid@.subrange(0, 1) =~= seq![grid@[0]]);
        assert(result@ =~= old(result)@ + spec_grid_rows_u8(grid@.subrange(0, 1)));
    }
    let mut y: usize = 1;
    while y < grid.len()
        invariant
            1 <= y <= grid@.len(),
            forall|yy: int| 0 <= yy < grid@.len() ==> (#[trigger] grid@[yy])@.len() >= 1,
            result@ == old(result)@ + spec_grid_rows_u8(grid@.subrange(0, y as int)),
        decreases grid@.len() - y,
    {
        result.append(",");
        append_keyed_row_u8(result, y, &grid[y]);
        proof {
            reveal_strlit(",");
            assert(grid@.subrange(0, y + 1).drop_last() =~= grid@.subrange(0, y as int));
            assert(grid@.subrange(0, y + 1).last() == grid@[y as int]);
            assert(","@ =~= seq![',']);
            assert(result@ =~= old(result)@ + spec_grid_rows_u8(grid@.subrange(0, y + 1)));
        }
        y += 1;
    }
    proof {
        assert(grid@.subrange(0, grid@.len() as int) =~= grid@);
    }
}

/// Appends a whole bracketed, tag-keyed stack of grids.
fn append_stack(result: &mut String, tag: &str, stack: &Vec<Vec<Vec<i32>>>, Ghost(tag_view): Ghost<
    Seq<char>,
>)
    requires
        tag@ == tag_view,
        forall|l: int| 0 <= l < stack@.len() ==> (#[trigger] stack@[l])@.len() >= 1,
        stack_rows_nonempty(stack@),
    ensures
        final(result)@ == old(result)@ + spec_bracketed_stack(tag_view, stack@),
{
    result.append("[");
    proof {
        reveal_strlit("[");
        assert("["@ =~= seq!['[']);
    }
    if stack.len() == 0 {
        result.append("]");
        proof {
            reveal_strlit("]");
            assert("]"@ =~= seq![']']);
            assert(result@ =~= old(result)@ + spec_bracketed_stack(tag_view, stack@));
        }
        return ;
    }

    let ghost mid0 = result@;
    append_keyed_stack_member(result, tag, 0, &stack[0], Ghost(tag_view));
    proof {
        assert(stack@.subrange(0, 1) =~= seq![stack@[0]]);
        assert(result@ =~= mid0 + spec_stack_json(tag_view, stack@.subrange(0, 1)));
    }
    let mut l: usize = 1;
    while l < stack.len()
        invariant
            1 <= l <= stack@.len(),
            tag@ == tag_view,
            forall|ll: int| 0 <= ll < stack@.len() ==> (#[trigger] stack@[ll])@.len() >= 1,
            stack_rows_nonempty(stack@),
            mid0 == old(result)@ + seq!['['],
            result@ == mid0 + spec_stack_json(tag_view, stack@.subrange(0, l as int)),
        decreases stack@.len() - l,
    {
        result.append(",");
        append_keyed_stack_member(result, tag, l, &stack[l], Ghost(tag_view));
        proof {
            reveal_strlit(",");
            assert(stack@.subrange(0, l + 1).drop_last() =~= stack@.subrange(0, l as int));
            assert(stack@.subrange(0, l + 1).last() == stack@[l as int]);
            assert(","@ =~= seq![',']);
            assert(result@ =~= mid0 + spec_stack_json(tag_view, stack@.subrange(0, l + 1)));
        }
        l += 1;
    }
    result.append("]");
    proof {
        reveal_strlit("]");
        assert("]"@ =~= seq![']']);
        assert(stack@.subrange(0, stack@.len() as int) =~= stack@);
        assert(result@ =~= old(result)@ + spec_bracketed_stack(tag_view, stack@));
    }
}

/// Appends one tag-keyed grid member of a stack.
fn append_keyed_stack_member(
    result: &mut String,
    tag: &str,
    idx: usize,
    grid: &Vec<Vec<i32>>,
    Ghost(tag_view): Ghost<Seq<char>>,
)
    requires
        tag@ == tag_view,
        grid@.len() >= 1,
        forall|y: int| 0 <= y < grid@.len() ==> (#[trigger] grid@[y])@.len() >= 1,
    ensures
        final(result)@ == old(result)@ + spec_keyed(tag_view, idx as int, spec_grid_rows(grid@)),
{
    result.append("{\"");
    result.append(tag);
    let idx_str = usize_to_dec_str(idx);
    result.append(idx_str.as_str());
    result.append("\":[");
    append_grid_rows(result, grid);
    result.append("]}");
    proof {
        reveal_strlit("{\"");
        reveal_strlit("\":[");
        reveal_strlit("]}");
        assert("{\""@ =~= seq!['{', '"']);
        assert("\":["@ =~= seq!['"', ':', '[']);
        assert("]}"@ =~= seq![']', '}']);
        assert(result@ =~= old(result)@ + spec_keyed(
            tag_view,
            idx as int,
            spec_grid_rows(grid@),
        ));
    }
}

/// Appends the bordered stack as `bo`-keyed members: the borders
/// section of the sink's JSON.
pub fn export_border_num(result: &mut String, borders: &Vec<Vec<Vec<i32>>>)
    requires
        forall|l: int| 0 <= l < borders@.len() ==> (#[trigger] borders@[l])@.len() >= 1,
        stack_rows_nonempty(borders@),
    ensures
        final(result)@ == old(result)@ + spec_bracketed_stack(seq!['b', 'o'], borders@),
{
    proof {
        reveal_strlit("bo");
        assert("bo"@ =~= seq!['b', 'o']);
    }
    let ghost tv = seq!['b', 'o'];
    append_stack(result, "bo", borders, Ghost(tv));
}

/// Appends the voxel volume as `x`-keyed members: the model section
/// of the sink's JSON.
pub fn export_model_num(result: &mut String, model: &Vec<Vec<Vec<i32>>>)
    requires
        forall|l: int| 0 <= l < model@.len() ==> (#[trigger] model@[l])@.len() >= 1,
        stack_rows_nonempty(model@),
    ensures
        final(result)@ == old(result)@ + spec_bracketed_stack(seq!['x'], model@),
{
    proof {
        reveal_strlit("x");
        assert("x"@ =~= seq!['x']);
    }
    let ghost tv = seq!['x'];
    append_stack(result, "x", model, Ghost(tv));
}

/// Appends the mask as `x`-keyed members: the mask section of the
/// sink's JSON.
pub fn export_mask_num(result: &mut String, model_mask: &Vec<Vec<Vec<u8>>>)
    requires
        forall|l: int| 0 <= l < model_mask@.len() ==> (#[trigger] model_mask@[l])@.len() >= 1,
        stack_rows_nonempty_u8(model_mask@),
    ensures
        final(result)@ == old(result)@ + spec_bracketed_stack_u8(seq!['x'], model_mask@),
{
    result.append("[");
    proof {
        reveal_strlit("[");
        assert("["@ =~= seq!['[']);
    }
    if model_mask.len() == 0 {
        result.append("]");
        proof {
            reveal_strlit("]");
            assert("]"@ =~= seq![']']);
            assert(result@ =~= old(result)@ + spec_bracketed_stack_u8(seq!['x'], model_mask@));
        }
        return ;
    }

    let ghost mid0 = result@;
    append_keyed_mask_member(result, 0, &model_mask[0]);
    proof {
        assert(model_mask@.subrange(0, 1) =~= seq![model_mask@[0]]);
        assert(result@ =~= mid0 + spec_stack_json_u8(seq!['x'], model_mask@.subrange(0, 1)));
    }
    let mut l: usize = 1;
    while l < model_mask.len()
        invariant
            1 <= l <= model_mask@.len(),
            forall|ll: int| 0 <= ll < model_mask@.len() ==> (#[trigger] model_mask@[ll])@.len() >= 1,
            stack_rows_nonempty_u8(model_mask@),
            mid0 == old(result)@ + seq!['['],
            result@ == mid0 + spec_stack_json_u8(seq!['x'], model_mask@.subrange(0, l as int)),
        decreases model_mask@.len() - l,
    {
        result.append(",");
        append_keyed_mask_member(result, l, &model_mask[l]);
        proof {
            reveal_strlit(",");
            assert(model_mask@.subrange(0, l + 1).drop_last() =~= model_mask@.subrange(
                0,
                l as int,
            ));
            assert(model_mask@.subrange(0, l + 1).last() == model_mask@[l as int]);
            assert(","@ =~= seq![',']);
            assert(result@ =~= mid0 + spec_stack_json_u8(
                seq!['x'],
                model_mask@.subrange(0, l + 1),
            ));
        }
        l += 1;
    }
    result.append("]");
    proof {
        reveal_strlit("]");
        assert("]"@ =~= seq![']']);
        assert(model_mask@.subrange(0, model_mask@.len() as int) =~= model_mask@);
        assert(result@ =~= old(result)@ + spec_bracketed_stack_u8(seq!['x'], model_mask@));
    }
}

/// The edges of the depth axis `1..=depth` in millis.
pub open spec fn spec_z_edges(depth: int) -> Seq<i64> {
    Seq::new(depth as nat, |k: int| (1000 + 1000 * k) as i64)
}

/// The realized fill bounds as a nested JSON array of `[low, high]`
/// rows.
pub open spec fn spec_ranges_items(rows: Seq<Vec<i32>>) -> Seq<char>
    decreases rows.len(),
{
    if rows.len() <= 1 {
        seq!['['] + spec_join_i32(rows[0]@) + seq![']']
    } else {
        spec_ranges_items(rows.drop_last()) + seq![','] + seq!['['] + spec_join_i32(
            rows.last()@,
        ) + seq![']']
    }
}

/// The realized fill bounds section, bracketed.
pub open spec fn spec_ranges_json(rows: Seq<Vec<i32>>) -> Seq<char> {
    if rows.len() == 0 {
        seq!['[', ']']
    } else {
        seq!['['] + spec_ranges_items(rows) + seq![']']
    }
}

/// The output-axes object: the X, Y and depth axes, each rendered
/// under its export mode.
pub open spec fn spec_axes_obj(
    params: crate::types::generation_params::Params3D,
    axes: Seq<AxisExportType>,
    depth: int,
) -> Seq<char> {
    "{\"x_ax\":["@ + crate::types::axis::spec_export_axis(
        params.x_ax.blocks_count as int,
        params.x_ax.axis@,
        axes[0],
    ) + "],"@ + "\"y_ax\":["@ + crate::types::axis::spec_export_axis(
        params.y_ax.blocks_count as int,
        params.y_ax.axis@,
        axes[1],
    ) + "],"@ + "\"z_ax\":["@ + crate::types::axis::spec_export_axis(
        depth - 1,
        spec_z_edges(depth),
        axes[2],
    ) + "]}"@
}

/// Appends the fill bounds rows as a nested JSON array.
fn append_ranges(result: &mut String, rows: &Vec<Vec<i32>>)
    requires
        forall|i: int| 0 <= i < rows@.len() ==> (#[trigger] rows@[i])@.len() >= 1,
    ensures
        final(result)@ == old(result)@ + spec_ranges_json(rows@),
{
    result.append("[");
    proof {
        reveal_strlit("[");
        assert("["@ =~= seq!['[']);
    }
    if rows.len() == 0 {
        result.append("]");
        proof {
            reveal_strlit("]");
            assert("]"@ =~= seq![']']);
            assert(result@ =~= old(result)@ + spec_ranges_json(rows@));
        }
        return ;
    }
    let ghost mid0 = result@;
    result.append("[");
    append_join_i32(result, &rows[0]);
    result.append("]");
    proof {
        reveal_strlit("[");
        reveal_strlit("]");
        assert("["@ =~= seq!['[']);
        assert("]"@ =~= seq![']']);
        assert(rows@.subrange(0, 1) =~= seq![rows@[0]]);
        assert(result@ =~= mid0 + spec_ranges_items(rows@.subrange(0, 1)));
    }
    let mut i: usize = 1;
    while i < rows.len()
        invariant
            1 <= i <= rows@.len(),
            forall|k: int| 0 <= k < rows@.len() ==> (#[trigger] rows@[k])@.len() >= 1,
            mid0 == old(result)@ + seq!['['],
            result@ == mid0 + spec_ranges_items(rows@.subrange(0, i as int)),
        decreases rows@.len() - i,
    {
        result.append(",[");
        append_join_i32(result, &rows[i]);
        result.append("]");
        proof {
            reveal_strlit(",[");
            reveal_strlit("]");
            assert(",["@ =~= seq![',', '[']);
            assert("]"@ =~= seq![']']);
            assert(rows@.subrange(0, i + 1).drop_last() =~= rows@.subrange(0, i as int));
            assert(rows@.subrange(0, i + 1).last() == rows@[i as int]);
            assert(result@ =~= mid0 + spec_ranges_items(rows@.subrange(0, i + 1)));
        }
        i += 1;
    }
    result.append("]");
    proof {
        reveal_strlit("]");
        assert("]"@ =~= seq![']']);
        assert(rows@.subrange(0, rows@.len() as int) =~= rows@);
        assert(result@ =~= old(result)@ + spec_ranges_json(rows@));
    }
}

/// Appends the output-axes object, rendering the X, Y and generated
/// depth axes under the three export modes.
pub fn export_true_axes(
    result: &mut String,
    params: &crate::types::generation_params::Params3D,
    axes_export: &Vec<AxisExportType>,
    depth_model_size: i32,
)
    requires
        params.wf(),
        2 <= depth_model_size <= 1_000_000_000,
        axes_export@.len() == 3,
        forall|i: int|
            0 <= i < 3 ==> crate::types::axis::axis_export_ok(#[trigger] axes_export@[i]),
    ensures
        final(result)@ == old(result)@ + spec_axes_obj(
            *params,
            axes_export@,
            depth_model_size as int,
        ),
{
    result.append("{\"x_ax\":[");
    params.x_axis().export_axis(&axes_export[0], result);
    result.append("],");

    result.append("\"y_ax\":[");
    params.y_axis().export_axis(&axes_export[1], result);
    result.append("],");

    result.append("\"z_ax\":[");
    let z_axis = match Axis::generate_axis(1000, depth_model_size as i64 * 1000, None) {
        Ok(ax) => ax,
        Err(_) => {
            proof {
                assert(false);
            }
            Axis::new()
        },
    };
    proof {
        assert(z_axis.axis@ =~= spec_z_edges(depth_model_size as int));
        assert(z_axis.blocks_count == depth_model_size - 1);
    }
    z_axis.export_axis(&axes_export[2], result);
    result.append("]}");
    proof {
        assert(result@ =~= old(result)@ + spec_axes_obj(
            *params,
            axes_export@,
            depth_model_size as int,
        ));
    }
}

impl Model3D {
    /// Renders the sink's whole JSON object for this model: the
    /// already-serialized configuration (or null), the output axes,
    /// and each requested section, with `null` for the others.
    pub fn export_model_text(
        &self,
        params_json: Option<&String>,
        save_borders: bool,
        save_fill_values: bool,
        save_model: bool,
        save_mask: bool,
        axes_export: &Vec<AxisExportType>,
    ) -> (r: String)
        requires
            self.params.wf(),
            2 <= self.max_depth <= 1_000_000_000,
            axes_export@.len() == 3 ==> forall|i: int|
                0 <= i < 3 ==> crate::types::axis::axis_export_ok(#[trigger] axes_export@[i]),
            save_borders ==> forall|l: int|
                0 <= l < self.borders@.len() ==> (#[trigger] self.borders@[l])@.len() >= 1,
            save_borders ==> stack_rows_nonempty(self.borders@),
            save_fill_values ==> forall|i: int|
                0 <= i < self.layers_filling_values@.len() ==> (
                #[trigger] self.layers_filling_values@[i])@.len() >= 1,
            save_model ==> forall|l: int|
                0 <= l < self.model@.len() ==> (#[trigger] self.model@[l])@.len() >= 1,
            save_model ==> stack_rows_nonempty(self.model@),
            save_mask ==> forall|l: int|
                0 <= l < self.model_mask@.len() ==> (#[trigger] self.model_mask@[l])@.len() >= 1,
            save_mask ==> stack_rows_nonempty_u8(self.model_mask@),
        ensures
            ({
                let axes = if axes_export@.len() == 3 {
                    axes_export@
                } else {
                    seq![AxisExportType::AsSelf, AxisExportType::AsSelf, AxisExportType::AsSelf]
                };
                let null = seq!['n', 'u', 'l', 'l'];
                r@ == "{\"params3D\":"@ + (match params_json {
                    Some(p) => p@,
                    None => null,
                }) + ",\"output_axes\":"@ + spec_axes_obj(self.params, axes, self.max_depth as int)
                    + ",\"borders\":"@ + (if save_borders {
                    spec_bracketed_stack(seq!['b', 'o'], self.borders@)
                } else {
                    null
                }) + ",\"fill_values\":"@ + (if save_fill_values {
                    spec_ranges_json(self.layers_filling_values@)
                } else {
                    null
                }) + ",\"model\":"@ + (if save_model {
                    spec_bracketed_stack(seq!['x'], self.model@)
                } else {
                    null
                }) + ",\"model_mask\":"@ + (if save_mask {
                    spec_bracketed_stack_u8(seq!['x'], self.model_mask@)
                } else {
                    null
                }) + seq!['}']
            }),
    {
        let mut default_axes: Vec<AxisExportType> = Vec::new();
        default_axes.push(AxisExportType::AsSelf);
        default_axes.push(AxisExportType::AsSelf);
        default_axes.push(AxisExportType::AsSelf);
        let axes: &Vec<AxisExportType> = if axes_export.len() != 3 {
            &default_axes
        } else {
            axes_export
        };
        proof {
            assert(default_axes@ =~= seq![
                AxisExportType::AsSelf,
                AxisExportType::AsSelf,
                AxisExportType::AsSelf,
            ]);
        }

        let mut result = String::new();
        result.append("{\"params3D\":");
        match params_json {
            Some(p) => {
                result.append(p.as_str());
            },
            None => {
                result.append("null");
            },
        }

        result.append(",\"output_axes\":");
        export_true_axes(&mut result, &self.params, axes, self.max_depth);

        result.append(",\"borders\":");
        if save_borders {
            export_border_num(&mut result, &self.borders);
        } else {
            result.append("null");
        }

        result.append(",\"fill_values\":");
        if save_fill_values {
            append_ranges(&mut result, &self.layers_filling_values);
        } else {
            result.append("null");
        }

        result.append(",\"model\":");
        if save_model {
            export_model_num(&mut result, &self.model);
        } else {
            result.append("null");
        }

        result.append(",\"model_mask\":");
        if save_mask {
            export_mask_num(&mut result, &self.model_mask);
        } else {
            result.append("null");
        }
        result.append("}");

        proof {
            reveal_strlit("null");
            reveal_strlit("}");
            assert("null"@ =~= seq!['n', 'u', 'l', 'l']);
            assert("}"@ =~= seq!['}']);
            let axes_spec = if axes_export@.len() == 3 {
                axes_export@
            } else {
                seq![AxisExportType::AsSelf, AxisExportType::AsSelf, AxisExportType::AsSelf]
            };
            let null = seq!['n', 'u', 'l', 'l'];
            assert(result@ =~= "{\"params3D\":"@ + (match params_json {
                Some(p) => p@,
                None => null,
            }) + ",\"output_axes\":"@ + spec_axes_obj(self.params, axes_spec, self.max_depth as int)
                + ",\"borders\":"@ + (if save_borders {
                spec_bracketed_stack(seq!['b', 'o'], self.borders@)
            } else {
                null
            }) + ",\"fill_values\":"@ + (if save_fill_values {
                spec_ranges_json(self.layers_filling_values@)
            } else {
                null
            }) + ",\"model\":"@ + (if save_model {
                spec_bracketed_stack(seq!['x'], self.model@)
            } else {
                null
            }) + ",\"model_mask\":"@ + (if save_mask {
                spec_bracketed_stack_u8(seq!['x'], self.model_mask@)
            } else {
                null
            }) + seq!['}']);
        }
        result
    }
}

/// Appends one x-keyed mask grid member.
fn append_keyed_mask_member(result: &mut String, idx: usize, grid: &Vec<Vec<u8>>)
    requires
        grid@.len() >= 1,
        forall|y: int| 0 <= y < grid@.len() ==> (#[trigger] grid@[y])@.len() >= 1,
    ensures
        final(result)@ == old(result)@ + spec_keyed(
            seq!['x'],
            idx as int,
            spec_grid_rows_u8(grid@),
        ),
{
    result.append("{\"x");
    let idx_str = usize_to_dec_str(idx);
    result.append(idx_str.as_str());
    result.append("\":[");
    append_grid_rows_u8(result, grid);
    result.append("]}");
    proof {
        reveal_strlit("{\"x");
        reveal_strlit("\":[");
        reveal_strlit("]}");
        assert("{\"x"@ =~= seq!['{', '"', 'x']);
        assert("\":["@ =~= seq!['"', ':', '[']);
        assert("]}"@ =~= seq![']', '}']);
        assert(result@ =~= old(result)@ + spec_keyed(
            seq!['x'],
            idx as int,
            spec_grid_rows_u8(grid@),
        ));
    }
}

} // verus!
