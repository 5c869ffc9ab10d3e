//! What single blocks and runs render as: heading levels, to-do markers,
//! decorations and header cells, stated over all inputs.
use vstd::prelude::*;

use crate::catalog::{ComponentView, Decoration, HeadingLevel};
use crate::common::{ChildListView, DynamicStringView};
use crate::convert::{
    spec_list_style, spec_groups, spec_block_chunk, spec_cells, spec_cell_id, spec_list_chunk, spec_list_item,
    spec_list_items_upto, spec_row_parts, spec_table_rows, spec_rows_parts, Converter,
};
use crate::id::{lemma_child_ids_distinct, spec_child_id};
use crate::catalog::ListStyle;
use crate::minimal::spec_convert_block;
use crate::notion::{Block, BlockResponse, Color, RichText as NotionRichText, RichTextAnnotations};
use crate::color::{spec_map_background_color, spec_map_color};
use crate::blocks::spec_image_dimensions;
use crate::rich_text::{spec_decorations, spec_run_components};

verus! {

/// The checked box and a space, the marker of a done to-do.
pub open spec fn checked_box() -> Seq<char> {
    seq!['\u{2611}', ' ']
}

/// The empty box and a space, the marker of an open to-do.
pub open spec fn unchecked_box() -> Seq<char> {
    seq!['\u{2610}', ' ']
}

/// The level of a heading component, where `c` is a heading.
pub open spec fn heading_level_of(c: ComponentView) -> Option<HeadingLevel> {
    match c {
        ComponentView::Heading(h) => Some(h.level),
        _ => None,
    }
}

/// The id of a heading component, where `c` is a heading.
pub open spec fn heading_id_of(c: ComponentView) -> Option<Seq<char>> {
    match c {
        ComponentView::Heading(h) => Some(h.id),
        _ => None,
    }
}

/// The level that a Notion heading block asks for: `H1` for `heading_1`,
/// ..., `H4` for `heading_4`; `None` for other blocks.
pub open spec fn notion_heading_level(block: Block) -> Option<HeadingLevel> {
    match block {
        Block::Heading1 { .. } => Some(HeadingLevel::H1),
        Block::Heading2 { .. } => Some(HeadingLevel::H2),
        Block::Heading3 { .. } => Some(HeadingLevel::H3),
        Block::Heading4 { .. } => Some(HeadingLevel::H4),
        _ => None,
    }
}

/// A heading block converts, whatever the options, into components whose
/// last is a `Heading` with the block's id and the block's level: `heading_1`
/// gives `H1`, `heading_2` gives `H2`, `heading_3` gives `H3`, `heading_4`
/// gives `H4`.
pub proof fn lemma_heading_block_level(c: Converter, b: BlockResponse)
    requires
        notion_heading_level(b.block) is Some,
    ensures
        spec_block_chunk(c, b) matches Some((id, parts)) && id == b.id@ && parts.len() > 0
            && heading_level_of(parts.last()) == notion_heading_level(b.block)
            && heading_id_of(parts.last()) == Some(b.id@),
{
}

/// The paragraph-and-heading converter turns a heading block into
/// components whose first is a `Heading` with the block's id and the
/// block's level: `heading_1` gives `H1`, ..., `heading_4` gives `H4`.
pub proof fn lemma_minimal_heading_level(b: BlockResponse, enable_unsupported_block: bool)
    requires
        notion_heading_level(b.block) is Some,
    ensures
        spec_convert_block(b, enable_unsupported_block) matches Some((id, comps)) && id == b.id@
            && comps.len() > 0 && heading_level_of(comps[0]) == notion_heading_level(b.block)
            && heading_id_of(comps[0]) == Some(b.id@),
{
}

/// The text of a literal `RichText` component, where `c` is one.
pub open spec fn rich_text_literal(c: ComponentView) -> Option<Seq<char>> {
    match c {
        ComponentView::RichText(r) => match r.text {
            DynamicStringView::Literal(t) => Some(t),
            _ => None,
        },
        _ => None,
    }
}

/// The id of a `RichText` component, where `c` is one.
pub open spec fn rich_text_id(c: ComponentView) -> Option<Seq<char>> {
    match c {
        ComponentView::RichText(r) => Some(r.id),
        _ => None,
    }
}

/// The children of a `ListItem` component, where `c` is one.
pub open spec fn list_item_children(c: ComponentView) -> Option<Seq<Seq<char>>> {
    match c {
        ComponentView::ListItem(l) => Some(l.children),
        _ => None,
    }
}

/// A to-do item renders first a marker `<id>::todo_mark/0` holding a
/// checked box when the item is checked and an empty box when it is not,
/// and its `ListItem`, which comes last, lists that marker first.
pub proof fn lemma_todo_marker(c: Converter, b: BlockResponse)
    requires
        b.block is ToDo,
    ensures
        spec_list_item(c, b).len() > 0,
        rich_text_id(spec_list_item(c, b)[0]) == Some(spec_child_id(b.id@, "todo_mark"@, 0)),
        rich_text_literal(spec_list_item(c, b)[0]) == Some(
            if b.block->ToDo_checked {
                checked_box()
            } else {
                unchecked_box()
            },
        ),
        list_item_children(spec_list_item(c, b).last()) matches Some(ch) && ch.len() > 0
            && ch[0] == spec_child_id(b.id@, "todo_mark"@, 0),
{
    reveal_strlit("\u{2611} ");
    reveal_strlit("\u{2610} ");
    assert("\u{2611} "@ =~= checked_box());
    assert("\u{2610} "@ =~= unchecked_box());
}

proof fn lemma_list_items_start(c: Converter, items: Seq<BlockResponse>, n: int)
    requires
        1 <= n <= items.len(),
    ensures
        spec_list_items_upto(c, items, n).1.len() >= spec_list_item(c, items[0]).len(),
        spec_list_items_upto(c, items, n).1.subrange(0, spec_list_item(c, items[0]).len() as int)
            == spec_list_item(c, items[0]),
    decreases n,
{
    let first = spec_list_item(c, items[0]);
    if n == 1 {
        assert(spec_list_items_upto(c, items, 0).1 =~= Seq::<ComponentView>::empty());
        assert(spec_list_items_upto(c, items, 1).1 =~= first);
    } else {
        lemma_list_items_start(c, items, n - 1);
        let prev = spec_list_items_upto(c, items, n - 1).1;
        let cur = spec_list_items_upto(c, items, n).1;
        assert(cur == prev + spec_list_item(c, items[n - 1]));
        assert(cur.subrange(0, first.len() as int) =~= prev.subrange(0, first.len() as int));
    }
}

/// A list whose first item is a to-do renders, first of all, that item's
/// marker: a checked box when the item is checked and an empty box when it
/// is not.
pub proof fn lemma_todo_list_starts_with_marker(c: Converter, items: Seq<BlockResponse>, style: ListStyle)
    requires
        items.len() > 0,
        items[0].block is ToDo,
    ensures
        spec_list_chunk(c, items, style).1.len() > 0,
        rich_text_id(spec_list_chunk(c, items, style).1[0]) == Some(
            spec_child_id(items[0].id@, "todo_mark"@, 0),
        ),
        rich_text_literal(spec_list_chunk(c, items, style).1[0]) == Some(
            if items[0].block->ToDo_checked {
                checked_box()
            } else {
                unchecked_box()
            },
        ),
{
    lemma_todo_marker(c, items[0]);
    lemma_list_items_start(c, items, items.len() as int);
    let first = spec_list_item(c, items[0]);
    let all = spec_list_items_upto(c, items, items.len() as int).1;
    assert(all[0] == all.subrange(0, first.len() as int)[0]);
}

/// Whether a decoration list, absent or present, holds `d`.
pub open spec fn has_decoration(ds: Option<Seq<Decoration>>, d: Decoration) -> bool {
    ds matches Some(s) && s.contains(d)
}

/// The annotations of a run.
pub open spec fn run_annotations(item: NotionRichText) -> RichTextAnnotations {
    match item {
        NotionRichText::Text { annotations, .. } => annotations,
        NotionRichText::Mention { annotations, .. } => annotations,
        NotionRichText::Equation { annotations, .. } => annotations,
    }
}

/// The decorations of a `RichText` component, where `c` is one.
pub open spec fn decorations_of(c: ComponentView) -> Option<Option<Seq<Decoration>>> {
    match c {
        ComponentView::RichText(r) => Some(r.decoration),
        _ => None,
    }
}

proof fn lemma_add_contains(s1: Seq<Decoration>, s2: Seq<Decoration>, x: Decoration)
    ensures
        (s1 + s2).contains(x) <==> s1.contains(x) || s2.contains(x),
{
    let s = s1 + s2;
    if s.contains(x) {
        let k = choose|k: int| 0 <= k < s.len() && s[k] == x;
        if k < s1.len() {
            assert(s1[k] == x);
        } else {
            assert(s2[k - s1.len()] == x);
        }
    }
    if s1.contains(x) {
        let k = choose|k: int| 0 <= k < s1.len() && s1[k] == x;
        assert(s[k] == x);
    }
    if s2.contains(x) {
        let k = choose|k: int| 0 <= k < s2.len() && s2[k] == x;
        assert(s[s1.len() + k] == x);
    }
}

proof fn lemma_flag_contains(flag: bool, d: Decoration, x: Decoration)
    ensures
        (if flag { seq![d] } else { Seq::<Decoration>::empty() }).contains(x) <==> flag && x == d,
{
    if flag {
        assert(seq![d][0] == d);
    }
}

/// Each annotation of a run gives exactly its decoration: the decorations
/// hold `Bold` exactly when the run is bold, `Italic` exactly when italic,
/// `Underline` exactly when underlined, `Strikethrough` exactly when struck
/// through and `Code` exactly when marked as code; never `Katex`.
pub proof fn lemma_decorations_match_annotations(a: RichTextAnnotations)
    ensures
        spec_decorations(a).contains(Decoration::Bold) <==> a.bold,
        spec_decorations(a).contains(Decoration::Italic) <==> a.italic,
        spec_decorations(a).contains(Decoration::Underline) <==> a.underline,
        spec_decorations(a).contains(Decoration::Strikethrough) <==> a.strikethrough,
        spec_decorations(a).contains(Decoration::Code) <==> a.code,
        !spec_decorations(a).contains(Decoration::Katex),
        spec_decorations(a).len() == 0 <==> !(a.bold || a.italic || a.underline || a.strikethrough
            || a.code),
{
    let b = if a.bold { seq![Decoration::Bold] } else { Seq::<Decoration>::empty() };
    let i = if a.italic { seq![Decoration::Italic] } else { Seq::<Decoration>::empty() };
    let u = if a.underline { seq![Decoration::Underline] } else { Seq::<Decoration>::empty() };
    let s = if a.strikethrough { seq![Decoration::Strikethrough] } else { Seq::<Decoration>::empty() };
    let c = if a.code { seq![Decoration::Code] } else { Seq::<Decoration>::empty() };
    assert(spec_decorations(a) == b + i + u + s + c);
    let ds = seq![
        Decoration::Bold,
        Decoration::Italic,
        Decoration::Underline,
        Decoration::Strikethrough,
        Decoration::Code,
        Decoration::Katex,
    ];
    assert forall|k: int| 0 <= k < ds.len() implies (spec_decorations(a).contains(#[trigger] ds[k])
        <==> (b.contains(ds[k]) || i.contains(ds[k]) || u.contains(ds[k]) || s.contains(ds[k])
        || c.contains(ds[k]))) by {
        let x = ds[k];
        lemma_add_contains(b, i, x);
        lemma_add_contains(b + i, u, x);
        lemma_add_contains(b + i + u, s, x);
        lemma_add_contains(b + i + u + s, c, x);
    }
    assert forall|k: int| 0 <= k < ds.len() implies (#[trigger] b.contains(ds[k]) <==> a.bold && ds[k]
        == Decoration::Bold) && (i.contains(ds[k]) <==> a.italic && ds[k] == Decoration::Italic) && (
    u.contains(ds[k]) <==> a.underline && ds[k] == Decoration::Underline) && (s.contains(ds[k])
        <==> a.strikethrough && ds[k] == Decoration::Strikethrough) && (c.contains(ds[k]) <==> a.code
        && ds[k] == Decoration::Code) by {
        lemma_flag_contains(a.bold, Decoration::Bold, ds[k]);
        lemma_flag_contains(a.italic, Decoration::Italic, ds[k]);
        lemma_flag_contains(a.underline, Decoration::Underline, ds[k]);
        lemma_flag_contains(a.strikethrough, Decoration::Strikethrough, ds[k]);
        lemma_flag_contains(a.code, Decoration::Code, ds[k]);
    }
    assert(ds[0] == Decoration::Bold);
    assert(ds[1] == Decoration::Italic);
    assert(ds[2] == Decoration::Underline);
    assert(ds[3] == Decoration::Strikethrough);
    assert(ds[4] == Decoration::Code);
    assert(ds[5] == Decoration::Katex);
    if a.bold || a.italic || a.underline || a.strikethrough || a.code {
        if a.bold {
            assert(spec_decorations(a).contains(ds[0]));
        } else if a.italic {
            assert(spec_decorations(a).contains(ds[1]));
        } else if a.underline {
            assert(spec_decorations(a).contains(ds[2]));
        } else if a.strikethrough {
            assert(spec_decorations(a).contains(ds[3]));
        } else {
            assert(spec_decorations(a).contains(ds[4]));
        }
    } else {
        assert(spec_decorations(a) =~= Seq::<Decoration>::empty());
    }
}

/// Every run that renders as a `RichText` carries the decorations of its
/// annotations: `Bold`, `Italic`, `Underline`, `Strikethrough` and `Code`
/// each exactly when the run has the matching annotation, and `Katex`
/// exactly when the run is an equation.
pub proof fn lemma_run_decorations(parent: Seq<char>, slot: Seq<char>, items: Seq<NotionRichText>, k: int)
    requires
        0 <= k < items.len(),
        decorations_of(spec_run_components(parent, slot, items)[k]) is Some,
    ensures
        ({
            let ds = decorations_of(spec_run_components(parent, slot, items)[k])->0;
            let a = run_annotations(items[k]);
            &&& has_decoration(ds, Decoration::Bold) <==> a.bold
            &&& has_decoration(ds, Decoration::Italic) <==> a.italic
            &&& has_decoration(ds, Decoration::Underline) <==> a.underline
            &&& has_decoration(ds, Decoration::Strikethrough) <==> a.strikethrough
            &&& has_decoration(ds, Decoration::Code) <==> a.code
            &&& has_decoration(ds, Decoration::Katex) <==> items[k] is Equation
        }),
{
    let a = run_annotations(items[k]);
    lemma_decorations_match_annotations(a);
    let d = spec_decorations(a);
    let eq = items[k] is Equation;
    let kx = if eq { seq![Decoration::Katex] } else { Seq::<Decoration>::empty() };
    let all = d + kx;
    let xs = seq![
        Decoration::Bold,
        Decoration::Italic,
        Decoration::Underline,
        Decoration::Strikethrough,
        Decoration::Code,
        Decoration::Katex,
    ];
    assert forall|j: int| 0 <= j < xs.len() implies (all.contains(#[trigger] xs[j]) <==> d.contains(
        xs[j],
    ) || (eq && xs[j] == Decoration::Katex)) by {
        lemma_add_contains(d, kx, xs[j]);
        lemma_flag_contains(eq, Decoration::Katex, xs[j]);
    }
    assert(xs[0] == Decoration::Bold);
    assert(xs[1] == Decoration::Italic);
    assert(xs[2] == Decoration::Underline);
    assert(xs[3] == Decoration::Strikethrough);
    assert(xs[4] == Decoration::Code);
    assert(xs[5] == Decoration::Katex);
    if all.len() == 0 {
        assert(!eq);
    }
}

/// The `is_header` of a `TableCell` component, where `c` is one.
pub open spec fn cell_header(c: ComponentView) -> Option<Option<bool>> {
    match c {
        ComponentView::TableCell(t) => Some(t.is_header),
        _ => None,
    }
}

/// The id of a `TableCell` component, where `c` is one.
pub open spec fn cell_id_of(c: ComponentView) -> Option<Seq<char>> {
    match c {
        ComponentView::TableCell(t) => Some(t.id),
        _ => None,
    }
}

proof fn lemma_runs_are_not_cells(parent: Seq<char>, slot: Seq<char>, items: Seq<NotionRichText>, k: int)
    requires
        0 <= k < items.len(),
    ensures
        cell_header(spec_run_components(parent, slot, items)[k]) is None,
{
}

/// Among the components of a table row's cells, a `TableCell` is a header
/// cell exactly when the table has a row header and the cell is the row's
/// first; every other cell has no `is_header`.
pub proof fn lemma_row_header_cells(
    row_id: Seq<char>,
    cells: Seq<Vec<NotionRichText>>,
    has_row_header: bool,
    k: int,
)
    requires
        0 <= k < spec_cells(row_id, cells, has_row_header).len(),
        cell_header(spec_cells(row_id, cells, has_row_header)[k]) is Some,
    ensures
        cell_header(spec_cells(row_id, cells, has_row_header)[k]) == Some(
            if has_row_header && cell_id_of(spec_cells(row_id, cells, has_row_header)[k]) == Some(
                spec_cell_id(row_id, 0),
            ) {
                Some(true)
            } else {
                None::<bool>
            },
        ),
    decreases cells.len(),
{
    let all = spec_cells(row_id, cells, has_row_header);
    if cells.len() > 0 {
        let prev = spec_cells(row_id, cells.drop_last(), has_row_header);
        let n = cells.len() - 1;
        let runs = cells.last()@;
        let part = crate::convert::spec_cell_parts(row_id, n, runs, has_row_header);
        assert(all == prev + part);
        if k < prev.len() {
            assert(all[k] == prev[k]);
            lemma_row_header_cells(row_id, cells.drop_last(), has_row_header, k);
        } else {
            let k2 = k - prev.len();
            assert(all[k] == part[k2]);
            if k2 < runs.len() {
                let cell_id = spec_cell_id(row_id, n);
                assert(part[k2] == spec_run_components(cell_id, "rich_text"@, runs)[k2]);
                lemma_runs_are_not_cells(cell_id, "rich_text"@, runs, k2);
            } else {
                if n != 0 {
                    lemma_child_ids_distinct(row_id, "cell"@, n as nat, 0);
                }
            }
        }
    }
}

/// The components of a table row: a `TableCell` is a header cell exactly
/// when the table has a row header and the cell is the row's first.
pub proof fn lemma_row_parts_header_cells(row: BlockResponse, has_row_header: bool, k: int)
    requires
        0 <= k < spec_row_parts(row, has_row_header).len(),
        cell_header(spec_row_parts(row, has_row_header)[k]) is Some,
    ensures
        cell_header(spec_row_parts(row, has_row_header)[k]) == Some(
            if has_row_header && cell_id_of(spec_row_parts(row, has_row_header)[k]) == Some(
                spec_cell_id(row.id@, 0),
            ) {
                Some(true)
            } else {
                None::<bool>
            },
        ),
{
    let cells = crate::convert::spec_row_cells(row);
    let cs = spec_cells(row.id@, cells, has_row_header);
    if k < cs.len() {
        assert(spec_row_parts(row, has_row_header)[k] == cs[k]);
        lemma_row_header_cells(row.id@, cells, has_row_header, k);
    }
}

proof fn lemma_rows_header_cells(rows: Seq<BlockResponse>, has_row_header: bool, k: int)
    requires
        0 <= k < spec_rows_parts(rows, has_row_header).len(),
        cell_header(spec_rows_parts(rows, has_row_header)[k]) is Some,
    ensures
        cell_header(spec_rows_parts(rows, has_row_header)[k]) == Some(None::<bool>) || (has_row_header
            && cell_header(spec_rows_parts(rows, has_row_header)[k]) == Some(Some(true))),
    decreases rows.len(),
{
    if rows.len() > 0 {
        let prev = spec_rows_parts(rows.drop_last(), has_row_header);
        let last = spec_row_parts(rows.last(), has_row_header);
        assert(spec_rows_parts(rows, has_row_header) == prev + last);
        if k < prev.len() {
            assert(spec_rows_parts(rows, has_row_header)[k] == prev[k]);
            lemma_rows_header_cells(rows.drop_last(), has_row_header, k);
        } else {
            assert(spec_rows_parts(rows, has_row_header)[k] == last[k - prev.len()]);
            lemma_row_parts_header_cells(rows.last(), has_row_header, k - prev.len());
        }
    }
}

/// The components of a converted block, where it is converted.
pub open spec fn chunk_parts(r: Option<(Seq<char>, Seq<ComponentView>)>) -> Seq<ComponentView> {
    match r {
        Some((_, parts)) => parts,
        None => Seq::empty(),
    }
}

/// A table block renders header cells only when it has a row header: every
/// `TableCell` of its components has `is_header` either absent or, when the
/// table has a row header, `true`.
pub proof fn lemma_table_header_cells(c: Converter, b: BlockResponse, k: int)
    requires
        b.block is Table,
        spec_block_chunk(c, b) matches Some((id, parts)) && 0 <= k < parts.len()
            && cell_header(parts[k]) is Some,
    ensures
        ({
            let parts = chunk_parts(spec_block_chunk(c, b));
            ||| cell_header(parts[k]) == Some(None::<bool>)
            ||| b.block->has_row_header && cell_header(parts[k]) == Some(Some(true))
        }),
{
    let parts = chunk_parts(spec_block_chunk(c, b));
    let hrh = b.block->has_row_header;
    let rows = spec_table_rows(b.children@);
    let rp = spec_rows_parts(rows, hrh);
    assert(parts == crate::convert::spec_table_parts(b.id@, b.children@, b.block->has_column_header, hrh));
    if k < rp.len() {
        assert(parts[k] == rp[k]);
        lemma_rows_header_cells(rows, hrh, k);
    }
}

/// Bullets and to-dos are unordered list items, numbered items ordered ones,
/// and no other block is a list item.
pub proof fn lemma_list_style_kinds(block: Block)
    ensures
        spec_list_style(block) == Some(ListStyle::Unordered) <==> (block is BulletedListItem
            || block is ToDo),
        spec_list_style(block) == Some(ListStyle::Ordered) <==> block is NumberedListItem,
        spec_list_style(block) is None <==> !(block is BulletedListItem || block is ToDo
            || block is NumberedListItem),
{
}

/// The style of a `List` component, where `c` is one.
pub open spec fn list_style_of(c: ComponentView) -> Option<Option<ListStyle>> {
    match c {
        ComponentView::List(l) => Some(l.style),
        _ => None,
    }
}

/// The children of a `List` component, where `c` is one.
pub open spec fn list_children(c: ComponentView) -> Option<Seq<Seq<char>>> {
    match c {
        ComponentView::List(l) => Some(l.children),
        _ => None,
    }
}

proof fn lemma_list_item_ids(c: Converter, items: Seq<BlockResponse>, n: int)
    requires
        0 <= n <= items.len(),
    ensures
        spec_list_items_upto(c, items, n).0 == items.take(n).map_values(|b: BlockResponse| b.id@),
    decreases n,
{
    if n > 0 {
        lemma_list_item_ids(c, items, n - 1);
        assert(items.take(n).map_values(|b: BlockResponse| b.id@) =~= items.take(n - 1).map_values(
            |b: BlockResponse| b.id@,
        ).push(items[n - 1].id@));
    } else {
        assert(items.take(0).map_values(|b: BlockResponse| b.id@) =~= Seq::<Seq<char>>::empty());
    }
}

/// A run of list items renders as one `List`, last, whose style is the run's
/// and whose children are the items' ids, in order.
pub proof fn lemma_list_chunk_shape(c: Converter, items: Seq<BlockResponse>, style: ListStyle)
    ensures
        spec_list_chunk(c, items, style).1.len() > 0,
        list_style_of(spec_list_chunk(c, items, style).1.last()) == Some(Some(style)),
        list_children(spec_list_chunk(c, items, style).1.last()) == Some(
            items.map_values(|b: BlockResponse| b.id@),
        ),
{
    lemma_list_item_ids(c, items, items.len() as int);
    assert(items.take(items.len() as int) =~= items);
}

/// Every list group of sibling blocks has the style of each of its items:
/// unordered for bullets and to-dos, ordered for numbered items.
pub proof fn lemma_groups_take_the_items_style(blocks: Seq<BlockResponse>, k: int, j: int)
    requires
        blocks.len() <= usize::MAX,
        0 <= k < spec_groups(blocks).len(),
        spec_groups(blocks)[k] matches crate::convert::SiblingGroup::List { start, end, .. }
            && start <= j < end,
    ensures
        spec_groups(blocks)[k] matches crate::convert::SiblingGroup::List { style, .. }
            && spec_list_style(blocks[j].block) == Some(style)
            && (style == ListStyle::Unordered <==> (blocks[j].block is BulletedListItem
            || blocks[j].block is ToDo)),
{
    crate::laws::lemma_groups_split(blocks);
    let g = spec_groups(blocks);
    assert(crate::laws::splits(blocks, g, 0));
    let gk = g[k];
    if let crate::convert::SiblingGroup::List { start, end, style } = gk {
        assert(start <= j < end);
        assert(spec_list_style(blocks[j].block) == Some(style));
        lemma_list_style_kinds(blocks[j].block);
    }
}

/// Whether a color is one of the nine named foreground colors.
pub open spec fn is_named_foreground(c: Color) -> bool {
    c is Blue || c is Brown || c is Gray || c is Green || c is Orange || c is Pink || c is Purple
        || c is Red || c is Yellow
}

/// Whether a color is one of the nine named background colors.
pub open spec fn is_named_background(c: Color) -> bool {
    c is BlueBackground || c is BrownBackground || c is GrayBackground || c is GreenBackground
        || c is OrangeBackground || c is PinkBackground || c is PurpleBackground
        || c is RedBackground || c is YellowBackground
}

/// Foreground tokens give a text color and background tokens a background
/// color, never the other way round; the default tokens give neither; and
/// different tokens give different colors.
pub proof fn lemma_colors_partition(c1: Color, c2: Color)
    ensures
        spec_map_color(c1) is Some <==> is_named_foreground(c1),
        spec_map_background_color(c1) is Some <==> is_named_background(c1),
        c1 != c2 && spec_map_color(c1) is Some ==> spec_map_color(c1) != spec_map_color(c2),
        c1 != c2 && spec_map_background_color(c1) is Some ==> spec_map_background_color(c1)
            != spec_map_background_color(c2),
{
    reveal_strlit("#6987b8");
    reveal_strlit("#8b4c3f");
    reveal_strlit("#868e9c");
    reveal_strlit("#59b57c");
    reveal_strlit("#bf7e71");
    reveal_strlit("#c9699e");
    reveal_strlit("#9771bd");
    reveal_strlit("#b36472");
    reveal_strlit("#b8a36e");
    reveal_strlit("#c0cce1");
    reveal_strlit("#d0bdac");
    reveal_strlit("#cccfd5");
    reveal_strlit("#b1dcc2");
    reveal_strlit("#f1dbd2");
    reveal_strlit("#ebc7db");
    reveal_strlit("#d7c8e5");
    reveal_strlit("#e8c2c2");
    reveal_strlit("#f0e9d7");
    if c1 != c2 {
        if let (Some(a), Some(b)) = (spec_map_color(c1), spec_map_color(c2)) {
            assert(a.len() == 7 && b.len() == 7);
            assert(a[1] != b[1] || a[2] != b[2] || a[3] != b[3] || a[6] != b[6]);
        }
        if let (Some(a), Some(b)) = (spec_map_background_color(c1), spec_map_background_color(c2)) {
            assert(a.len() == 7 && b.len() == 7);
            assert(a[1] != b[1] || a[2] != b[2] || a[3] != b[3] || a[4] != b[4]);
        }
    }
}

/// The word `mermaid`.
pub open spec fn mermaid_word() -> Seq<char> {
    seq!['m', 'e', 'r', 'm', 'a', 'i', 'd']
}

/// Whether `c` is a `Mermaid` diagram.
pub open spec fn is_mermaid(c: ComponentView) -> bool {
    c is Mermaid
}

/// The language of a `CodeBlock`, where `c` is one.
pub open spec fn code_language(c: ComponentView) -> Option<Option<Seq<char>>> {
    match c {
        ComponentView::CodeBlock(cb) => Some(cb.language),
        _ => None,
    }
}

/// A code block renders as a single component: a `Mermaid` diagram exactly
/// when its language is `mermaid`, and otherwise a `CodeBlock` that names
/// the block's language.
pub proof fn lemma_code_block_kind(c: Converter, b: BlockResponse)
    requires
        b.block is Code,
    ensures
        spec_block_chunk(c, b) matches Some((id, parts)) && parts.len() == 1 && (is_mermaid(parts[0])
            <==> b.block->Code_language@ == mermaid_word()) && (!is_mermaid(parts[0]) ==> code_language(
            parts[0],
        ) == Some(Some(b.block->Code_language@))),
{
    reveal_strlit("mermaid");
    assert("mermaid"@ =~= mermaid_word());
}

/// The expression of a `Katex` component, where `c` is one.
pub open spec fn katex_expression(c: ComponentView) -> Option<Seq<char>> {
    match c {
        ComponentView::Katex(k) => Some(k.expression),
        _ => None,
    }
}

/// An equation block renders as a single `Katex` holding its expression.
pub proof fn lemma_equation_block(c: Converter, b: BlockResponse)
    requires
        b.block is Equation,
    ensures
        spec_block_chunk(c, b) matches Some((id, parts)) && parts.len() == 1 && katex_expression(
            parts[0],
        ) == Some(b.block->Equation_expression@),
{
}

/// With unsupported blocks enabled no block is skipped; only with them
/// disabled can a block yield nothing.
pub proof fn lemma_enabled_skips_nothing(c: Converter, b: BlockResponse, enable_unsupported_block: bool)
    ensures
        c.enable_unsupported_block ==> spec_block_chunk(c, b) is Some,
        enable_unsupported_block ==> spec_convert_block(b, enable_unsupported_block) is Some,
{
}

/// Without image metadata enabled no dimensions are read, whatever was
/// fetched.
pub proof fn lemma_no_dimensions_when_disabled(fetched: Option<Vec<u8>>)
    ensures
        spec_image_dimensions(false, fetched) is None,
{
}

} // verus!
