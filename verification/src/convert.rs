//! Notion block trees to A2UI components.
//!
//! Sibling blocks are converted group by group: a group is a single block,
//! or a maximal run of consecutive list items of one style, which collapses
//! into one `List`. Each group yields the id its parent references and the
//! components synthesized for it, children before parents.
use vstd::prelude::*;
use vstd::string::StringExecFns;

use crate::blocks::{
    callout_type_from_icon, code_component, file_component, image_component, image_dimensions,
    inline_icon_component, katex, unsupported_label, spec_code_component, spec_file_component, spec_image_component, spec_image_dimensions,
    spec_inline_icon, spec_callout_type, spec_katex, spec_unsupported, spec_unsupported_label,
};
use crate::catalog::{
    views, BlockQuote, Bookmark, Callout, Column, ColumnList, Component, ContentTab, ContentTabs,
    Divider, Heading, List, ListItem, Paragraph, RichText, Table, TableCell, TableRow, Toggle,
    Unsupported, BlockQuoteView, BookmarkView, CalloutView, ColumnListView, ColumnView, ComponentView,
    ContentTabView, ContentTabsView, DividerView, HeadingLevel, HeadingView, ListItemView,
    ListStyle, ListView, ParagraphView, RichTextView, TableCellView, TableRowView, TableView,
    ToggleView,
};
use crate::color::{spec_map_background_color, spec_map_color};
use crate::common::{
    str_views, ChildList, ChildListView, ComponentId, DynamicString, DynamicStringView, Number,
};
use crate::id::{
    child_id, list_group_id, notion_page_url, spec_child_id, spec_list_group_id,
    spec_notion_page_url,
};
use crate::notion::{
    Block, BlockResponse, Color, EmojiAndIcon, File as NotionFile, RichText as NotionRichText,
};
use crate::rich_text::{convert_rich_texts, spec_run_components, spec_run_ids};

verus! {

/// The options of a conversion.
#[derive(Debug, Clone, Copy, PartialEq, Eq, Structural)]
pub struct Converter {
    /// Blocks of unknown kinds render as `Unsupported` components when set,
    /// and are skipped otherwise.
    pub enable_unsupported_block: bool,
    /// Image blocks carry their intrinsic width and height when set.
    pub enable_fetch_image_meta: bool,
}

/// One group of sibling blocks: a single block, or the run of list items
/// `start..end`, all of style `style`.
#[derive(Debug, Clone, Copy, PartialEq, Eq, Structural)]
pub enum SiblingGroup {
    Single { index: usize },
    List { start: usize, end: usize, style: ListStyle },
}

/// The list style of a list-item block: bullets and to-dos are unordered,
/// numbered items ordered; `None` for every other block.
pub open spec fn spec_list_style(block: Block) -> Option<ListStyle> {
    match block {
        Block::BulletedListItem { .. } | Block::ToDo { .. } => Some(ListStyle::Unordered),
        Block::NumberedListItem { .. } => Some(ListStyle::Ordered),
        _ => None,
    }
}

/// The end of the run of blocks of list style `style` that starts at `j`.
pub open spec fn spec_run_end(blocks: Seq<BlockResponse>, j: int, style: ListStyle) -> int
    decreases blocks.len() - j,
{
    if j < blocks.len() && spec_list_style(blocks[j].block) == Some(style) {
        spec_run_end(blocks, j + 1, style)
    } else {
        j
    }
}

/// The groups of `blocks` from index `i` on.
pub open spec fn spec_groups_from(blocks: Seq<BlockResponse>, i: int) -> Seq<SiblingGroup>
    decreases blocks.len() - i,
{
    if i < 0 || i >= blocks.len() {
        Seq::empty()
    } else {
        match spec_list_style(blocks[i].block) {
            Some(style) => {
                let j = spec_run_end(blocks, i + 1, style);
                if j <= i || j > blocks.len() {
                    Seq::empty()
                } else {
                    seq![SiblingGroup::List { start: i as usize, end: j as usize, style }]
                        + spec_groups_from(blocks, j)
                }
            },
            None => seq![SiblingGroup::Single { index: i as usize }] + spec_groups_from(
                blocks,
                i + 1,
            ),
        }
    }
}

/// The groups of `blocks`, in order.
pub open spec fn spec_groups(blocks: Seq<BlockResponse>) -> Seq<SiblingGroup> {
    spec_groups_from(blocks, 0)
}

/// Ids and components, as conversion yields them.
pub type Chunks = (Seq<Seq<char>>, Seq<ComponentView>);

pub open spec fn no_chunks() -> Chunks {
    (Seq::empty(), Seq::empty())
}

/// The components of a `paragraph` block: its runs, its children's
/// components, then the `Paragraph`, colored by the block's color.
pub open spec fn spec_paragraph_parts(
    id: Seq<char>,
    rich_text: Seq<NotionRichText>,
    color: Color,
    ch: Chunks,
) -> Seq<ComponentView> {
    spec_run_components(id, "rich_text"@, rich_text) + ch.1 + seq![
        ComponentView::Paragraph(
            ParagraphView {
                id,
                accessibility: None,
                weight: None,
                children: ChildListView::Static(
                    spec_run_ids(id, "rich_text"@, rich_text.len()) + ch.0,
                ),
                color: spec_map_color(color),
                background_color: spec_map_background_color(color),
            },
        ),
    ]
}

/// The components of a heading block: its runs, then the `Heading`.
pub open spec fn spec_heading_parts(
    id: Seq<char>,
    level: HeadingLevel,
    rich_text: Seq<NotionRichText>,
) -> Seq<ComponentView> {
    spec_run_components(id, "rich_text"@, rich_text) + seq![
        ComponentView::Heading(
            HeadingView {
                id,
                accessibility: None,
                weight: None,
                level,
                children: ChildListView::Static(spec_run_ids(id, "rich_text"@, rich_text.len())),
            },
        ),
    ]
}

/// The components of a `quote` block: its runs, its children's components,
/// then the `BlockQuote`.
pub open spec fn spec_quote_parts(
    id: Seq<char>,
    rich_text: Seq<NotionRichText>,
    ch: Chunks,
) -> Seq<ComponentView> {
    spec_run_components(id, "rich_text"@, rich_text) + ch.1 + seq![
        ComponentView::BlockQuote(
            BlockQuoteView {
                id,
                accessibility: None,
                weight: None,
                children: ChildListView::Static(
                    spec_run_ids(id, "rich_text"@, rich_text.len()) + ch.0,
                ),
                cite: None,
            },
        ),
    ]
}

/// The inline component of a callout's icon, under id `<id>::icon/0`.
pub open spec fn spec_icon_part(id: Seq<char>, icon: Option<EmojiAndIcon>) -> Chunks {
    let icon_id = spec_child_id(id, "icon"@, 0);
    match icon {
        Some(i) => match spec_inline_icon(icon_id, i) {
            Some(v) => (seq![icon_id], seq![v]),
            None => no_chunks(),
        },
        None => no_chunks(),
    }
}

/// The components of a `callout` block: its icon, its runs, its children's
/// components, then the `Callout`, typed after its emoji.
pub open spec fn spec_callout_parts(
    id: Seq<char>,
    rich_text: Seq<NotionRichText>,
    icon: Option<EmojiAndIcon>,
    ch: Chunks,
) -> Seq<ComponentView> {
    let ic = spec_icon_part(id, icon);
    ic.1 + spec_run_components(id, "rich_text"@, rich_text) + ch.1 + seq![
        ComponentView::Callout(
            CalloutView {
                id,
                accessibility: None,
                weight: None,
                children: ChildListView::Static(
                    ic.0 + spec_run_ids(id, "rich_text"@, rich_text.len()) + ch.0,
                ),
                callout_type: spec_callout_type(icon),
            },
        ),
    ]
}

/// The components of a `toggle` block: its summary runs, its children's
/// components, then the `Toggle`.
pub open spec fn spec_toggle_parts(
    id: Seq<char>,
    rich_text: Seq<NotionRichText>,
    ch: Chunks,
) -> Seq<ComponentView> {
    spec_run_components(id, "summary"@, rich_text) + ch.1 + seq![
        ComponentView::Toggle(
            ToggleView {
                id,
                accessibility: None,
                weight: None,
                summary: ChildListView::Static(spec_run_ids(id, "summary"@, rich_text.len())),
                children: ChildListView::Static(ch.0),
            },
        ),
    ]
}

/// The `Bookmark` of a bookmark-like block.
pub open spec fn spec_bookmark(id: Seq<char>, url: Seq<char>, title: Option<Seq<char>>) -> ComponentView {
    ComponentView::Bookmark(
        BookmarkView {
            id,
            accessibility: None,
            weight: None,
            url,
            title,
            description: None,
            image: None,
        },
    )
}

/// The `Divider` of a `divider` block.
pub open spec fn spec_divider(id: Seq<char>) -> ComponentView {
    ComponentView::Divider(DividerView { id, accessibility: None, weight: None })
}

/// The components of a `column_list` block: its children's components, then
/// the `ColumnList`.
pub open spec fn spec_column_list_parts(id: Seq<char>, ch: Chunks) -> Seq<ComponentView> {
    ch.1 + seq![
        ComponentView::ColumnList(
            ColumnListView { id, accessibility: None, weight: None, children: ch.0 },
        ),
    ]
}

/// The components of a `column` or `synced_block` block: its children's
/// components, then a `Column`.
pub open spec fn spec_column_parts(
    id: Seq<char>,
    width_ratio: Option<Number>,
    ch: Chunks,
) -> Seq<ComponentView> {
    ch.1 + seq![
        ComponentView::Column(
            ColumnView {
                id,
                accessibility: None,
                weight: None,
                children: ChildListView::Static(ch.0),
                justify: None,
                align: None,
                width_ratio,
            },
        ),
    ]
}

/// Whether a block is a table row.
pub open spec fn is_table_row(b: BlockResponse) -> bool {
    b.block is TableRow
}

/// The table rows among a table's children, in order.
pub open spec fn spec_table_rows(rows: Seq<BlockResponse>) -> Seq<BlockResponse> {
    rows.filter(|b: BlockResponse| is_table_row(b))
}

/// The cells of a table row.
pub open spec fn spec_row_cells(b: BlockResponse) -> Seq<Vec<NotionRichText>> {
    match b.block {
        Block::TableRow { cells } => cells@,
        _ => Seq::empty(),
    }
}

/// The id `<row>::cell/<j>` of a row's `j`-th cell.
pub open spec fn spec_cell_id(row_id: Seq<char>, j: int) -> Seq<char> {
    spec_child_id(row_id, "cell"@, j as nat)
}

/// The components of a row's `j`-th cell: its runs, then the `TableCell`,
/// which is a header cell when the table has a row header and `j` is 0.
pub open spec fn spec_cell_parts(
    row_id: Seq<char>,
    j: int,
    runs: Seq<NotionRichText>,
    has_row_header: bool,
) -> Seq<ComponentView> {
    let cell_id = spec_cell_id(row_id, j);
    spec_run_components(cell_id, "rich_text"@, runs) + seq![
        ComponentView::TableCell(
            TableCellView {
                id: cell_id,
                accessibility: None,
                weight: None,
                children: spec_run_ids(cell_id, "rich_text"@, runs.len()),
                is_header: if has_row_header && j == 0 {
                    Some(true)
                } else {
                    None
                },
            },
        ),
    ]
}

/// The components of a row's cells.
pub open spec fn spec_cells(
    row_id: Seq<char>,
    cells: Seq<Vec<NotionRichText>>,
    has_row_header: bool,
) -> Seq<ComponentView>
    decreases cells.len(),
{
    if cells.len() == 0 {
        Seq::empty()
    } else {
        spec_cells(row_id, cells.drop_last(), has_row_header) + spec_cell_parts(
            row_id,
            cells.len() - 1,
            cells.last()@,
            has_row_header,
        )
    }
}

/// The components of a table row: its cells, then the `TableRow`.
pub open spec fn spec_row_parts(row: BlockResponse, has_row_header: bool) -> Seq<ComponentView> {
    let cells = spec_row_cells(row);
    spec_cells(row.id@, cells, has_row_header) + seq![
        ComponentView::TableRow(
            TableRowView {
                id: row.id@,
                accessibility: None,
                weight: None,
                children: Seq::new(cells.len(), |j: int| spec_cell_id(row.id@, j)),
            },
        ),
    ]
}

/// The components of the table rows `rows`.
pub open spec fn spec_rows_parts(rows: Seq<BlockResponse>, has_row_header: bool) -> Seq<ComponentView>
    decreases rows.len(),
{
    if rows.len() == 0 {
        Seq::empty()
    } else {
        spec_rows_parts(rows.drop_last(), has_row_header) + spec_row_parts(
            rows.last(),
            has_row_header,
        )
    }
}

/// The ids of the table rows `rows`.
pub open spec fn spec_row_ids(rows: Seq<BlockResponse>) -> Seq<Seq<char>> {
    rows.map_values(|b: BlockResponse| b.id@)
}

/// The header rows of a table whose children are `children`: the first
/// table row, when the table has a column header.
pub open spec fn spec_table_header(children: Seq<BlockResponse>, has_column_header: bool) -> Seq<Seq<char>> {
    let rows = spec_table_rows(children);
    if has_column_header && rows.len() > 0 {
        seq![rows[0].id@]
    } else {
        Seq::empty()
    }
}

/// The body rows of a table whose children are `children`: its table rows
/// but the header row.
pub open spec fn spec_table_body(children: Seq<BlockResponse>, has_column_header: bool) -> Seq<Seq<char>> {
    let rows = spec_table_rows(children);
    if has_column_header && rows.len() > 0 {
        spec_row_ids(rows).drop_first()
    } else {
        spec_row_ids(rows)
    }
}

/// The components of a `table` block whose children are `children`: its
/// rows' components, then the `Table`.
pub open spec fn spec_table_parts(
    id: Seq<char>,
    children: Seq<BlockResponse>,
    has_column_header: bool,
    has_row_header: bool,
) -> Seq<ComponentView> {
    let header = spec_table_header(children, has_column_header);
    spec_rows_parts(spec_table_rows(children), has_row_header) + seq![
        ComponentView::Table(
            TableView {
                id,
                accessibility: None,
                weight: None,
                body: spec_table_body(children, has_column_header),
                header: if header.len() == 0 {
                    None
                } else {
                    Some(header)
                },
                caption: None,
                has_column_header: Some(has_column_header),
                has_row_header: Some(has_row_header),
            },
        ),
    ]
}

/// The components of one tab of a `tab` block, made from a paragraph child
/// with id `tab_id`: the label runs, the content's components, then the
/// `ContentTab`.
pub open spec fn spec_tab_entry_parts(
    tab_id: Seq<char>,
    rich_text: Seq<NotionRichText>,
    ch: Chunks,
) -> Seq<ComponentView> {
    spec_run_components(tab_id, "label"@, rich_text) + ch.1 + seq![
        ComponentView::ContentTab(
            ContentTabView {
                id: tab_id,
                accessibility: None,
                weight: None,
                label: ChildListView::Static(spec_run_ids(tab_id, "label"@, rich_text.len())),
                content: ChildListView::Static(ch.0),
            },
        ),
    ]
}

/// The components of a `tab` block whose tabs are `tabs`: the tabs'
/// components, then the `ContentTabs`.
pub open spec fn spec_tabs_parts(id: Seq<char>, tabs: Chunks) -> Seq<ComponentView> {
    tabs.1 + seq![
        ComponentView::ContentTabs(
            ContentTabsView { id, accessibility: None, weight: None, children: tabs.0 },
        ),
    ]
}

/// The to-do marker of a list item: a `RichText` `<id>::todo_mark/0` holding
/// a checked or unchecked box, for to-do items only.
pub open spec fn spec_todo_mark(id: Seq<char>, block: Block) -> Chunks {
    match block {
        Block::ToDo { checked, .. } => {
            let mark_id = spec_child_id(id, "todo_mark"@, 0);
            (
                seq![mark_id],
                seq![
                    ComponentView::RichText(
                        RichTextView {
                            id: mark_id,
                            accessibility: None,
                            weight: None,
                            text: DynamicStringView::Literal(
                                if checked {
                                    "\u{2611} "@
                                } else {
                                    "\u{2610} "@
                                },
                            ),
                            decoration: None,
                            ruby: None,
                            color: None,
                        },
                    ),
                ],
            )
        },
        _ => no_chunks(),
    }
}

/// The runs of a list item.
pub open spec fn spec_list_item_text(block: Block) -> Seq<NotionRichText> {
    match block {
        Block::BulletedListItem { rich_text } => rich_text@,
        Block::NumberedListItem { rich_text } => rich_text@,
        Block::ToDo { rich_text, .. } => rich_text@,
        _ => Seq::empty(),
    }
}

/// The components of a list item: its to-do marker, its runs, its children's
/// components, then the `ListItem`.
pub open spec fn spec_list_item_parts(id: Seq<char>, block: Block, ch: Chunks) -> Seq<ComponentView> {
    let mark = spec_todo_mark(id, block);
    let rt = spec_list_item_text(block);
    mark.1 + spec_run_components(id, "rich_text"@, rt) + ch.1 + seq![
        ComponentView::ListItem(
            ListItemView {
                id,
                accessibility: None,
                weight: None,
                children: mark.0 + spec_run_ids(id, "rich_text"@, rt.len()) + ch.0,
            },
        ),
    ]
}

/// The `List` that groups list items.
pub open spec fn spec_list_view(id: Seq<char>, items: Seq<Seq<char>>, style: ListStyle) -> ComponentView {
    ComponentView::List(
        ListView { id, accessibility: None, weight: None, children: items, style: Some(style) },
    )
}

/// The conversion of sibling blocks: the ids their parent references and the
/// components synthesized for them.
pub open spec fn spec_siblings(c: Converter, blocks: Seq<BlockResponse>) -> Chunks
    decreases blocks, 4int, 0int,
{
    let groups = spec_groups(blocks);
    spec_chunks_upto(c, blocks, groups, groups.len() as int)
}

/// The conversion of the first `n` of the groups `groups` of `blocks`.
pub open spec fn spec_chunks_upto(
    c: Converter,
    blocks: Seq<BlockResponse>,
    groups: Seq<SiblingGroup>,
    n: int,
) -> Chunks
    decreases blocks, 3int, n,
{
    if n <= 0 || n > groups.len() {
        no_chunks()
    } else {
        let prev = spec_chunks_upto(c, blocks, groups, n - 1);
        match spec_group_chunk(c, blocks, groups[n - 1]) {
            Some((id, comps)) => (prev.0.push(id), prev.1 + comps),
            None => prev,
        }
    }
}

/// The conversion of one group: the id its parent references and its
/// components; `None` when the group is a skipped block.
pub open spec fn spec_group_chunk(
    c: Converter,
    blocks: Seq<BlockResponse>,
    group: SiblingGroup,
) -> Option<(Seq<char>, Seq<ComponentView>)>
    decreases blocks, 2int, 0int,
{
    match group {
        SiblingGroup::Single { index } => if index < blocks.len() {
            spec_block_chunk(c, blocks[index as int])
        } else {
            None
        },
        SiblingGroup::List { start, end, style } => if start < end <= blocks.len() {
            proof {
                if start == 0 && end == blocks.len() {
                    assert(blocks.subrange(start as int, end as int) =~= blocks);
                }
            }
            Some(spec_list_chunk(c, blocks.subrange(start as int, end as int), style))
        } else {
            None
        },
    }
}

/// The conversion of a run of list items into one `List`, whose id derives
/// from the first item's: the items' components, then the `List`.
pub open spec fn spec_list_chunk(
    c: Converter,
    items: Seq<BlockResponse>,
    style: ListStyle,
) -> (Seq<char>, Seq<ComponentView>)
    decreases items, 1int, 0int,
{
    let converted = spec_list_items_upto(c, items, items.len() as int);
    let id = spec_list_group_id(items[0].id@);
    (id, converted.1 + seq![spec_list_view(id, converted.0, style)])
}

/// The conversion of the first `n` list items of `items`.
pub open spec fn spec_list_items_upto(c: Converter, items: Seq<BlockResponse>, n: int) -> Chunks
    decreases items, 0int, n,
{
    if n <= 0 || n > items.len() {
        no_chunks()
    } else {
        let prev = spec_list_items_upto(c, items, n - 1);
        let item = items[n - 1];
        (prev.0.push(item.id@), prev.1 + spec_list_item(c, item))
    }
}

/// The components of one list item.
pub open spec fn spec_list_item(c: Converter, b: BlockResponse) -> Seq<ComponentView>
    decreases b, 1int, 0int,
{
    spec_list_item_parts(b.id@, b.block, spec_children_of(c, b))
}

/// The conversion of the children of a block that has children.
pub open spec fn spec_children_of(c: Converter, b: BlockResponse) -> Chunks
    decreases b, 0int, 0int,
{
    if b.has_children {
        spec_siblings(c, b.children@)
    } else {
        no_chunks()
    }
}

/// The tabs of a `tab` block among the first `n` of its children `kids`:
/// one per paragraph child; other children are ignored.
pub open spec fn spec_tab_entries_upto(c: Converter, kids: Seq<BlockResponse>, n: int) -> Chunks
    decreases kids, 0int, n,
{
    if n <= 0 || n > kids.len() {
        no_chunks()
    } else {
        let prev = spec_tab_entries_upto(c, kids, n - 1);
        let kid = kids[n - 1];
        match kid.block {
            Block::Paragraph { rich_text, .. } => (
                prev.0.push(kid.id@),
                prev.1 + spec_tab_entry_parts(kid.id@, rich_text@, spec_children_of(c, kid)),
            ),
            _ => prev,
        }
    }
}

/// The tabs of a `tab` block.
pub open spec fn spec_tab_entries(c: Converter, b: BlockResponse) -> Chunks
    decreases b, 1int, 0int,
{
    if b.has_children {
        spec_tab_entries_upto(c, b.children@, b.children@.len() as int)
    } else {
        no_chunks()
    }
}

/// The components of one block, its children's included.
pub open spec fn spec_block_parts(c: Converter, b: BlockResponse) -> Option<Seq<ComponentView>>
    decreases b, 2int, 0int,
{
    let id = b.id@;
    let ch = spec_children_of(c, b);
    match b.block {
        Block::Paragraph { rich_text, color } => Some(spec_paragraph_parts(id, rich_text@, color, ch)),
        Block::Heading1 { rich_text } => Some(spec_heading_parts(id, HeadingLevel::H1, rich_text@)),
        Block::Heading2 { rich_text } => Some(spec_heading_parts(id, HeadingLevel::H2, rich_text@)),
        Block::Heading3 { rich_text } => Some(spec_heading_parts(id, HeadingLevel::H3, rich_text@)),
        Block::Heading4 { rich_text } => Some(spec_heading_parts(id, HeadingLevel::H4, rich_text@)),
        Block::Quote { rich_text } => Some(spec_quote_parts(id, rich_text@, ch)),
        Block::Callout { rich_text, icon } => Some(spec_callout_parts(id, rich_text@, icon, ch)),
        Block::Toggle { rich_text } => Some(spec_toggle_parts(id, rich_text@, ch)),
        Block::Divider => Some(seq![spec_divider(id)]),
        Block::Code { rich_text, caption, language } => Some(
            seq![spec_code_component(id, rich_text@, caption@, language@)],
        ),
        Block::Equation { expression } => Some(seq![spec_katex(id, expression@)]),
        Block::Image { image, fetched } => Some(
            seq![
                spec_image_component(
                    id,
                    image,
                    spec_image_dimensions(c.enable_fetch_image_meta, fetched),
                ),
            ],
        ),
        Block::File { file } => Some(seq![spec_file_component(id, file)]),
        Block::Pdf { pdf } => Some(seq![spec_file_component(id, pdf)]),
        Block::Audio { audio } => Some(seq![spec_file_component(id, audio)]),
        Block::Video { video } => Some(seq![spec_file_component(id, video)]),
        Block::Bookmark { url, .. } => Some(seq![spec_bookmark(id, url@, None)]),
        Block::Embed { url } => Some(seq![spec_bookmark(id, url@, None)]),
        Block::LinkPreview { url } => Some(seq![spec_bookmark(id, url@, None)]),
        Block::ChildPage { title } => Some(
            seq![spec_bookmark(id, spec_notion_page_url(id), Some(title@))],
        ),
        Block::ChildDatabase { title } => Some(
            seq![spec_bookmark(id, spec_notion_page_url(id), Some(title@))],
        ),
        Block::ColumnList => Some(spec_column_list_parts(id, ch)),
        Block::Column { width_ratio } => Some(spec_column_parts(id, Some(width_ratio), ch)),
        Block::Table { has_column_header, has_row_header } => Some(
            spec_table_parts(id, b.children@, has_column_header, has_row_header),
        ),
        Block::Tab => Some(spec_tabs_parts(id, spec_tab_entries(c, b))),
        Block::SyncedBlock => Some(spec_column_parts(id, None, ch)),
        _ => if c.enable_unsupported_block {
            Some(seq![spec_unsupported(id, spec_unsupported_label(b.block))])
        } else {
            None
        },
    }
}

/// The conversion of one block: its id and its components; `None` when the
/// block is skipped.
pub open spec fn spec_block_chunk(c: Converter, b: BlockResponse) -> Option<(Seq<char>, Seq<ComponentView>)>
    decreases b, 3int, 0int,
{
    match spec_block_parts(c, b) {
        Some(parts) => Some((b.id@, parts)),
        None => None,
    }
}


// --- building blocks ----------------------------------------------------------

fn push_component(bag: &mut Vec<Component>, c: Component)
    ensures
        views(final(bag)@) == views(old(bag)@).push(c@),
{
    let ghost before = bag@;
    bag.push(c);
    proof {
        assert(views(bag@) =~= views(before).push(c@));
    }
}

fn append_components(bag: &mut Vec<Component>, other: Vec<Component>)
    ensures
        views(final(bag)@) == views(old(bag)@) + views(other@),
{
    let ghost before = bag@;
    let mut o = other;
    bag.append(&mut o);
    proof {
        assert(views(bag@) =~= views(before) + views(other@));
    }
}

fn push_id(ids: &mut Vec<ComponentId>, id: ComponentId)
    ensures
        str_views(final(ids)@) == str_views(old(ids)@).push(id@),
{
    let ghost before = ids@;
    ids.push(id);
    proof {
        assert(str_views(ids@) =~= str_views(before).push(id@));
    }
}

fn append_ids(ids: &mut Vec<ComponentId>, other: Vec<ComponentId>)
    ensures
        str_views(final(ids)@) == str_views(old(ids)@) + str_views(other@),
{
    let ghost before = ids@;
    let mut o = other;
    ids.append(&mut o);
    proof {
        assert(str_views(ids@) =~= str_views(before) + str_views(other@));
    }
}

/// The list style of a list-item block.
pub fn list_style(block: &Block) -> (r: Option<ListStyle>)
    ensures
        r == spec_list_style(*block),
{
    match block {
        Block::BulletedListItem { .. } | Block::ToDo { .. } => Some(ListStyle::Unordered),
        Block::NumberedListItem { .. } => Some(ListStyle::Ordered),
        _ => None,
    }
}

fn has_style(block: &Block, style: ListStyle) -> (r: bool)
    ensures
        r == (spec_list_style(*block) == Some(style)),
{
    match list_style(block) {
        Some(s) => match (s, style) {
            (ListStyle::Unordered, ListStyle::Unordered) => true,
            (ListStyle::Ordered, ListStyle::Ordered) => true,
            _ => false,
        },
        None => false,
    }
}

/// Splits sibling blocks into groups: each non-list block is a group of its
/// own, and each maximal run of consecutive list items of one style is one
/// group.
pub fn top_level_groups(blocks: &[BlockResponse]) -> (r: Vec<SiblingGroup>)
    ensures
        r@ == spec_groups(blocks@),
{
    let mut groups: Vec<SiblingGroup> = Vec::new();
    let n = blocks.len();
    let mut i: usize = 0;
    while i < n
        invariant
            n == blocks@.len(),
            i <= n,
            groups@ + spec_groups_from(blocks@, i as int) == spec_groups(blocks@),
        decreases n - i,
    {
        match list_style(&blocks[i].block) {
            Some(style) => {
                let mut j: usize = i + 1;
                while j < n && has_style(&blocks[j].block, style)
                    invariant
                        n == blocks@.len(),
                        i < j <= n,
                        spec_run_end(blocks@, i + 1, style) == spec_run_end(blocks@, j as int, style),
                    decreases n - j,
                {
                    j = j + 1;
                }
                let ghost before = groups@;
                groups.push(SiblingGroup::List { start: i, end: j, style });
                proof {
                    assert(spec_groups_from(blocks@, i as int) =~= seq![
                        SiblingGroup::List { start: i, end: j, style },
                    ] + spec_groups_from(blocks@, j as int));
                    assert(groups@ + spec_groups_from(blocks@, j as int) =~= before
                        + spec_groups_from(blocks@, i as int));
                }
                i = j;
            },
            None => {
                let ghost before = groups@;
                groups.push(SiblingGroup::Single { index: i });
                proof {
                    assert(groups@ + spec_groups_from(blocks@, i + 1) =~= before
                        + spec_groups_from(blocks@, i as int));
                }
                i = i + 1;
            },
        }
    }
    proof {
        assert(groups@ =~= groups@ + spec_groups_from(blocks@, n as int));
    }
    groups
}

/// Whether `group` is a group that `blocks` can be split into: a run of list
/// items holds list items only.
pub open spec fn spec_group_fits(blocks: Seq<BlockResponse>, group: SiblingGroup) -> bool {
    match group {
        SiblingGroup::Single { .. } => true,
        SiblingGroup::List { start, end, .. } => forall|k: int|
            start <= k < end && k < blocks.len() ==> (#[trigger] spec_list_style(blocks[k].block)) is Some,
    }
}

/// Whether converting a block reads its runs or its children.
pub open spec fn is_container(block: Block) -> bool {
    match block {
        Block::Paragraph { .. } | Block::Heading1 { .. } | Block::Heading2 { .. }
        | Block::Heading3 { .. } | Block::Heading4 { .. } | Block::Quote { .. }
        | Block::Callout { .. } | Block::Toggle { .. } | Block::ColumnList
        | Block::Column { .. } | Block::SyncedBlock | Block::Table { .. } | Block::Tab => true,
        _ => false,
    }
}

/// The end of a run of list items of one style lies within the blocks, and
/// every block of the run has that style; the block at the end, if any, has
/// another.
pub proof fn lemma_run_end(blocks: Seq<BlockResponse>, j: int, style: ListStyle)
    requires
        0 <= j <= blocks.len(),
    ensures
        j <= spec_run_end(blocks, j, style) <= blocks.len(),
        forall|k: int|
            j <= k < spec_run_end(blocks, j, style) ==> spec_list_style(#[trigger] blocks[k].block)
                == Some(style),
        spec_run_end(blocks, j, style) < blocks.len() ==> spec_list_style(
            blocks[spec_run_end(blocks, j, style)].block,
        ) != Some(style),
    decreases blocks.len() - j,
{
    if j < blocks.len() && spec_list_style(blocks[j].block) == Some(style) {
        lemma_run_end(blocks, j + 1, style);
    }
}

/// Every group of `blocks` from index `i` on fits `blocks`.
proof fn lemma_groups_fit(blocks: Seq<BlockResponse>, i: int)
    requires
        0 <= i,
        blocks.len() <= usize::MAX,
    ensures
        forall|k: int|
            0 <= k < spec_groups_from(blocks, i).len() ==> spec_group_fits(
                blocks,
                #[trigger] spec_groups_from(blocks, i)[k],
            ),
    decreases blocks.len() - i,
{
    if i < blocks.len() {
        match spec_list_style(blocks[i].block) {
            Some(style) => {
                lemma_run_end(blocks, i + 1, style);
                let j = spec_run_end(blocks, i + 1, style);
                lemma_groups_fit(blocks, j);
                let g = SiblingGroup::List { start: i as usize, end: j as usize, style };
                assert(spec_group_fits(blocks, g));
                let rest = spec_groups_from(blocks, j);
                assert(spec_groups_from(blocks, i) =~= seq![g] + rest);
                assert forall|k: int| 0 <= k < spec_groups_from(blocks, i).len() implies spec_group_fits(
                    blocks,
                    #[trigger] spec_groups_from(blocks, i)[k],
                ) by {
                    if k > 0 {
                        assert(spec_groups_from(blocks, i)[k] == rest[k - 1]);
                    }
                }
            },
            None => {
                lemma_groups_fit(blocks, i + 1);
                let rest = spec_groups_from(blocks, i + 1);
                assert forall|k: int| 0 <= k < spec_groups_from(blocks, i).len() implies spec_group_fits(
                    blocks,
                    #[trigger] spec_groups_from(blocks, i)[k],
                ) by {
                    if k > 0 {
                        assert(spec_groups_from(blocks, i)[k] == rest[k - 1]);
                    }
                }
            },
        }
    }
}

/// Every group of `blocks` fits `blocks`.
pub proof fn lemma_groups_fit_all(blocks: Seq<BlockResponse>)
    requires
        blocks.len() <= usize::MAX,
    ensures
        forall|k: int| 0 <= k < spec_groups(blocks).len() ==> spec_group_fits(
            blocks,
            #[trigger] spec_groups(blocks)[k],
        ),
{
    lemma_groups_fit(blocks, 0);
}

/// Whether every block of `items` is a list item.
pub open spec fn all_list_items(items: Seq<BlockResponse>) -> bool {
    forall|k: int| 0 <= k < items.len() ==> (#[trigger] spec_list_style(items[k].block)) is Some
}

/// The result of converting one block, as `convert_block` states it.
pub open spec fn block_converted(
    c: Converter,
    b: BlockResponse,
    r: Option<ComponentId>,
    before: Seq<Component>,
    after: Seq<Component>,
) -> bool {
    match spec_block_parts(c, b) {
        Some(parts) => r is Some && r->0@ == b.id@ && views(after) == views(before) + parts,
        None => r is None && views(after) == views(before),
    }
}

/// The result of converting one group, as `convert_group` states it.
pub open spec fn group_converted(
    c: Converter,
    blocks: Seq<BlockResponse>,
    group: SiblingGroup,
    r: Option<ComponentId>,
    before: Seq<Component>,
    after: Seq<Component>,
) -> bool {
    match spec_group_chunk(c, blocks, group) {
        Some((id, comps)) => r is Some && r->0@ == id && views(after) == views(before) + comps,
        None => r is None && views(after) == views(before),
    }
}

impl Converter {
    /// Converts sibling blocks, grouping consecutive list items into one
    /// `List`; appends the synthesized components to `bag` and returns the
    /// ids their parent references.
    pub fn convert_siblings(&self, blocks: &[BlockResponse], bag: &mut Vec<Component>) -> (r: Vec<ComponentId>)
        ensures
            str_views(r@) == spec_siblings(*self, blocks@).0,
            views(final(bag)@) == views(old(bag)@) + spec_siblings(*self, blocks@).1,
        decreases blocks@, 4int, 0int,
    {
        let groups = top_level_groups(blocks);
        proof {
            assert(blocks@.len() == blocks.len());
            lemma_groups_fit(blocks@, 0);
        }
        let ghost bag0 = bag@;
        let mut ids: Vec<ComponentId> = Vec::new();
        let mut k: usize = 0;
        while k < groups.len()
            invariant
                groups@ == spec_groups(blocks@),
                k <= groups@.len(),
                forall|j: int| 0 <= j < groups@.len() ==> spec_group_fits(blocks@, #[trigger] groups@[j]),
                str_views(ids@) == spec_chunks_upto(*self, blocks@, groups@, k as int).0,
                views(bag@) == views(bag0) + spec_chunks_upto(*self, blocks@, groups@, k as int).1,
            decreases groups@.len() - k,
        {
            let g = groups[k];
            let r = self.convert_group(blocks, g, bag);
            match r {
                Some(id) => {
                    push_id(&mut ids, id);
                },
                None => {},
            }
            proof {
                assert(views(bag@) =~= views(bag0) + spec_chunks_upto(
                    *self,
                    blocks@,
                    groups@,
                    k + 1,
                ).1);
            }
            k = k + 1;
        }
        ids
    }

    /// Converts one group of `blocks`, appending its components to `bag`;
    /// returns the group's id, or `None` when the group is a skipped block.
    pub fn convert_group(&self, blocks: &[BlockResponse], group: SiblingGroup, bag: &mut Vec<Component>) -> (r: Option<ComponentId>)
        requires
            spec_group_fits(blocks@, group),
        ensures
            group_converted(*self, blocks@, group, r, old(bag)@, final(bag)@),
        decreases blocks@, 3int, 0int,
    {
        match group {
            SiblingGroup::Single { index } => {
                if index < blocks.len() {
                    self.convert_block(&blocks[index], bag)
                } else {
                    None
                }
            },
            SiblingGroup::List { start, end, style } => {
                if start < end && end <= blocks.len() {
                    let items = &blocks[start..end];
                    proof {
                        if start == 0 && end == blocks@.len() {
                            assert(items@ =~= blocks@);
                        }
                        assert forall|k: int| 0 <= k < items@.len() implies (#[trigger] spec_list_style(items@[k].block)) is Some by {
                            assert(items@[k] == blocks@[start + k]);
                            assert(spec_list_style(blocks@[start + k].block) is Some);
                        }
                    }
                    Some(self.emit_list(items, style, bag))
                } else {
                    None
                }
            },
        }
    }

    /// Converts a run of list items into one `List`, appending the items'
    /// components and then the `List` to `bag`; returns the `List`'s id.
    fn emit_list(&self, items: &[BlockResponse], style: ListStyle, bag: &mut Vec<Component>) -> (r: ComponentId)
        requires
            items@.len() > 0,
            all_list_items(items@),
        ensures
            r@ == spec_list_chunk(*self, items@, style).0,
            views(final(bag)@) == views(old(bag)@) + spec_list_chunk(*self, items@, style).1,
        decreases items@, 2int, 0int,
    {
        let list_id = list_group_id(items[0].id.as_str());
        let ghost bag0 = bag@;
        let mut item_ids: Vec<ComponentId> = Vec::new();
        let n = items.len();
        let mut k: usize = 0;
        while k < n
            invariant
                n == items@.len(),
                k <= n,
                all_list_items(items@),
                str_views(item_ids@) == spec_list_items_upto(*self, items@, k as int).0,
                views(bag@) == views(bag0) + spec_list_items_upto(*self, items@, k as int).1,
            decreases n - k,
        {
            proof {
                assert(spec_list_style(items@[k as int].block) is Some);
            }
            let id = self.emit_list_item(&items[k], bag);
            push_id(&mut item_ids, id);
            proof {
                assert(views(bag@) =~= views(bag0) + spec_list_items_upto(*self, items@, k + 1).1);
            }
            k = k + 1;
        }
        let ghost ids_view = str_views(item_ids@);
        push_component(
            bag,
            Component::List(
                List {
                    id: list_id.clone(),
                    accessibility: None,
                    weight: None,
                    children: item_ids,
                    style: Some(style),
                },
            ),
        );
        proof {
            assert(views(bag@) =~= views(bag0) + spec_list_chunk(*self, items@, style).1);
        }
        list_id
    }

    /// Converts one list item: its to-do marker, its runs and its children,
    /// then the `ListItem`, which are appended to `bag`; returns its id.
    fn emit_list_item(&self, item: &BlockResponse, bag: &mut Vec<Component>) -> (r: ComponentId)
        requires
            spec_list_style(item.block) is Some,
        ensures
            r@ == item.id@,
            views(final(bag)@) == views(old(bag)@) + spec_list_item(*self, *item),
        decreases *item, 2int, 0int,
    {
        let ghost bag0 = bag@;
        let id = item.id.clone();
        let mut children: Vec<ComponentId> = Vec::new();
        if let Block::ToDo { checked, .. } = &item.block {
            let mark_id = child_id(id.as_str(), "todo_mark", 0);
            let mark = if *checked {
                "\u{2611} "
            } else {
                "\u{2610} "
            };
            push_component(
                bag,
                Component::RichText(
                    RichText {
                        id: mark_id.clone(),
                        accessibility: None,
                        weight: None,
                        text: DynamicString::Literal(String::from_str(mark)),
                        decoration: None,
                        ruby: None,
                        color: None,
                    },
                ),
            );
            push_id(&mut children, mark_id);
        }
        let ghost mark = spec_todo_mark(id@, item.block);
        proof {
            assert(views(bag@) =~= views(bag0) + mark.1);
            assert(str_views(children@) =~= mark.0);
        }
        let rt: &[NotionRichText] = match &item.block {
            Block::BulletedListItem { rich_text } => rich_text.as_slice(),
            Block::NumberedListItem { rich_text } => rich_text.as_slice(),
            Block::ToDo { rich_text, .. } => rich_text.as_slice(),
            _ => {
                proof {
                    assert(false);
                }
                return id;
            },
        };
        let (rt_ids, rt_comps) = convert_rich_texts(id.as_str(), "rich_text", rt);
        append_components(bag, rt_comps);
        append_ids(&mut children, rt_ids);
        let ch = self.convert_children_of(item, bag);
        append_ids(&mut children, ch);
        let ghost kids = str_views(children@);
        push_component(
            bag,
            Component::ListItem(
                ListItem { id: id.clone(), accessibility: None, weight: None, children },
            ),
        );
        proof {
            assert(views(bag@) =~= views(bag0) + spec_list_item(*self, *item));
        }
        id
    }

    /// Converts the children of `b` when it has children, appending their
    /// components to `bag`; returns the ids `b` references.
    fn convert_children_of(&self, b: &BlockResponse, bag: &mut Vec<Component>) -> (r: Vec<ComponentId>)
        ensures
            str_views(r@) == spec_children_of(*self, *b).0,
            views(final(bag)@) == views(old(bag)@) + spec_children_of(*self, *b).1,
        decreases *b, 0int, 0int,
    {
        if b.has_children {
            self.convert_siblings(b.children.as_slice(), bag)
        } else {
            proof {
                assert(views(bag@) =~= views(bag@) + Seq::<ComponentView>::empty());
                assert(str_views(Seq::<ComponentId>::empty()) =~= Seq::<Seq<char>>::empty());
            }
            Vec::new()
        }
    }

    /// Converts one block, appending its components, children first, to
    /// `bag`; returns its id, or `None` when the block is skipped.
    pub fn convert_block(&self, b: &BlockResponse, bag: &mut Vec<Component>) -> (r: Option<ComponentId>)
        ensures
            block_converted(*self, *b, r, old(bag)@, final(bag)@),
        decreases *b, 3int, 0int,
    {
        let ghost bag0 = bag@;
        let id = b.id.clone();
        let component: Component = match &b.block {
            Block::Divider => Component::Divider(
                Divider { id: id.clone(), accessibility: None, weight: None },
            ),
            Block::Code { rich_text, caption, language } => code_component(
                id.as_str(),
                rich_text,
                caption,
                language,
            ),
            Block::Equation { expression } => katex(id.as_str(), expression),
            Block::Image { image, fetched } => image_component(
                id.as_str(),
                image,
                image_dimensions(self.enable_fetch_image_meta, fetched),
            ),
            Block::File { file } => file_component(id.as_str(), file),
            Block::Pdf { pdf } => file_component(id.as_str(), pdf),
            Block::Audio { audio } => file_component(id.as_str(), audio),
            Block::Video { video } => file_component(id.as_str(), video),
            Block::Bookmark { url, .. } => bookmark(id.as_str(), url.clone(), None),
            Block::Embed { url } => bookmark(id.as_str(), url.clone(), None),
            Block::LinkPreview { url } => bookmark(id.as_str(), url.clone(), None),
            Block::ChildPage { title } => bookmark(
                id.as_str(),
                notion_page_url(id.as_str()),
                Some(title.clone()),
            ),
            Block::ChildDatabase { title } => bookmark(
                id.as_str(),
                notion_page_url(id.as_str()),
                Some(title.clone()),
            ),
            Block::Breadcrumb | Block::BulletedListItem { .. } | Block::NumberedListItem { .. }
            | Block::TableOfContents | Block::TableRow { .. } | Block::Template
            | Block::ToDo { .. } | Block::MeetingNotes | Block::Transcription
            | Block::Unsupported { .. } => {
                if !self.enable_unsupported_block {
                    return None;
                }
                Component::Unsupported(
                    Unsupported {
                        id: id.clone(),
                        accessibility: None,
                        weight: None,
                        details: Some(unsupported_label(&b.block)),
                    },
                )
            },
            _ => {
                proof {
                    assert(is_container(b.block));
                }
                let r = self.convert_container(b, bag);
                proof {
                    assert(block_converted(*self, *b, r, bag0, bag@));
                }
                return r;
            },
        };
        push_component(bag, component);
        proof {
            assert(views(bag@) =~= views(bag0) + spec_block_parts(*self, *b)->0);
        }
        Some(id)
    }
}

impl Converter {
    /// Converts one block that is not a list item on its own: its id and
    /// its components, or `None` when the block is skipped.
    pub fn convert_single_block_to_chunk(&self, notion: &BlockResponse) -> (r: Option<(ComponentId, Vec<Component>)>)
        ensures
            match spec_block_chunk(*self, *notion) {
                Some((id, comps)) => r matches Some((rid, rcomps)) && rid@ == id && views(rcomps@) == comps,
                None => r is None,
            },
    {
        let mut bag: Vec<Component> = Vec::new();
        let r = self.convert_block(notion, &mut bag);
        proof {
            assert(views(Seq::<Component>::empty()) =~= Seq::<ComponentView>::empty());
        }
        match r {
            Some(id) => Some((id, bag)),
            None => None,
        }
    }

    /// Converts a run of list items on its own into one `List`: the `List`'s
    /// id and every component synthesized for the run.
    pub fn convert_list_group_to_chunk(&self, items: &[BlockResponse], style: ListStyle) -> (r: (ComponentId, Vec<Component>))
        requires
            items@.len() > 0,
            all_list_items(items@),
        ensures
            (r.0@, views(r.1@)) == spec_list_chunk(*self, items@, style),
    {
        let mut bag: Vec<Component> = Vec::new();
        let id = self.emit_list(items, style, &mut bag);
        proof {
            assert(views(Seq::<Component>::empty()) + spec_list_chunk(*self, items@, style).1 =~= spec_list_chunk(*self, items@, style).1);
        }
        (id, bag)
    }

    /// Converts a block whose conversion reads runs or children:
    /// paragraphs, headings, quotes, callouts, toggles, columns, tables,
    /// tabs and synced blocks.
    fn convert_container(&self, b: &BlockResponse, bag: &mut Vec<Component>) -> (r: Option<ComponentId>)
        requires
            is_container(b.block),
        ensures
            block_converted(*self, *b, r, old(bag)@, final(bag)@),
        decreases *b, 2int, 0int,
    {
        let ghost bag0 = bag@;
        let component = match &b.block {
            Block::Paragraph { rich_text, color } => self.paragraph(b, rich_text.as_slice(), *color, bag),
            Block::Heading1 { rich_text } => self.heading(b.id.as_str(), crate::catalog::HeadingLevel::H1, rich_text.as_slice(), bag),
            Block::Heading2 { rich_text } => self.heading(b.id.as_str(), crate::catalog::HeadingLevel::H2, rich_text.as_slice(), bag),
            Block::Heading3 { rich_text } => self.heading(b.id.as_str(), crate::catalog::HeadingLevel::H3, rich_text.as_slice(), bag),
            Block::Heading4 { rich_text } => self.heading(b.id.as_str(), crate::catalog::HeadingLevel::H4, rich_text.as_slice(), bag),
            Block::Quote { rich_text } => self.quote(b, rich_text.as_slice(), bag),
            Block::Callout { rich_text, icon } => self.callout(b, rich_text.as_slice(), icon, bag),
            Block::Toggle { rich_text } => self.toggle(b, rich_text.as_slice(), bag),
            Block::ColumnList => self.column_list(b, bag),
            Block::Column { width_ratio } => self.column(b, Some(*width_ratio), bag),
            Block::SyncedBlock => self.column(b, None, bag),
            Block::Table { has_column_header, has_row_header } => self.table(b, *has_column_header, *has_row_header, bag),
            Block::Tab => self.tab(b, bag),
            _ => {
                proof {
                    assert(false);
                }
                return None;
            },
        };
        let ghost mid = bag@;
        push_component(bag, component);
        proof {
            assert(views(bag@) == views(mid).push(component@));
            assert(views(mid).push(component@) == views(bag0) + spec_block_parts(*self, *b)->0);
        }
        Some(b.id.clone())
    }

    /// The `Paragraph` of a `paragraph` block, colored by the block's color;
    /// its runs and its children's components are appended to `bag`.
    fn paragraph(&self, b: &BlockResponse, rich_text: &[NotionRichText], color: Color, bag: &mut Vec<Component>) -> (r: Component)
        ensures
            views(final(bag)@).push(r@) == views(old(bag)@) + spec_paragraph_parts(
                b.id@,
                rich_text@,
                color,
                spec_children_of(*self, *b),
            ),
        decreases *b, 1int, 0int,
    {
        let ghost bag0 = bag@;
        let (mut children, rt) = convert_rich_texts(b.id.as_str(), "rich_text", rich_text);
        append_components(bag, rt);
        let ch = self.convert_children_of(b, bag);
        append_ids(&mut children, ch);
        let ghost kids = str_views(children@);
        let r = Component::Paragraph(
            Paragraph {
                id: b.id.clone(),
                accessibility: None,
                weight: None,
                children: ChildList::Static(children),
                color: crate::color::map_color(color),
                background_color: crate::color::map_background_color(color),
            },
        );
        proof {
            assert(views(bag@).push(r@) =~= views(bag0) + spec_paragraph_parts(
                b.id@,
                rich_text@,
                color,
                spec_children_of(*self, *b),
            ));
        }
        r
    }

    /// The `BlockQuote` of a `quote` block; its runs and its children's
    /// components are appended to `bag`.
    fn quote(&self, b: &BlockResponse, rich_text: &[NotionRichText], bag: &mut Vec<Component>) -> (r: Component)
        ensures
            views(final(bag)@).push(r@) == views(old(bag)@) + spec_quote_parts(
                b.id@,
                rich_text@,
                spec_children_of(*self, *b),
            ),
        decreases *b, 1int, 0int,
    {
        let ghost bag0 = bag@;
        let (mut children, rt) = convert_rich_texts(b.id.as_str(), "rich_text", rich_text);
        append_components(bag, rt);
        let ch = self.convert_children_of(b, bag);
        append_ids(&mut children, ch);
        let r = Component::BlockQuote(
            BlockQuote {
                id: b.id.clone(),
                accessibility: None,
                weight: None,
                children: ChildList::Static(children),
                cite: None,
            },
        );
        proof {
            assert(views(bag@).push(r@) =~= views(bag0) + spec_quote_parts(
                b.id@,
                rich_text@,
                spec_children_of(*self, *b),
            ));
        }
        r
    }

    /// The `Callout` of a `callout` block, typed after its emoji; its icon,
    /// its runs and its children's components are appended to `bag`.
    fn callout(
        &self,
        b: &BlockResponse,
        rich_text: &[NotionRichText],
        icon: &Option<EmojiAndIcon>,
        bag: &mut Vec<Component>,
    ) -> (r: Component)
        ensures
            views(final(bag)@).push(r@) == views(old(bag)@) + spec_callout_parts(
                b.id@,
                rich_text@,
                *icon,
                spec_children_of(*self, *b),
            ),
        decreases *b, 1int, 0int,
    {
        let ghost bag0 = bag@;
        let id = b.id.as_str();
        let mut children: Vec<ComponentId> = Vec::new();
        if let Some(ic) = icon {
            let icon_id = child_id(id, "icon", 0);
            if let Some(component) = inline_icon_component(icon_id.as_str(), ic) {
                push_component(bag, component);
                push_id(&mut children, icon_id);
            }
        }
        proof {
            assert(views(bag@) =~= views(bag0) + spec_icon_part(id@, *icon).1);
            assert(str_views(children@) =~= spec_icon_part(id@, *icon).0);
        }
        let (rt_ids, rt) = convert_rich_texts(id, "rich_text", rich_text);
        append_components(bag, rt);
        append_ids(&mut children, rt_ids);
        let ch = self.convert_children_of(b, bag);
        append_ids(&mut children, ch);
        let r = Component::Callout(
            Callout {
                id: b.id.clone(),
                accessibility: None,
                weight: None,
                children: ChildList::Static(children),
                callout_type: callout_type_from_icon(icon.as_ref()),
            },
        );
        proof {
            assert(views(bag@).push(r@) =~= views(bag0) + spec_callout_parts(
                b.id@,
                rich_text@,
                *icon,
                spec_children_of(*self, *b),
            ));
        }
        r
    }

    /// The `Toggle` of a `toggle` block; its summary runs and its children's
    /// components are appended to `bag`.
    fn toggle(&self, b: &BlockResponse, rich_text: &[NotionRichText], bag: &mut Vec<Component>) -> (r: Component)
        ensures
            views(final(bag)@).push(r@) == views(old(bag)@) + spec_toggle_parts(
                b.id@,
                rich_text@,
                spec_children_of(*self, *b),
            ),
        decreases *b, 1int, 0int,
    {
        let ghost bag0 = bag@;
        let (summary, rt) = convert_rich_texts(b.id.as_str(), "summary", rich_text);
        append_components(bag, rt);
        let ch = self.convert_children_of(b, bag);
        let r = Component::Toggle(
            Toggle {
                id: b.id.clone(),
                accessibility: None,
                weight: None,
                summary: ChildList::Static(summary),
                children: ChildList::Static(ch),
            },
        );
        proof {
            assert(views(bag@).push(r@) =~= views(bag0) + spec_toggle_parts(
                b.id@,
                rich_text@,
                spec_children_of(*self, *b),
            ));
        }
        r
    }

    /// The `ColumnList` of a `column_list` block; its children's components
    /// are appended to `bag`.
    fn column_list(&self, b: &BlockResponse, bag: &mut Vec<Component>) -> (r: Component)
        ensures
            views(final(bag)@).push(r@) == views(old(bag)@) + spec_column_list_parts(
                b.id@,
                spec_children_of(*self, *b),
            ),
        decreases *b, 1int, 0int,
    {
        let ghost bag0 = bag@;
        let ch = self.convert_children_of(b, bag);
        let r = Component::ColumnList(
            ColumnList { id: b.id.clone(), accessibility: None, weight: None, children: ch },
        );
        proof {
            assert(views(bag@).push(r@) =~= views(bag0) + spec_column_list_parts(
                b.id@,
                spec_children_of(*self, *b),
            ));
        }
        r
    }

    /// The `Column` of a `column` or `synced_block` block; its children's
    /// components are appended to `bag`.
    fn column(&self, b: &BlockResponse, width_ratio: Option<Number>, bag: &mut Vec<Component>) -> (r: Component)
        ensures
            views(final(bag)@).push(r@) == views(old(bag)@) + spec_column_parts(
                b.id@,
                width_ratio,
                spec_children_of(*self, *b),
            ),
        decreases *b, 1int, 0int,
    {
        let ghost bag0 = bag@;
        let ch = self.convert_children_of(b, bag);
        let r = Component::Column(
            Column {
                id: b.id.clone(),
                accessibility: None,
                weight: None,
                children: ChildList::Static(ch),
                justify: None,
                align: None,
                width_ratio,
            },
        );
        proof {
            assert(views(bag@).push(r@) =~= views(bag0) + spec_column_parts(
                b.id@,
                width_ratio,
                spec_children_of(*self, *b),
            ));
        }
        r
    }

    /// The `Table` of a `table` block, whose children are its rows; the
    /// rows' components are appended to `bag`.
    fn table(&self, b: &BlockResponse, has_column_header: bool, has_row_header: bool, bag: &mut Vec<Component>) -> (r: Component)
        ensures
            views(final(bag)@).push(r@) == views(old(bag)@) + spec_table_parts(
                b.id@,
                b.children@,
                has_column_header,
                has_row_header,
            ),
    {
        let ghost bag0 = bag@;
        let (header, body) = self.classify_table_rows(
            b.children.as_slice(),
            has_column_header,
            has_row_header,
            bag,
        );
        let header = if header.len() == 0 {
            None
        } else {
            Some(header)
        };
        let r = Component::Table(
            Table {
                id: b.id.clone(),
                accessibility: None,
                weight: None,
                body,
                header,
                caption: None,
                has_column_header: Some(has_column_header),
                has_row_header: Some(has_row_header),
            },
        );
        proof {
            assert(views(bag@).push(r@) =~= views(bag0) + spec_table_parts(
                b.id@,
                b.children@,
                has_column_header,
                has_row_header,
            ));
        }
        r
    }

    /// The `Heading` of a heading block, whose runs are appended to `bag`.
    fn heading(
        &self,
        id: &str,
        level: crate::catalog::HeadingLevel,
        rich_text: &[NotionRichText],
        bag: &mut Vec<Component>,
    ) -> (r: Component)
        ensures
            views(final(bag)@).push(r@) == views(old(bag)@) + spec_heading_parts(id@, level, rich_text@),
    {
        let ghost bag0 = bag@;
        let (children, rt) = convert_rich_texts(id, "rich_text", rich_text);
        append_components(bag, rt);
        let r = Component::Heading(
            Heading {
                id: String::from_str(id),
                accessibility: None,
                weight: None,
                level,
                children: ChildList::Static(children),
            },
        );
        proof {
            assert(views(bag@).push(r@) =~= views(bag0) + spec_heading_parts(id@, level, rich_text@));
        }
        r
    }
}

/// Whether `b` is a table row.
fn is_row(b: &BlockResponse) -> (r: bool)
    ensures
        r == is_table_row(*b),
{
    match &b.block {
        Block::TableRow { .. } => true,
        _ => false,
    }
}

proof fn lemma_table_rows_push(rows: Seq<BlockResponse>, b: BlockResponse)
    ensures
        spec_table_rows(rows.push(b)) == if is_table_row(b) {
            spec_table_rows(rows).push(b)
        } else {
            spec_table_rows(rows)
        },
{
    reveal(Seq::filter);
    assert(rows.push(b).drop_last() =~= rows);
}

/// How the header, body and components of a table change when one more
/// child follows `prefix`.
proof fn lemma_table_step(
    prefix: Seq<BlockResponse>,
    row: BlockResponse,
    has_column_header: bool,
    has_row_header: bool,
)
    ensures
        spec_table_header(prefix.push(row), has_column_header) == if is_table_row(row)
            && has_column_header && spec_table_rows(prefix).len() == 0 {
            seq![row.id@]
        } else {
            spec_table_header(prefix, has_column_header)
        },
        spec_table_body(prefix.push(row), has_column_header) == if is_table_row(row) && !(
        has_column_header && spec_table_rows(prefix).len() == 0) {
            spec_table_body(prefix, has_column_header).push(row.id@)
        } else {
            spec_table_body(prefix, has_column_header)
        },
        spec_rows_parts(spec_table_rows(prefix.push(row)), has_row_header) == if is_table_row(
            row,
        ) {
            spec_rows_parts(spec_table_rows(prefix), has_row_header) + spec_row_parts(
                row,
                has_row_header,
            )
        } else {
            spec_rows_parts(spec_table_rows(prefix), has_row_header)
        },
        spec_table_rows(prefix.push(row)).len() == spec_table_rows(prefix).len() + (if is_table_row(
            row,
        ) {
            1int
        } else {
            0int
        }),
{
    lemma_table_rows_push(prefix, row);
    let t = spec_table_rows(prefix);
    if is_table_row(row) {
        let t2 = t.push(row);
        assert(t2.drop_last() =~= t);
        assert(spec_row_ids(t2) =~= spec_row_ids(t).push(row.id@));
        if has_column_header && t.len() > 0 {
            assert(t2[0] == t[0]);
            assert(spec_row_ids(t2).drop_first() =~= spec_row_ids(t).drop_first().push(row.id@));
        }
        if has_column_header && t.len() == 0 {
            assert(spec_row_ids(t2).drop_first() =~= Seq::<Seq<char>>::empty());
        }
    }
}

impl Converter {
    /// Splits a table's children into header and body row ids, appending
    /// each row's cells and `TableRow` to `bag`. Children that are not table
    /// rows are dropped before the rows are counted, so the first table row
    /// is the header row whenever the table has a column header.
    pub fn classify_table_rows(
        &self,
        rows: &[BlockResponse],
        has_column_header: bool,
        has_row_header: bool,
        bag: &mut Vec<Component>,
    ) -> (r: (Vec<ComponentId>, Vec<ComponentId>))
        ensures
            str_views(r.0@) == spec_table_header(rows@, has_column_header),
            str_views(r.1@) == spec_table_body(rows@, has_column_header),
            views(final(bag)@) == views(old(bag)@) + spec_rows_parts(
                spec_table_rows(rows@),
                has_row_header,
            ),
    {
        let ghost bag0 = bag@;
        let mut header_ids: Vec<ComponentId> = Vec::new();
        let mut body_ids: Vec<ComponentId> = Vec::new();
        let n = rows.len();
        let mut i: usize = 0;
        let mut row_index: usize = 0;
        while i < n
            invariant
                n == rows@.len(),
                i <= n,
                row_index == spec_table_rows(rows@.take(i as int)).len(),
                str_views(header_ids@) == spec_table_header(rows@.take(i as int), has_column_header),
                str_views(body_ids@) == spec_table_body(rows@.take(i as int), has_column_header),
                views(bag@) == views(bag0) + spec_rows_parts(
                    spec_table_rows(rows@.take(i as int)),
                    has_row_header,
                ),
            decreases n - i,
        {
            let row = &rows[i];
            let ghost before = rows@.take(i as int);
            proof {
                assert(rows@.take(i + 1) =~= before.push(*row));
                lemma_table_step(before, *row, has_column_header, has_row_header);
            }
            if let Block::TableRow { cells } = &row.block {
                let ghost mid = bag@;
                let row_id = row.id.clone();
                let cell_ids = self.table_row_cells(row_id.as_str(), cells, has_row_header, bag);
                push_component(
                    bag,
                    Component::TableRow(
                        TableRow {
                            id: row_id.clone(),
                            accessibility: None,
                            weight: None,
                            children: cell_ids,
                        },
                    ),
                );
                proof {
                    assert(views(bag@) =~= views(mid) + spec_row_parts(*row, has_row_header));
                }
                if has_column_header && row_index == 0 {
                    push_id(&mut header_ids, row_id);
                } else {
                    push_id(&mut body_ids, row_id);
                }
                row_index = row_index + 1;
            }
            i = i + 1;
        }
        proof {
            assert(rows@.take(n as int) =~= rows@);
        }
        (header_ids, body_ids)
    }

    /// Converts a row's cells: each cell's runs, then its `TableCell`, are
    /// appended to `bag`; returns the cells' ids `<row>::cell/<j>`.
    fn table_row_cells(
        &self,
        row_id: &str,
        cells: &Vec<Vec<NotionRichText>>,
        has_row_header: bool,
        bag: &mut Vec<Component>,
    ) -> (r: Vec<ComponentId>)
        ensures
            str_views(r@) == Seq::new(cells@.len(), |j: int| spec_cell_id(row_id@, j)),
            views(final(bag)@) == views(old(bag)@) + spec_cells(row_id@, cells@, has_row_header),
    {
        let ghost bag0 = bag@;
        let mut cell_ids: Vec<ComponentId> = Vec::new();
        let n = cells.len();
        let mut j: usize = 0;
        while j < n
            invariant
                n == cells@.len(),
                j <= n,
                str_views(cell_ids@) =~= Seq::new(j as nat, |k: int| spec_cell_id(row_id@, k)),
                views(bag@) == views(bag0) + spec_cells(row_id@, cells@.take(j as int), has_row_header),
            decreases n - j,
        {
            let cell_id = child_id(row_id, "cell", j);
            let (rt_ids, rt) = convert_rich_texts(cell_id.as_str(), "rich_text", cells[j].as_slice());
            append_components(bag, rt);
            let is_header = if has_row_header && j == 0 {
                Some(true)
            } else {
                None
            };
            push_component(
                bag,
                Component::TableCell(
                    TableCell {
                        id: cell_id.clone(),
                        accessibility: None,
                        weight: None,
                        children: rt_ids,
                        is_header,
                    },
                ),
            );
            push_id(&mut cell_ids, cell_id);
            proof {
                assert(cells@.take(j + 1).drop_last() =~= cells@.take(j as int));
                assert(views(bag@) =~= views(bag0) + spec_cells(row_id@, cells@.take(j + 1), has_row_header));
            }
            j = j + 1;
        }
        proof {
            assert(cells@.take(n as int) =~= cells@);
        }
        cell_ids
    }

    /// The `ContentTabs` of a `tab` block: each paragraph child becomes a
    /// `ContentTab` whose label is the paragraph's runs and whose content is
    /// the paragraph's children; other children are ignored. The tabs'
    /// components are appended to `bag`.
    fn tab(&self, b: &BlockResponse, bag: &mut Vec<Component>) -> (r: Component)
        ensures
            views(final(bag)@).push(r@) == views(old(bag)@) + spec_tabs_parts(
                b.id@,
                spec_tab_entries(*self, *b),
            ),
        decreases *b, 1int, 0int,
    {
        let ghost bag0 = bag@;
        let mut tab_ids: Vec<ComponentId> = Vec::new();
        if b.has_children {
            let kids = &b.children;
            let n = kids.len();
            let mut k: usize = 0;
            while k < n
                invariant
                    n == kids@.len(),
                    kids@ == b.children@,
                    k <= n,
                    str_views(tab_ids@) == spec_tab_entries_upto(*self, kids@, k as int).0,
                    views(bag@) == views(bag0) + spec_tab_entries_upto(*self, kids@, k as int).1,
                decreases n - k,
            {
                let kid = &kids[k];
                if let Block::Paragraph { rich_text, .. } = &kid.block {
                    let tab_id = kid.id.clone();
                    let (label_ids, label) = convert_rich_texts(tab_id.as_str(), "label", rich_text.as_slice());
                    append_components(bag, label);
                    let content = self.convert_children_of(kid, bag);
                    push_component(
                        bag,
                        Component::ContentTab(
                            ContentTab {
                                id: tab_id.clone(),
                                accessibility: None,
                                weight: None,
                                label: ChildList::Static(label_ids),
                                content: ChildList::Static(content),
                            },
                        ),
                    );
                    push_id(&mut tab_ids, tab_id);
                }
                proof {
                    assert(views(bag@) =~= views(bag0) + spec_tab_entries_upto(*self, kids@, k + 1).1);
                }
                k = k + 1;
            }
        }
        proof {
            if !b.has_children {
                assert(views(bag@) =~= views(bag0) + spec_tab_entries(*self, *b).1);
                assert(str_views(tab_ids@) =~= spec_tab_entries(*self, *b).0);
            }
        }
        let ghost tv = str_views(tab_ids@);
        let r = Component::ContentTabs(
            ContentTabs { id: b.id.clone(), accessibility: None, weight: None, children: tab_ids },
        );
        proof {
            assert(views(bag@).push(r@) =~= views(bag0) + spec_tabs_parts(b.id@, spec_tab_entries(*self, *b)));
        }
        r
    }
}

/// The `Bookmark` of a bookmark-like block.
fn bookmark(id: &str, url: String, title: Option<String>) -> (r: Component)
    ensures
        r@ == spec_bookmark(id@, url@, match title {
            Some(t) => Some(t@),
            None => None,
        }),
{
    Component::Bookmark(
        Bookmark {
            id: String::from_str(id),
            accessibility: None,
            weight: None,
            url,
            title,
            description: None,
            image: None,
        },
    )
}

} // verus!
