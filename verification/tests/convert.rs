//! Conversion of block fixtures built by hand: no network traffic, and
//! every block has `has_children = false`.

use n2a2ui::catalog::Component;
use n2a2ui::common::{ChildList, ComponentId};
use n2a2ui::convert::{top_level_groups, Converter, SiblingGroup};
use n2a2ui::id::ROOT_ID;
use n2a2ui::message::UpdateComponents;
use n2a2ui::notion::{Block, BlockResponse, RichText, RichTextAnnotations};
use n2a2ui::stream::root_column;
use n2a2ui::surface::Surface;

fn make_converter() -> Converter {
    Converter { enable_unsupported_block: false, enable_fetch_image_meta: false }
}

fn block_response(id: &str, block: Block) -> BlockResponse {
    BlockResponse { id: id.to_string(), has_children: false, block, children: Vec::new() }
}

fn rich_text_text(text: &str) -> RichText {
    RichText::Text {
        annotations: RichTextAnnotations::default(),
        plain_text: text.to_string(),
        href: None,
    }
}

fn paragraph(id: &str, text: &str) -> BlockResponse {
    block_response(
        id,
        Block::Paragraph { rich_text: vec![rich_text_text(text)], color: Default::default() },
    )
}

fn bulleted(id: &str, text: &str) -> BlockResponse {
    block_response(id, Block::BulletedListItem { rich_text: vec![rich_text_text(text)] })
}

fn numbered(id: &str, text: &str) -> BlockResponse {
    block_response(id, Block::NumberedListItem { rich_text: vec![rich_text_text(text)] })
}

fn bookmark_with_caption(id: &str, url: &str, caption: &str) -> BlockResponse {
    block_response(
        id,
        Block::Bookmark { url: url.to_string(), caption: vec![rich_text_text(caption)] },
    )
}

fn table_row(id: &str, cells: &[&str]) -> BlockResponse {
    block_response(
        id,
        Block::TableRow { cells: cells.iter().map(|t| vec![rich_text_text(t)]).collect() },
    )
}

/// Converts the blocks group by group, as the progressive rendering does.
fn streaming_chunks(
    converter: &Converter,
    blocks: &[BlockResponse],
) -> Vec<(ComponentId, Vec<Component>)> {
    let mut chunks = Vec::new();
    for group in top_level_groups(blocks) {
        let chunk = match group {
            SiblingGroup::List { start, end, style } => {
                Some(converter.convert_list_group_to_chunk(&blocks[start..end], style))
            }
            SiblingGroup::Single { index } => {
                converter.convert_single_block_to_chunk(&blocks[index])
            }
        };
        if let Some(c) = chunk {
            chunks.push(c);
        }
    }
    chunks
}

fn root(children: &[ComponentId]) -> Component {
    root_column(children)
}

#[test]
fn bug4_bookmark_caption_should_not_be_set_as_description() {
    let converter = make_converter();

    let bm = bookmark_with_caption("bk-1", "https://example.com", "user caption");
    let (id, components) = converter
        .convert_single_block_to_chunk(&bm)
        .expect("bookmark must produce a chunk");

    assert_eq!(id, "bk-1");
    assert_eq!(components.len(), 1);
    let Component::Bookmark(out) = &components[0] else {
        panic!("expected Bookmark variant, got {:?}", components[0]);
    };

    assert_eq!(
        out.description, None,
        "bookmark.description must not be populated from the Notion caption"
    );
}

#[test]
fn bug2_streaming_and_eager_paths_produce_identical_chunking() {
    let converter = make_converter();

    let blocks = vec![
        paragraph("p-1", "intro"),
        bulleted("b-1", "first bullet"),
        bulleted("b-2", "second bullet"),
        paragraph("p-2", "middle"),
        numbered("n-1", "first item"),
        numbered("n-2", "second item"),
        paragraph("p-3", "outro"),
    ];

    let mut eager_bag: Vec<Component> = Vec::new();
    let eager_ids = converter.convert_siblings(&blocks, &mut eager_bag);

    let streamed = streaming_chunks(&converter, &blocks);
    let streamed_ids: Vec<ComponentId> = streamed.iter().map(|(id, _)| id.clone()).collect();
    let streamed_flat: Vec<Component> =
        streamed.iter().flat_map(|(_, comps)| comps.clone()).collect();

    assert_eq!(
        eager_ids, streamed_ids,
        "chunk ids should match between eager convert_siblings and the streaming loop"
    );

    let eager_component_ids: Vec<&str> = eager_bag.iter().map(|c| c.id()).collect();
    let streamed_component_ids: Vec<&str> = streamed_flat.iter().map(|c| c.id()).collect();
    assert_eq!(
        eager_component_ids, streamed_component_ids,
        "component ids must be emitted in the same order by both paths"
    );

    assert_eq!(
        streamed_ids.len(),
        5,
        "expected paragraph + bullet-list + paragraph + numbered-list + paragraph"
    );
    assert!(streamed_ids[1].ends_with("::list"));
    assert!(streamed_ids[3].ends_with("::list"));
}

#[test]
fn bug1_streaming_reconstruction_preserves_eager_component_order() {
    let converter = make_converter();

    let blocks = vec![
        paragraph("p-1", "alpha"),
        bulleted("b-1", "bravo"),
        bulleted("b-2", "charlie"),
        paragraph("p-2", "delta"),
    ];

    let mut eager_bag: Vec<Component> = Vec::new();
    let eager_root_children = converter.convert_siblings(&blocks, &mut eager_bag);
    let mut eager_surface = Surface::new(ROOT_ID.to_string());
    eager_surface.insert(root(&eager_root_children));
    for c in eager_bag {
        eager_surface.insert(c);
    }

    let mut streamed_msgs: Vec<UpdateComponents> = Vec::new();
    let mut accumulated: Vec<ComponentId> = Vec::new();
    streamed_msgs.push(UpdateComponents {
        surface_id: "s".to_string(),
        components: vec![root(&accumulated)],
    });
    let chunks = streaming_chunks(&converter, &blocks);
    for (chunk_id, mut comps) in chunks {
        accumulated.push(chunk_id);
        comps.push(root(&accumulated));
        streamed_msgs.push(UpdateComponents { surface_id: "s".to_string(), components: comps });
    }
    let mut streamed_surface = Surface::new(ROOT_ID.to_string());
    for uc in &streamed_msgs {
        for c in &uc.components {
            streamed_surface.insert(c.clone());
        }
    }

    let eager_order: Vec<&str> = eager_surface.components.keys().map(|s| s.as_str()).collect();
    let streamed_order: Vec<&str> =
        streamed_surface.components.keys().map(|s| s.as_str()).collect();
    assert_eq!(
        eager_order, streamed_order,
        "reconstructing a Surface from the streamed messages must preserve the eager order"
    );
}

#[test]
fn bug6_table_filters_non_row_children_before_indexing_header() {
    let converter = make_converter();

    let rows = vec![
        paragraph("stray-1", "not a row"),
        table_row("row-a", &["A1", "A2"]),
        table_row("row-b", &["B1", "B2"]),
    ];

    let mut bag: Vec<Component> = Vec::new();
    let (header_ids, body_ids) = converter.classify_table_rows(&rows, true, false, &mut bag);

    assert_eq!(
        header_ids,
        vec!["row-a".to_string()],
        "the first TableRow should be the header row when has_column_header=true"
    );
    assert_eq!(body_ids, vec!["row-b".to_string()]);
    let _ = ChildList::default();
}
