use n2a2ui::catalog::{Component, ListStyle};
use n2a2ui::convert::SiblingGroup;
use n2a2ui::common::ChildList;
use n2a2ui::convert::Converter;
use n2a2ui::message::{MessageBody, BLOCK_CATALOG_ID, VERSION};
use n2a2ui::minimal;
use n2a2ui::notion::{Block, BlockResponse, Color, RichText, RichTextAnnotations};
use n2a2ui::stream::MessageStream;
use n2a2ui::surface::Surface;

fn block(id: &str, block: Block) -> BlockResponse {
    BlockResponse { id: id.to_string(), has_children: false, block, children: Vec::new() }
}

fn text(t: &str) -> RichText {
    RichText::Text { annotations: RichTextAnnotations::default(), plain_text: t.to_string(), href: None }
}

fn paragraph(id: &str) -> BlockResponse {
    block(id, Block::Paragraph { rich_text: vec![text(id)], color: Color::Default })
}

fn root_children(components: &[Component]) -> Vec<String> {
    match components.last() {
        Some(Component::Column(c)) => {
            assert_eq!(c.id, "root");
            match &c.children {
                ChildList::Static(ids) => ids.clone(),
                other => panic!("root.children must be Static, got {other:?}"),
            }
        }
        other => panic!("root component should be a Column, got {other:?}"),
    }
}

fn replay(messages: &[n2a2ui::message::Message]) -> Surface {
    let mut surface = Surface::new("root".to_string());
    for m in messages {
        if let MessageBody::UpdateComponents(u) = &m.body {
            for c in &u.components {
                surface.insert(c.clone());
            }
        }
    }
    surface
}

#[test]
fn messages_open_then_grow_the_root() {
    let c = Converter { enable_unsupported_block: false, enable_fetch_image_meta: false };
    let blocks = vec![
        paragraph("p-1"),
        block("b-1", Block::BulletedListItem { rich_text: vec![text("x")] }),
        block("skip", Block::Breadcrumb),
        block("n-1", Block::NumberedListItem { rich_text: vec![text("y")] }),
    ];
    let messages = c.convert_block_to_messages(&blocks, "notion-page".to_string());
    assert_eq!(messages.len(), 5);
    for m in &messages {
        assert_eq!(m.version, VERSION);
    }
    match &messages[0].body {
        MessageBody::CreateSurface(cs) => {
            assert_eq!(cs.surface_id, "notion-page");
            assert_eq!(cs.catalog_id, BLOCK_CATALOG_ID);
        }
        other => panic!("first message must be createSurface, got {other:?}"),
    }
    let mut expected: Vec<String> = Vec::new();
    for (i, m) in messages.iter().enumerate().skip(1) {
        match &m.body {
            MessageBody::UpdateComponents(u) => {
                assert_eq!(root_children(&u.components), expected);
                if i == 1 {
                    assert_eq!(u.components.len(), 1);
                }
            }
            other => panic!("message {i} should be updateComponents, got {other:?}"),
        }
        if i < messages.len() - 1 {
            expected.push(["p-1", "b-1::list", "n-1::list"][i - 1].to_string());
        }
    }
}

#[test]
fn all_skipped_page_yields_two_messages() {
    let c = Converter { enable_unsupported_block: false, enable_fetch_image_meta: false };
    let blocks = vec![block("a", Block::Breadcrumb), block("b", Block::Template)];
    let messages = c.convert_block_to_messages(&blocks, "s".to_string());
    assert_eq!(messages.len(), 2);
    let with_unsupported = Converter { enable_unsupported_block: true, ..c };
    assert_eq!(with_unsupported.convert_block_to_messages(&blocks, "s".to_string()).len(), 4);
}

#[test]
fn replayed_messages_equal_the_eager_surface() {
    let c = Converter { enable_unsupported_block: true, enable_fetch_image_meta: false };
    let blocks = vec![
        paragraph("p-1"),
        block("b-1", Block::ToDo { rich_text: vec![text("x")], checked: false }),
        block("b-2", Block::BulletedListItem { rich_text: vec![] }),
        block("u", Block::TableOfContents),
    ];
    let eager = c.convert_to_surface(&blocks);
    let streamed = replay(&c.convert_block_to_messages(&blocks, "s".to_string()));
    assert_eq!(eager.root, "root");
    assert_eq!(streamed, eager);
    assert_eq!(eager.components.get_index(0).unwrap().0, "root");
}

#[test]
fn replay_keeps_the_order_when_a_block_is_named_root() {
    let c = Converter { enable_unsupported_block: false, enable_fetch_image_meta: false };
    let blocks = vec![paragraph("a"), paragraph("root"), paragraph("b")];
    let eager = c.convert_to_surface(&blocks);
    let streamed = replay(&c.convert_block_to_messages(&blocks, "s".to_string()));
    let eager_keys: Vec<&String> = eager.components.keys().collect();
    let streamed_keys: Vec<&String> = streamed.components.keys().collect();
    assert_eq!(eager_keys, streamed_keys);
    assert_ne!(eager.components.get("root"), streamed.components.get("root"));
    assert_eq!(eager.components.get("b"), streamed.components.get("b"));
}

#[test]
fn stream_state_accumulates_ids() {
    let mut s = MessageStream::new("page".to_string());
    let opening = s.opening();
    assert_eq!(opening.len(), 2);
    let m = s.chunk_message("x".to_string(), Vec::new());
    match &m.body {
        MessageBody::UpdateComponents(u) => assert_eq!(root_children(&u.components), vec!["x".to_string()]),
        other => panic!("expected updateComponents, got {other:?}"),
    }
    let m = s.chunk_message("y".to_string(), Vec::new());
    match &m.body {
        MessageBody::UpdateComponents(u) => {
            assert_eq!(root_children(&u.components), vec!["x".to_string(), "y".to_string()])
        }
        other => panic!("expected updateComponents, got {other:?}"),
    }
}

#[test]
fn minimal_converter_puts_the_block_first() {
    let p = paragraph("p");
    let (id, comps) = minimal::convert_block(&p, false).unwrap();
    assert_eq!(id, "p");
    let got: Vec<&str> = comps.iter().map(|c| c.id()).collect();
    assert_eq!(got, vec!["p", "p::rich_text/0"]);
    let q = block("q", Block::Quote { rich_text: vec![] });
    assert_eq!(minimal::convert_block(&q, false), None);
    let (_, comps) = minimal::convert_block(&q, true).unwrap();
    match &comps[0] {
        Component::Unsupported(u) => assert_eq!(u.details, Some("quote".to_string())),
        other => panic!("expected Unsupported, got {other:?}"),
    }
}

#[test]
fn minimal_surface_lists_the_converted_blocks() {
    let blocks = vec![
        paragraph("p-1"),
        block("skip", Block::Divider),
        block("h-1", Block::Heading2 { rich_text: vec![text("t")] }),
    ];
    let surface = minimal::convert_to_surface(&blocks, false);
    assert_eq!(surface.root, "root");
    let keys: Vec<&str> = surface.components.keys().map(|k| k.as_str()).collect();
    assert_eq!(keys, vec!["root", "p-1", "p-1::rich_text/0", "h-1", "h-1::rich_text/0"]);
    match surface.components.get("root") {
        Some(Component::Column(c)) => {
            assert_eq!(c.children, ChildList::Static(vec!["p-1".to_string(), "h-1".to_string()]));
        }
        other => panic!("root should be a Column, got {other:?}"),
    }

    let with_placeholder = minimal::convert_to_surface(&blocks, true);
    assert_eq!(with_placeholder.len(), 6);
    match with_placeholder.components.get("skip") {
        Some(Component::Unsupported(u)) => assert_eq!(u.details.as_deref(), Some("divider")),
        other => panic!("divider should be Unsupported, got {other:?}"),
    }
}

#[test]
fn page_surface_puts_the_root_first_and_replaces_by_id() {
    let c = Converter { enable_unsupported_block: false, enable_fetch_image_meta: false };
    let (_, components) = c.convert_children(&[paragraph("p-1")]);
    let mut doubled = components.clone();
    doubled.extend(components.clone());
    let surface = n2a2ui::stream::page_surface(&["p-1".to_string()], &doubled);
    assert_eq!(surface.len(), 1 + components.len());
    assert_eq!(surface.component_list()[1..].to_vec(), components);
}

#[test]
fn stepping_the_stream_gives_the_eager_messages() {
    let c = Converter { enable_unsupported_block: false, enable_fetch_image_meta: false };
    let blocks = vec![
        paragraph("p-1"),
        block("b-1", Block::BulletedListItem { rich_text: vec![text("x")] }),
        block("b-2", Block::ToDo { rich_text: vec![text("y")], checked: true }),
        block("skip", Block::Breadcrumb),
        paragraph("p-2"),
    ];
    let eager = c.convert_block_to_messages(&blocks, "page".to_string());
    let mut stream = MessageStream::new("page".to_string());
    let mut stepped = stream.opening();
    for group in n2a2ui::convert::top_level_groups(&blocks) {
        assert!(n2a2ui::stream::group_fits(&blocks, group));
        if let Some(m) = c.stream_step(&mut stream, &blocks, group) {
            stepped.push(m);
        }
    }
    assert_eq!(stepped.len(), 5);
    assert_eq!(stepped, eager);
}

#[test]
fn group_fits_only_list_items() {
    let blocks = vec![
        block("b-1", Block::BulletedListItem { rich_text: vec![] }),
        paragraph("p-1"),
    ];
    let list = SiblingGroup::List { start: 0, end: 1, style: ListStyle::Unordered };
    assert!(n2a2ui::stream::group_fits(&blocks, list));
    let wide = SiblingGroup::List { start: 0, end: 2, style: ListStyle::Unordered };
    assert!(!n2a2ui::stream::group_fits(&blocks, wide));
    assert!(n2a2ui::stream::group_fits(&blocks, SiblingGroup::Single { index: 1 }));
}

#[test]
fn minimal_messages_are_the_surface_rendered() {
    let blocks = vec![paragraph("p-1"), block("skip", Block::Divider)];
    let messages = minimal::convert_to_messages(&blocks, false, "page".to_string());
    assert_eq!(messages.len(), 2);
    match &messages[0].body {
        MessageBody::CreateSurface(c) => {
            assert_eq!(c.surface_id, "page");
            assert_eq!(c.catalog_id, BLOCK_CATALOG_ID);
        }
        other => panic!("expected createSurface, got {other:?}"),
    }
    let surface = minimal::convert_to_surface(&blocks, false);
    match &messages[1].body {
        MessageBody::UpdateComponents(u) => assert_eq!(u.components, surface.component_list()),
        other => panic!("expected updateComponents, got {other:?}"),
    }
}
