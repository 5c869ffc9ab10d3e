use n2a2ui::blocks::{
    callout_type_from_icon, image_body_url, image_dimensions, str_equal, unsupported_label,
};
use n2a2ui::catalog::{CalloutType, Component, Decoration, HeadingLevel};
use n2a2ui::color::{map_background_color, map_color};
use n2a2ui::common::{ChildList, DynamicString, Number};
use n2a2ui::convert::Converter;
use n2a2ui::notion::{
    Block, BlockResponse, Color, EmojiAndIcon, File, LinkedFile, Mention, Position, RichText,
    RichTextAnnotations,
};
use n2a2ui::rich_text::convert_rich_texts;

fn converter(unsupported: bool, image_meta: bool) -> Converter {
    Converter { enable_unsupported_block: unsupported, enable_fetch_image_meta: image_meta }
}

fn block(id: &str, block: Block) -> BlockResponse {
    BlockResponse { id: id.to_string(), has_children: false, block, children: Vec::new() }
}

fn text(t: &str) -> RichText {
    RichText::Text { annotations: RichTextAnnotations::default(), plain_text: t.to_string(), href: None }
}

fn chunk(c: &Converter, b: &BlockResponse) -> (String, Vec<Component>) {
    c.convert_single_block_to_chunk(b).expect("block must produce a chunk")
}

fn ids(components: &[Component]) -> Vec<&str> {
    components.iter().map(|c| c.id()).collect()
}

/// The first 24 bytes of a PNG whose IHDR says `width` x `height`.
fn png_header(width: u32, height: u32) -> Vec<u8> {
    let mut v = vec![0x89, 0x50, 0x4E, 0x47, 0x0D, 0x0A, 0x1A, 0x0A, 0, 0, 0, 0x0D, b'I', b'H', b'D', b'R'];
    v.extend_from_slice(&width.to_be_bytes());
    v.extend_from_slice(&height.to_be_bytes());
    v.extend_from_slice(&[8, 6, 0, 0, 0]);
    v
}

#[test]
fn colors_map_to_hex() {
    assert_eq!(map_color(Color::Blue), Some("#6987b8".to_string()));
    assert_eq!(map_color(Color::Yellow), Some("#b8a36e".to_string()));
    assert_eq!(map_color(Color::Default), None);
    assert_eq!(map_color(Color::RedBackground), None);
    assert_eq!(map_background_color(Color::GrayBackground), Some("#cccfd5".to_string()));
    assert_eq!(map_background_color(Color::Gray), None);
    assert_eq!(map_background_color(Color::DefaultBackground), None);
}

#[test]
fn rich_text_runs_become_inline_components() {
    let bold_code = RichText::Text {
        annotations: RichTextAnnotations { bold: true, code: true, color: Color::Red, ..Default::default() },
        plain_text: "x".to_string(),
        href: None,
    };
    let link = RichText::Text {
        annotations: RichTextAnnotations { bold: true, ..Default::default() },
        plain_text: "site".to_string(),
        href: Some("https://example.com".to_string()),
    };
    let equation = RichText::Equation {
        expression: "e=mc^2".to_string(),
        annotations: RichTextAnnotations::default(),
        plain_text: "e = mc2".to_string(),
        href: None,
    };
    let emoji = RichText::Mention {
        mention: Mention::CustomEmoji { name: "party".to_string(), url: "https://e/p.png".to_string() },
        annotations: RichTextAnnotations::default(),
        plain_text: ":party:".to_string(),
        href: None,
    };
    let (run_ids, comps) = convert_rich_texts("p", "rich_text", &[bold_code, link, equation, emoji]);
    assert_eq!(run_ids, vec!["p::rich_text/0", "p::rich_text/1", "p::rich_text/2", "p::rich_text/3"]);
    match &comps[0] {
        Component::RichText(r) => {
            assert_eq!(r.text, DynamicString::Literal("x".to_string()));
            assert_eq!(r.decoration, Some(vec![Decoration::Bold, Decoration::Code]));
            assert_eq!(r.color, Some("#b36472".to_string()));
        }
        other => panic!("expected RichText, got {other:?}"),
    }
    match &comps[1] {
        Component::LinkText(l) => {
            assert_eq!(l.href, "https://example.com");
            assert_eq!(l.text, DynamicString::Literal("site".to_string()));
        }
        other => panic!("expected LinkText, got {other:?}"),
    }
    match &comps[2] {
        Component::RichText(r) => {
            assert_eq!(r.text, DynamicString::Literal("e=mc^2".to_string()));
            assert_eq!(r.decoration, Some(vec![Decoration::Katex]));
            assert_eq!(r.color, None);
        }
        other => panic!("expected RichText, got {other:?}"),
    }
    match &comps[3] {
        Component::Icon(i) => {
            assert_eq!(i.src, "https://e/p.png");
            assert_eq!(i.alt, Some("party".to_string()));
        }
        other => panic!("expected Icon, got {other:?}"),
    }
    let (_, plain) = convert_rich_texts("p", "rich_text", &[text("plain")]);
    match &plain[0] {
        Component::RichText(r) => assert_eq!(r.decoration, None),
        other => panic!("expected RichText, got {other:?}"),
    }
}

#[test]
fn paragraph_with_children_lists_runs_then_children() {
    let mut p = block(
        "p",
        Block::Paragraph { rich_text: vec![text("a")], color: Color::BlueBackground },
    );
    p.has_children = true;
    p.children = vec![block("c", Block::Divider)];
    let (id, comps) = chunk(&converter(false, false), &p);
    assert_eq!(id, "p");
    assert_eq!(ids(&comps), vec!["p::rich_text/0", "c", "p"]);
    match &comps[2] {
        Component::Paragraph(par) => {
            assert_eq!(
                par.children,
                ChildList::Static(vec!["p::rich_text/0".to_string(), "c".to_string()])
            );
            assert_eq!(par.color, None);
            assert_eq!(par.background_color, Some("#c0cce1".to_string()));
        }
        other => panic!("expected Paragraph, got {other:?}"),
    }
}

#[test]
fn children_are_ignored_without_has_children() {
    let mut p = block("p", Block::Quote { rich_text: vec![] });
    p.children = vec![block("c", Block::Divider)];
    let (_, comps) = chunk(&converter(false, false), &p);
    assert_eq!(ids(&comps), vec!["p"]);
}

#[test]
fn headings_carry_their_level() {
    let h = block("h", Block::Heading2 { rich_text: vec![text("t")] });
    let (_, comps) = chunk(&converter(false, false), &h);
    match &comps[1] {
        Component::Heading(hd) => {
            assert_eq!(hd.level, HeadingLevel::H2);
            assert_eq!(hd.children, ChildList::Static(vec!["h::rich_text/0".to_string()]));
        }
        other => panic!("expected Heading, got {other:?}"),
    }
}

#[test]
fn callout_icon_and_type() {
    let c = block(
        "c",
        Block::Callout { rich_text: vec![text("careful")], icon: Some(EmojiAndIcon::Emoji("\u{26a0}\u{fe0f}".to_string())) },
    );
    let (_, comps) = chunk(&converter(false, false), &c);
    assert_eq!(ids(&comps), vec!["c::icon/0", "c::rich_text/0", "c"]);
    match &comps[2] {
        Component::Callout(co) => assert_eq!(co.callout_type, Some(CalloutType::Warning)),
        other => panic!("expected Callout, got {other:?}"),
    }
    let builtin = block("d", Block::Callout { rich_text: vec![], icon: Some(EmojiAndIcon::Icon) });
    let (_, comps) = chunk(&converter(false, false), &builtin);
    assert_eq!(ids(&comps), vec!["d"]);
}

#[test]
fn callout_types_follow_emojis() {
    let e = |s: &str| EmojiAndIcon::Emoji(s.to_string());
    assert_eq!(callout_type_from_icon(Some(&e("\u{1f4a1}"))), Some(CalloutType::Note));
    assert_eq!(callout_type_from_icon(Some(&e("\u{2705}"))), Some(CalloutType::Tip));
    assert_eq!(callout_type_from_icon(Some(&e("\u{1f4cc}"))), Some(CalloutType::Important));
    assert_eq!(callout_type_from_icon(Some(&e("\u{1f6a7}"))), Some(CalloutType::Warning));
    assert_eq!(callout_type_from_icon(Some(&e("\u{274c}"))), Some(CalloutType::Caution));
    assert_eq!(callout_type_from_icon(Some(&e("\u{1f600}"))), None);
    assert_eq!(callout_type_from_icon(None), None);
    assert!(str_equal("ab", "ab"));
    assert!(!str_equal("ab", "abc"));
}

#[test]
fn toggle_summary_and_todo_marks() {
    let t = block("t", Block::Toggle { rich_text: vec![text("s")] });
    let (_, comps) = chunk(&converter(false, false), &t);
    assert_eq!(ids(&comps), vec!["t::summary/0", "t"]);

    let items = vec![block("td", Block::ToDo { rich_text: vec![text("x")], checked: true })];
    let (list_id, comps) = converter(false, false)
        .convert_list_group_to_chunk(&items, n2a2ui::catalog::ListStyle::Unordered);
    assert_eq!(list_id, "td::list");
    assert_eq!(ids(&comps), vec!["td::todo_mark/0", "td::rich_text/0", "td", "td::list"]);
    match &comps[0] {
        Component::RichText(r) => assert_eq!(r.text, DynamicString::Literal("\u{2611} ".to_string())),
        other => panic!("expected RichText, got {other:?}"),
    }
}

#[test]
fn code_blocks_and_mermaid() {
    let code = block(
        "k",
        Block::Code { rich_text: vec![text("fn "), text("main")], caption: vec![text("cap")], language: "rust".to_string() },
    );
    let (_, comps) = chunk(&converter(false, false), &code);
    match &comps[0] {
        Component::CodeBlock(cb) => {
            assert_eq!(cb.code, "fn main");
            assert_eq!(cb.language, Some("rust".to_string()));
            assert_eq!(cb.caption, Some("cap".to_string()));
        }
        other => panic!("expected CodeBlock, got {other:?}"),
    }
    let no_caption = block("k2", Block::Code { rich_text: vec![], caption: vec![], language: "c".to_string() });
    let (_, comps) = chunk(&converter(false, false), &no_caption);
    match &comps[0] {
        Component::CodeBlock(cb) => assert_eq!(cb.caption, None),
        other => panic!("expected CodeBlock, got {other:?}"),
    }
    let mermaid = block("m", Block::Code { rich_text: vec![text("graph TD")], caption: vec![], language: "mermaid".to_string() });
    let (_, comps) = chunk(&converter(false, false), &mermaid);
    match &comps[0] {
        Component::Mermaid(mm) => assert_eq!(mm.code, "graph TD"),
        other => panic!("expected Mermaid, got {other:?}"),
    }
    let eq = block("q", Block::Equation { expression: "x^2".to_string() });
    let (_, comps) = chunk(&converter(false, false), &eq);
    match &comps[0] {
        Component::Katex(kx) => assert_eq!(kx.expression, "x^2"),
        other => panic!("expected Katex, got {other:?}"),
    }
}

#[test]
fn files_and_uploads() {
    let linked = LinkedFile { url: "https://f/a.pdf".to_string(), name: Some("a.pdf".to_string()), caption: None };
    let f = block("f", Block::Pdf { pdf: File::External(linked) });
    let (_, comps) = chunk(&converter(false, false), &f);
    match &comps[0] {
        Component::File(fc) => {
            assert_eq!(fc.src, "https://f/a.pdf");
            assert_eq!(fc.name, Some("a.pdf".to_string()));
        }
        other => panic!("expected File, got {other:?}"),
    }
    let up = block("u", Block::Video { video: File::ApiUploaded });
    let (_, comps) = chunk(&converter(false, false), &up);
    match &comps[0] {
        Component::Unsupported(u) => assert_eq!(u.details, Some("file:api_uploaded".to_string())),
        other => panic!("expected Unsupported, got {other:?}"),
    }
    let img = block("i", Block::Image { image: File::ApiUploaded, fetched: None });
    let (_, comps) = chunk(&converter(false, true), &img);
    match &comps[0] {
        Component::Unsupported(u) => assert_eq!(u.details, Some("image:api_uploaded".to_string())),
        other => panic!("expected Unsupported, got {other:?}"),
    }
}

#[test]
fn image_dimensions_come_from_the_fetched_body() {
    assert_eq!(image_dimensions(true, &Some(png_header(640, 480))), Some((640, 480)));
    assert_eq!(image_dimensions(false, &Some(png_header(640, 480))), None);
    assert_eq!(image_dimensions(true, &Some(vec![1, 2, 3])), None);
    assert_eq!(image_dimensions(true, &None), None);

    let linked = LinkedFile {
        url: "https://i/a.png".to_string(),
        name: None,
        caption: Some(vec![text("a "), text("cat")]),
    };
    let img = block("i", Block::Image { image: File::NotionHosted(linked), fetched: Some(png_header(3, 2)) });
    let (_, comps) = chunk(&converter(false, true), &img);
    match &comps[0] {
        Component::BlockImage(bi) => {
            assert_eq!(bi.src, "https://i/a.png");
            assert_eq!(bi.width, Some(Number::Unsigned(3)));
            assert_eq!(bi.height, Some(Number::Unsigned(2)));
            assert_eq!(bi.caption, Some("a cat".to_string()));
        }
        other => panic!("expected BlockImage, got {other:?}"),
    }
    let (_, comps) = chunk(&converter(false, false), &img);
    match &comps[0] {
        Component::BlockImage(bi) => assert_eq!(bi.width, None),
        other => panic!("expected BlockImage, got {other:?}"),
    }
}

#[test]
fn bookmark_like_blocks() {
    let page = block("ab-cd", Block::ChildPage { title: "Sub".to_string() });
    let (_, comps) = chunk(&converter(false, false), &page);
    match &comps[0] {
        Component::Bookmark(b) => {
            assert_eq!(b.url, "https://www.notion.so/abcd");
            assert_eq!(b.title, Some("Sub".to_string()));
        }
        other => panic!("expected Bookmark, got {other:?}"),
    }
    let embed = block("e", Block::Embed { url: "https://x".to_string() });
    let (_, comps) = chunk(&converter(false, false), &embed);
    match &comps[0] {
        Component::Bookmark(b) => assert_eq!(b.url, "https://x"),
        other => panic!("expected Bookmark, got {other:?}"),
    }
}

#[test]
fn unsupported_blocks() {
    let bc = block("b", Block::Breadcrumb);
    assert_eq!(converter(false, false).convert_single_block_to_chunk(&bc), None);
    let (_, comps) = chunk(&converter(true, false), &bc);
    match &comps[0] {
        Component::Unsupported(u) => assert_eq!(u.details, Some("breadcrumb".to_string())),
        other => panic!("expected Unsupported, got {other:?}"),
    }
    assert_eq!(unsupported_label(&Block::Unsupported { block_type: "ai".to_string() }), "unsupported:ai");
    assert_eq!(unsupported_label(&Block::Heading4 { rich_text: vec![] }), "heading_4");
    assert_eq!(unsupported_label(&Block::MeetingNotes), "meeting_notes");
}

#[test]
fn columns_tables_and_tabs() {
    let mut col = block("col", Block::Column { width_ratio: Number::Binary64Bits(0.5f64.to_bits()) });
    col.has_children = true;
    col.children = vec![block("d", Block::Divider)];
    let mut list = block("cl", Block::ColumnList);
    list.has_children = true;
    list.children = vec![col];
    let (_, comps) = chunk(&converter(false, false), &list);
    assert_eq!(ids(&comps), vec!["d", "col", "cl"]);
    match &comps[1] {
        Component::Column(c) => assert_eq!(c.width_ratio, Some(Number::Binary64Bits(0.5f64.to_bits()))),
        other => panic!("expected Column, got {other:?}"),
    }

    let mut table = block("tb", Block::Table { has_column_header: false, has_row_header: true });
    table.children = vec![block("r", Block::TableRow { cells: vec![vec![text("h")], vec![text("v")]] })];
    let (_, comps) = chunk(&converter(false, false), &table);
    assert_eq!(
        ids(&comps),
        vec!["r::cell/0::rich_text/0", "r::cell/0", "r::cell/1::rich_text/0", "r::cell/1", "r", "tb"]
    );
    match (&comps[1], &comps[3], &comps[5]) {
        (Component::TableCell(a), Component::TableCell(b), Component::Table(t)) => {
            assert_eq!(a.is_header, Some(true));
            assert_eq!(b.is_header, None);
            assert_eq!(t.header, None);
            assert_eq!(t.body, vec!["r".to_string()]);
            assert_eq!(t.has_row_header, Some(true));
        }
        other => panic!("unexpected components {other:?}"),
    }

    let mut tab = block("tab", Block::Tab);
    tab.has_children = true;
    tab.children = vec![
        block("t1", Block::Paragraph { rich_text: vec![text("One")], color: Color::Default }),
        block("x", Block::Divider),
    ];
    let (_, comps) = chunk(&converter(false, false), &tab);
    assert_eq!(ids(&comps), vec!["t1::label/0", "t1", "tab"]);
    match &comps[2] {
        Component::ContentTabs(ct) => assert_eq!(ct.children, vec!["t1".to_string()]),
        other => panic!("expected ContentTabs, got {other:?}"),
    }
}

#[test]
fn reads_children_follows_the_block() {
    let mut p = block("p", Block::Paragraph { rich_text: vec![], color: Color::Default });
    assert!(!p.reads_children(Position::Sibling));
    p.has_children = true;
    assert!(p.reads_children(Position::Sibling));
    assert!(p.reads_children(Position::TabChild));
    assert!(!p.reads_children(Position::TableChild));
    let t = block("t", Block::Table { has_column_header: true, has_row_header: false });
    assert!(t.reads_children(Position::Sibling));
    assert_eq!(t.children_position(), Position::TableChild);
    let mut d = block("d", Block::Divider);
    d.has_children = true;
    assert!(!d.reads_children(Position::Sibling));
}

#[test]
fn image_bodies_are_fetched_for_sibling_images_only() {
    let linked = LinkedFile { url: "https://i/b.png".to_string(), name: None, caption: None };
    let img = block("i", Block::Image { image: File::External(linked), fetched: None });
    assert_eq!(image_body_url(&img, Position::Sibling, true), Some("https://i/b.png".to_string()));
    assert_eq!(image_body_url(&img, Position::Sibling, false), None);
    assert_eq!(image_body_url(&img, Position::TabChild, true), None);
    let uploaded = block("u", Block::Image { image: File::ApiUploaded, fetched: None });
    assert_eq!(image_body_url(&uploaded, Position::Sibling, true), None);
    let p = block("p", Block::Divider);
    assert_eq!(image_body_url(&p, Position::Sibling, true), None);
}
