//! A converter for single blocks that handles paragraphs and headings only;
//! every other block becomes an `Unsupported` placeholder or is skipped.
//! The block's own component comes first, its runs after it.
use vstd::prelude::*;
use vstd::string::StringExecFns;

use crate::blocks::{spec_unsupported, spec_unsupported_label, unsupported_label};
use crate::catalog::{
    views, Component, ComponentView, Heading, HeadingLevel, HeadingView, Paragraph, ParagraphView,
    Unsupported,
};
use crate::common::{str_views, ChildList, ChildListView, ComponentId};
use crate::stream::{page_surface, spec_surface_entries};
use crate::surface::{entry_values, Surface};
use crate::message::{spec_create_surface, spec_update_components, Message, BLOCK_CATALOG_ID};
use crate::id::root_id;
use crate::notion::{Block, BlockResponse, RichText as NotionRichText};
use crate::rich_text::{convert_rich_texts, spec_run_components, spec_run_ids};

verus! {

/// The heading component of a heading block and its runs, heading first.
pub open spec fn spec_minimal_heading(id: Seq<char>, level: HeadingLevel, rich_text: Seq<NotionRichText>) -> Seq<ComponentView> {
    seq![
        ComponentView::Heading(
            HeadingView {
                id,
                accessibility: None,
                weight: None,
                level,
                children: ChildListView::Static(spec_run_ids(id, "rich_text"@, rich_text.len())),
            },
        ),
    ] + spec_run_components(id, "rich_text"@, rich_text)
}

/// The conversion of one block: its id and its components, or `None` when
/// the block is skipped.
pub open spec fn spec_convert_block(notion: BlockResponse, enable_unsupported_block: bool) -> Option<(Seq<char>, Seq<ComponentView>)> {
    let id = notion.id@;
    match notion.block {
        Block::Paragraph { rich_text, .. } => Some(
            (
                id,
                seq![
                    ComponentView::Paragraph(
                        ParagraphView {
                            id,
                            accessibility: None,
                            weight: None,
                            children: ChildListView::Static(
                                spec_run_ids(id, "rich_text"@, rich_text@.len()),
                            ),
                            color: None,
                            background_color: None,
                        },
                    ),
                ] + spec_run_components(id, "rich_text"@, rich_text@),
            ),
        ),
        Block::Heading1 { rich_text } => Some((id, spec_minimal_heading(id, HeadingLevel::H1, rich_text@))),
        Block::Heading2 { rich_text } => Some((id, spec_minimal_heading(id, HeadingLevel::H2, rich_text@))),
        Block::Heading3 { rich_text } => Some((id, spec_minimal_heading(id, HeadingLevel::H3, rich_text@))),
        Block::Heading4 { rich_text } => Some((id, spec_minimal_heading(id, HeadingLevel::H4, rich_text@))),
        _ => if enable_unsupported_block {
            Some((id, seq![spec_unsupported(id, spec_unsupported_label(notion.block))]))
        } else {
            None
        },
    }
}

/// The `Heading` of a heading block; its runs are appended to `bag`.
fn heading(id: &str, level: HeadingLevel, items: &[NotionRichText], bag: &mut Vec<Component>) -> (r: Component)
    ensures
        views(final(bag)@) == views(old(bag)@) + spec_run_components(id@, "rich_text"@, items@),
        r@ == spec_minimal_heading(id@, level, items@)[0],
{
    let (child_ids, children) = convert_rich_texts(id, "rich_text", items);
    let ghost before = bag@;
    let mut children = children;
    bag.append(&mut children);
    proof {
        assert(views(bag@) =~= views(before) + spec_run_components(id@, "rich_text"@, items@));
    }
    Component::Heading(
        Heading {
            id: String::from_str(id),
            accessibility: None,
            weight: None,
            level,
            children: ChildList::Static(child_ids),
        },
    )
}

/// Converts one block: its id and its components, the block's own component
/// first and its runs after it; `None` when the block is of an unknown kind
/// and unsupported blocks are disabled.
pub fn convert_block(notion: &BlockResponse, enable_unsupported_block: bool) -> (r: Option<(ComponentId, Vec<Component>)>)
    ensures
        match spec_convert_block(*notion, enable_unsupported_block) {
            Some((id, comps)) => r matches Some((rid, rcomps)) && rid@ == id && views(rcomps@) == comps,
            None => r is None,
        },
{
    let id = notion.id.clone();
    let mut bag: Vec<Component> = Vec::new();
    let component = match &notion.block {
        Block::Paragraph { rich_text, .. } => {
            let (child_ids, children) = convert_rich_texts(id.as_str(), "rich_text", rich_text.as_slice());
            bag = children;
            Component::Paragraph(
                Paragraph {
                    id: id.clone(),
                    accessibility: None,
                    weight: None,
                    children: ChildList::Static(child_ids),
                    color: None,
                    background_color: None,
                },
            )
        },
        Block::Heading1 { rich_text } => heading(id.as_str(), HeadingLevel::H1, rich_text.as_slice(), &mut bag),
        Block::Heading2 { rich_text } => heading(id.as_str(), HeadingLevel::H2, rich_text.as_slice(), &mut bag),
        Block::Heading3 { rich_text } => heading(id.as_str(), HeadingLevel::H3, rich_text.as_slice(), &mut bag),
        Block::Heading4 { rich_text } => heading(id.as_str(), HeadingLevel::H4, rich_text.as_slice(), &mut bag),
        _ => {
            if !enable_unsupported_block {
                return None;
            }
            Component::Unsupported(
                Unsupported {
                    id: id.clone(),
                    accessibility: None,
                    weight: None,
                    details: Some(unsupported_label(&notion.block)),
                },
            )
        },
    };
    let ghost before = bag@;
    bag.insert(0, component);
    proof {
        assert(bag@ =~= seq![component].add(before));
        assert(views(bag@) =~= seq![component@] + views(before));
        assert(views(Seq::<Component>::empty()) =~= Seq::<ComponentView>::empty());
    }
    Some((id, bag))
}

/// The conversion of sibling blocks, each on its own: the ids of the blocks
/// that are not skipped and all their components, in order.
pub open spec fn spec_convert_siblings(blocks: Seq<BlockResponse>, enable_unsupported_block: bool) -> (Seq<Seq<char>>, Seq<ComponentView>)
    decreases blocks.len(),
{
    if blocks.len() == 0 {
        (Seq::empty(), Seq::empty())
    } else {
        let prev = spec_convert_siblings(blocks.drop_last(), enable_unsupported_block);
        match spec_convert_block(blocks.last(), enable_unsupported_block) {
            Some((id, comps)) => (prev.0.push(id), prev.1 + comps),
            None => prev,
        }
    }
}

/// Converts sibling blocks one by one: the ids their parent references and
/// every component synthesized for them.
pub fn convert_children(blocks: &[BlockResponse], enable_unsupported_block: bool) -> (r: (Vec<ComponentId>, Vec<Component>))
    ensures
        str_views(r.0@) == spec_convert_siblings(blocks@, enable_unsupported_block).0,
        views(r.1@) == spec_convert_siblings(blocks@, enable_unsupported_block).1,
{
    let mut ids: Vec<ComponentId> = Vec::new();
    let mut bag: Vec<Component> = Vec::new();
    let n = blocks.len();
    let mut i: usize = 0;
    proof {
        assert(blocks@.take(0) =~= Seq::<BlockResponse>::empty());
        assert(str_views(ids@) =~= Seq::<Seq<char>>::empty());
        assert(views(bag@) =~= Seq::<ComponentView>::empty());
    }
    while i < n
        invariant
            n == blocks@.len(),
            i <= n,
            str_views(ids@) == spec_convert_siblings(blocks@.take(i as int), enable_unsupported_block).0,
            views(bag@) == spec_convert_siblings(blocks@.take(i as int), enable_unsupported_block).1,
        decreases n - i,
    {
        proof {
            assert(blocks@.take(i + 1).drop_last() =~= blocks@.take(i as int));
            assert(blocks@.take(i + 1).last() == blocks@[i as int]);
        }
        match convert_block(&blocks[i], enable_unsupported_block) {
            Some((id, comps)) => {
                let ghost ids0 = ids@;
                let ghost bag0 = bag@;
                let ghost c0 = comps@;
                ids.push(id);
                let mut comps = comps;
                bag.append(&mut comps);
                proof {
                    assert(str_views(ids@) =~= str_views(ids0).push(id@));
                    assert(views(bag@) =~= views(bag0) + views(c0));
                }
            },
            None => {},
        }
        i = i + 1;
    }
    proof {
        assert(blocks@.take(n as int) =~= blocks@);
    }
    (ids, bag)
}

/// Converts the children of a page into a surface: the root `Column`, with
/// id `root`, lists the ids of the blocks that are not skipped and goes
/// first; their components follow, each inserted under its id.
pub fn convert_to_surface(blocks: &[BlockResponse], enable_unsupported_block: bool) -> (r: Surface)
    ensures
        r@.root == root_id(),
        r@.components == spec_surface_entries(
            spec_convert_siblings(blocks@, enable_unsupported_block).0,
            spec_convert_siblings(blocks@, enable_unsupported_block).1,
        ),
{
    let (ids, components) = convert_children(blocks, enable_unsupported_block);
    page_surface(ids.as_slice(), components.as_slice())
}

/// Converts the children of a page into a surface and renders it as the
/// v0.9 message sequence bound to the block catalog: a `createSurface`, then
/// one `updateComponents` carrying every component of the surface in
/// insertion order.
pub fn convert_to_messages(blocks: &[BlockResponse], enable_unsupported_block: bool, surface_id: String) -> (r: Vec<Message>)
    ensures
        r@.len() == 2,
        r@[0]@ == spec_create_surface(surface_id@, BLOCK_CATALOG_ID@),
        r@[1]@ == spec_update_components(
            surface_id@,
            entry_values(
                spec_surface_entries(
                    spec_convert_siblings(blocks@, enable_unsupported_block).0,
                    spec_convert_siblings(blocks@, enable_unsupported_block).1,
                ),
            ),
        ),
{
    let surface = convert_to_surface(blocks, enable_unsupported_block);
    surface.to_messages(surface_id, String::from_str(BLOCK_CATALOG_ID))
}

} // verus!
