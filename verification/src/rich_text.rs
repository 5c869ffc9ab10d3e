//! Conversion of a Notion rich-text array into inline components.
//!
//! Each run becomes a `LinkText` when it has a link, an `Icon` when it is a
//! custom-emoji mention, and a `RichText` otherwise; equation runs carry their
//! LaTeX source with the `Katex` decoration.
use vstd::prelude::*;
use vstd::string::StringExecFns;

use crate::catalog::{
    views, Component, ComponentView, Decoration, Icon, IconView, LinkText, LinkTextView,
    RichText, RichTextView,
};
use crate::color::{map_color, spec_map_color};
use crate::common::{str_views, ComponentId, DynamicString, DynamicStringView};
use crate::id::{child_id, spec_child_id};
use crate::notion::{Mention, RichText as NotionRichText, RichTextAnnotations};

verus! {

/// The decorations of a run's annotations, in the order bold, italic,
/// underline, strikethrough, code.
pub open spec fn spec_decorations(a: RichTextAnnotations) -> Seq<Decoration> {
    (if a.bold { seq![Decoration::Bold] } else { Seq::empty() })
        + (if a.italic { seq![Decoration::Italic] } else { Seq::empty() })
        + (if a.underline { seq![Decoration::Underline] } else { Seq::empty() })
        + (if a.strikethrough { seq![Decoration::Strikethrough] } else { Seq::empty() })
        + (if a.code { seq![Decoration::Code] } else { Seq::empty() })
}

/// The component of a text, mention or equation run whose visible text is
/// `text`.
pub open spec fn spec_text_run(
    id: Seq<char>,
    text: Seq<char>,
    annotations: RichTextAnnotations,
    href: Option<String>,
    is_equation: bool,
) -> ComponentView {
    match href {
        Some(h) => ComponentView::LinkText(
            LinkTextView {
                id,
                accessibility: None,
                weight: None,
                text: DynamicStringView::Literal(text),
                href: h@,
                favicon: None,
            },
        ),
        None => {
            let d = spec_decorations(annotations) + (if is_equation {
                seq![Decoration::Katex]
            } else {
                Seq::empty()
            });
            ComponentView::RichText(
                RichTextView {
                    id,
                    accessibility: None,
                    weight: None,
                    text: DynamicStringView::Literal(text),
                    decoration: if d.len() == 0 { None } else { Some(d) },
                    ruby: None,
                    color: spec_map_color(annotations.color),
                },
            )
        },
    }
}

/// The component that one rich-text run becomes under id `id`.
pub open spec fn spec_convert_single(id: Seq<char>, item: NotionRichText) -> ComponentView {
    match item {
        NotionRichText::Mention { mention: Mention::CustomEmoji { name, url }, .. } =>
            ComponentView::Icon(
            IconView { id, accessibility: None, weight: None, src: url@, alt: Some(name@) },
        ),
        NotionRichText::Text { annotations, plain_text, href } => spec_text_run(
            id,
            plain_text@,
            annotations,
            href,
            false,
        ),
        NotionRichText::Mention { annotations, plain_text, href, .. } => spec_text_run(
            id,
            plain_text@,
            annotations,
            href,
            false,
        ),
        NotionRichText::Equation { expression, annotations, href, .. } => spec_text_run(
            id,
            expression@,
            annotations,
            href,
            true,
        ),
    }
}

/// The ids `<parent>::<slot>/0`, ..., `<parent>::<slot>/<n-1>`.
pub open spec fn spec_run_ids(parent: Seq<char>, slot: Seq<char>, n: nat) -> Seq<Seq<char>> {
    Seq::new(n, |i: int| spec_child_id(parent, slot, i as nat))
}

/// The components of the runs `items` under `parent` and `slot`, in order.
pub open spec fn spec_run_components(
    parent: Seq<char>,
    slot: Seq<char>,
    items: Seq<NotionRichText>,
) -> Seq<ComponentView> {
    Seq::new(items.len(), |i: int| spec_convert_single(spec_child_id(parent, slot, i as nat), items[i]))
}

/// The decorations of a run's annotations.
pub fn decorations_from(annotations: &RichTextAnnotations) -> (r: Vec<Decoration>)
    ensures
        r@ == spec_decorations(*annotations),
{
    let mut out = Vec::new();
    if annotations.bold {
        out.push(Decoration::Bold);
    }
    if annotations.italic {
        out.push(Decoration::Italic);
    }
    if annotations.underline {
        out.push(Decoration::Underline);
    }
    if annotations.strikethrough {
        out.push(Decoration::Strikethrough);
    }
    if annotations.code {
        out.push(Decoration::Code);
    }
    proof {
        assert(out@ =~= spec_decorations(*annotations));
    }
    out
}

fn text_run(
    id: &str,
    text: &String,
    annotations: &RichTextAnnotations,
    href: &Option<String>,
    is_equation: bool,
) -> (r: Component)
    ensures
        r@ == spec_text_run(id@, text@, *annotations, *href, is_equation),
{
    if let Some(h) = href {
        return Component::LinkText(
            LinkText {
                id: String::from_str(id),
                accessibility: None,
                weight: None,
                text: DynamicString::Literal(text.clone()),
                href: h.clone(),
                favicon: None,
            },
        );
    }
    let mut decoration = decorations_from(annotations);
    if is_equation {
        decoration.push(Decoration::Katex);
    }
    proof {
        assert(decoration@ =~= spec_decorations(*annotations) + (if is_equation {
            seq![Decoration::Katex]
        } else {
            Seq::empty()
        }));
    }
    let decoration = if decoration.len() == 0 {
        None
    } else {
        Some(decoration)
    };
    Component::RichText(
        RichText {
            id: String::from_str(id),
            accessibility: None,
            weight: None,
            text: DynamicString::Literal(text.clone()),
            decoration,
            ruby: None,
            color: map_color(annotations.color),
        },
    )
}

/// The component that one rich-text run becomes under id `id`.
pub fn convert_single(id: &str, item: &NotionRichText) -> (r: Component)
    ensures
        r@ == spec_convert_single(id@, *item),
{
    match item {
        NotionRichText::Mention { mention: Mention::CustomEmoji { name, url }, .. } => {
            Component::Icon(
                Icon {
                    id: String::from_str(id),
                    accessibility: None,
                    weight: None,
                    src: url.clone(),
                    alt: Some(name.clone()),
                },
            )
        },
        NotionRichText::Text { annotations, plain_text, href } => text_run(
            id,
            plain_text,
            annotations,
            href,
            false,
        ),
        NotionRichText::Mention { annotations, plain_text, href, .. } => text_run(
            id,
            plain_text,
            annotations,
            href,
            false,
        ),
        NotionRichText::Equation { expression, annotations, href, .. } => text_run(
            id,
            expression,
            annotations,
            href,
            true,
        ),
    }
}

/// Converts a rich-text array into inline components: returns the child ids
/// `<parent_id>::<slot>/<i>` in source order and the components they name.
pub fn convert_rich_texts(parent_id: &str, slot: &str, items: &[NotionRichText]) -> (r: (
    Vec<ComponentId>,
    Vec<Component>,
))
    ensures
        str_views(r.0@) == spec_run_ids(parent_id@, slot@, items@.len()),
        views(r.1@) == spec_run_components(parent_id@, slot@, items@),
{
    let mut ids: Vec<ComponentId> = Vec::new();
    let mut components: Vec<Component> = Vec::new();
    let n = items.len();
    let mut index: usize = 0;
    while index < n
        invariant
            n == items@.len(),
            index <= n,
            str_views(ids@) =~= spec_run_ids(parent_id@, slot@, index as nat),
            views(components@) =~= spec_run_components(parent_id@, slot@, items@.take(index as int)),
        decreases n - index,
    {
        let ghost old_ids = ids@;
        let ghost old_components = components@;
        let id = child_id(parent_id, slot, index);
        let c = convert_single(id.as_str(), &items[index]);
        components.push(c);
        ids.push(id);
        proof {
            assert(str_views(ids@) =~= str_views(old_ids).push(id@));
            assert(views(components@) =~= views(old_components).push(c@));
            assert(spec_run_ids(parent_id@, slot@, (index + 1) as nat) =~= spec_run_ids(
                parent_id@,
                slot@,
                index as nat,
            ).push(id@));
            assert(spec_run_components(parent_id@, slot@, items@.take(index + 1))
                =~= spec_run_components(parent_id@, slot@, items@.take(index as int)).push(c@));
        }
        index = index + 1;
    }
    proof {
        assert(items@.take(n as int) =~= items@);
    }
    (ids, components)
}

} // verus!
