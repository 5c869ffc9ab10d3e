//! The components of single Notion blocks and block parts whose conversion
//! reads no children: files, images, icons, code, equations and the labels
//! of unsupported blocks.
use vstd::prelude::*;
use vstd::string::StrSliceExecFns;
use vstd::string::StringExecFns;

use crate::catalog::{
    BlockImage, BlockImageView, CalloutType, CodeBlock, CodeBlockView, Component,
    ComponentView, File as FileComponent, FileView, Icon, IconView, Katex, KatexView, Mermaid,
    MermaidView, RichText, RichTextView, Unsupported, UnsupportedView,
};
use crate::common::{opt_str_view, DynamicString, DynamicStringView, Number};
use crate::notion::{
    Block, BlockResponse, EmojiAndIcon, File as NotionFile, Position, RichText as NotionRichText,
};

verus! {

/// The result of `imagesize::blob_size` on `data`: the width and height in
/// pixels, or `None` where the crate reports an error.
pub uninterp spec fn image_blob_size(data: Seq<u8>) -> Option<(usize, usize)>;

/// Calls `imagesize::blob_size`, which reads an image's dimensions from the
/// first bytes of its body. Its documentation states that it needs at least
/// twelve bytes and reports an error on anything shorter; which headers it
/// recognizes is named by `image_blob_size`, not stated.
#[verifier::external_body]
fn blob_size(data: &[u8]) -> (r: Option<(usize, usize)>)
    ensures
        r == image_blob_size(data@),
        data@.len() < 12 ==> r is None,
{
    match imagesize::blob_size(data) {
        Ok(size) => Some((size.width, size.height)),
        Err(_) => None,
    }
}

/// Whether two strings hold the same characters.
pub fn str_equal(a: &str, b: &str) -> (r: bool)
    ensures
        r == (a@ == b@),
{
    let n = a.unicode_len();
    if n != b.unicode_len() {
        return false;
    }
    let mut i: usize = 0;
    while i < n
        invariant
            n == a@.len(),
            n == b@.len(),
            i <= n,
            forall|j: int| 0 <= j < i ==> a@[j] == b@[j],
        decreases n - i,
    {
        if a.get_char(i) != b.get_char(i) {
            return false;
        }
        i = i + 1;
    }
    proof {
        assert(a@ =~= b@);
    }
    true
}

/// The visible text of a rich-text run.
pub open spec fn spec_rich_text_plain(rt: NotionRichText) -> Seq<char> {
    match rt {
        NotionRichText::Text { plain_text, .. } => plain_text@,
        NotionRichText::Mention { plain_text, .. } => plain_text@,
        NotionRichText::Equation { plain_text, .. } => plain_text@,
    }
}

/// The visible text of a rich-text array: its runs' texts, concatenated.
pub open spec fn spec_plain_concat(items: Seq<NotionRichText>) -> Seq<char>
    decreases items.len(),
{
    if items.len() == 0 {
        Seq::empty()
    } else {
        spec_plain_concat(items.drop_last()) + spec_rich_text_plain(items.last())
    }
}

/// The visible text of a rich-text run.
pub fn rich_text_plain(rt: &NotionRichText) -> (r: String)
    ensures
        r@ == spec_rich_text_plain(*rt),
{
    match rt {
        NotionRichText::Text { plain_text, .. } => plain_text.clone(),
        NotionRichText::Mention { plain_text, .. } => plain_text.clone(),
        NotionRichText::Equation { plain_text, .. } => plain_text.clone(),
    }
}

/// The visible text of a rich-text array.
pub fn plain_concat(items: &[NotionRichText]) -> (r: String)
    ensures
        r@ == spec_plain_concat(items@),
{
    let mut out = String::new();
    let n = items.len();
    let mut i: usize = 0;
    while i < n
        invariant
            n == items@.len(),
            i <= n,
            out@ == spec_plain_concat(items@.take(i as int)),
        decreases n - i,
    {
        let piece = rich_text_plain(&items[i]);
        out.append(piece.as_str());
        proof {
            assert(items@.take(i + 1).drop_last() =~= items@.take(i as int));
        }
        i = i + 1;
    }
    proof {
        assert(items@.take(n as int) =~= items@);
    }
    out
}

/// The URL of a file; `None` for a file uploaded through the API.
pub open spec fn spec_file_url(file: NotionFile) -> Option<Seq<char>> {
    match file {
        NotionFile::External(f) => Some(f.url@),
        NotionFile::NotionHosted(f) => Some(f.url@),
        NotionFile::ApiUploaded => None,
    }
}

/// The name of a file, where it has one.
pub open spec fn spec_file_name(file: NotionFile) -> Option<Seq<char>> {
    match file {
        NotionFile::External(f) => opt_str_view(f.name),
        NotionFile::NotionHosted(f) => opt_str_view(f.name),
        NotionFile::ApiUploaded => None,
    }
}

/// The caption of a file, where it has one.
pub open spec fn spec_file_caption(file: NotionFile) -> Option<Seq<NotionRichText>> {
    match file {
        NotionFile::External(f) => match f.caption {
            Some(c) => Some(c@),
            None => None,
        },
        NotionFile::NotionHosted(f) => match f.caption {
            Some(c) => Some(c@),
            None => None,
        },
        NotionFile::ApiUploaded => None,
    }
}

/// The URL of a file; `None` for a file uploaded through the API.
pub fn file_url(file: &NotionFile) -> (r: Option<String>)
    ensures
        opt_str_view(r) == spec_file_url(*file),
{
    match file {
        NotionFile::External(f) => Some(f.url.clone()),
        NotionFile::NotionHosted(f) => Some(f.url.clone()),
        NotionFile::ApiUploaded => None,
    }
}

/// The name of a file, where it has one.
pub fn file_name(file: &NotionFile) -> (r: Option<String>)
    ensures
        opt_str_view(r) == spec_file_name(*file),
{
    match file {
        NotionFile::External(f) => match &f.name {
            Some(n) => Some(n.clone()),
            None => None,
        },
        NotionFile::NotionHosted(f) => match &f.name {
            Some(n) => Some(n.clone()),
            None => None,
        },
        NotionFile::ApiUploaded => None,
    }
}

/// The caption of a file, where it has one.
pub fn file_caption(file: &NotionFile) -> (r: Option<&[NotionRichText]>)
    ensures
        match r {
            Some(c) => spec_file_caption(*file) == Some(c@),
            None => spec_file_caption(*file) is None,
        },
{
    match file {
        NotionFile::External(f) => match &f.caption {
            Some(c) => Some(c.as_slice()),
            None => None,
        },
        NotionFile::NotionHosted(f) => match &f.caption {
            Some(c) => Some(c.as_slice()),
            None => None,
        },
        NotionFile::ApiUploaded => None,
    }
}

/// The `Unsupported` placeholder with the given details.
pub open spec fn spec_unsupported(id: Seq<char>, details: Seq<char>) -> ComponentView {
    ComponentView::Unsupported(
        UnsupportedView { id, accessibility: None, weight: None, details: Some(details) },
    )
}

fn unsupported(id: &str, details: String) -> (r: Component)
    ensures
        r@ == spec_unsupported(id@, details@),
{
    Component::Unsupported(
        Unsupported {
            id: String::from_str(id),
            accessibility: None,
            weight: None,
            details: Some(details),
        },
    )
}

/// The component of a `file`, `pdf`, `audio` or `video` block: a `File`, or
/// an `Unsupported` placeholder when the file has no usable URL.
pub open spec fn spec_file_component(id: Seq<char>, file: NotionFile) -> ComponentView {
    match spec_file_url(file) {
        Some(src) => ComponentView::File(
            FileView { id, accessibility: None, weight: None, src, name: spec_file_name(file) },
        ),
        None => spec_unsupported(id, "file:api_uploaded"@),
    }
}

/// The component of a `file`, `pdf`, `audio` or `video` block.
pub fn file_component(id: &str, file: &NotionFile) -> (r: Component)
    ensures
        r@ == spec_file_component(id@, *file),
{
    match file_url(file) {
        Some(src) => Component::File(
            FileComponent {
                id: String::from_str(id),
                accessibility: None,
                weight: None,
                src,
                name: file_name(file),
            },
        ),
        None => unsupported(id, String::from_str("file:api_uploaded")),
    }
}

/// The dimensions of an image for the catalog: width and height in pixels.
pub open spec fn spec_dimension(d: Option<(usize, usize)>, width: bool) -> Option<Number> {
    match d {
        Some((w, h)) => Some(Number::Unsigned((if width { w } else { h }) as u64)),
        None => None,
    }
}

/// The component of an image block whose dimensions, where they were read,
/// are `dimensions`: a `BlockImage`, or an `Unsupported` placeholder when the
/// image has no usable URL.
pub open spec fn spec_image_component(
    id: Seq<char>,
    file: NotionFile,
    dimensions: Option<(usize, usize)>,
) -> ComponentView {
    match spec_file_url(file) {
        Some(src) => ComponentView::BlockImage(
            BlockImageView {
                id,
                accessibility: None,
                weight: None,
                src,
                alt: spec_file_name(file),
                width: spec_dimension(dimensions, true),
                height: spec_dimension(dimensions, false),
                srcset: None,
                sizes: None,
                caption: match spec_file_caption(file) {
                    Some(c) => Some(spec_plain_concat(c)),
                    None => None,
                },
            },
        ),
        None => spec_unsupported(id, "image:api_uploaded"@),
    }
}

/// The component of an image block whose dimensions, where they were read,
/// are `dimensions`.
pub fn image_component(id: &str, file: &NotionFile, dimensions: Option<(usize, usize)>) -> (r:
    Component)
    ensures
        r@ == spec_image_component(id@, *file, dimensions),
{
    let src = match file_url(file) {
        Some(src) => src,
        None => {
            return unsupported(id, String::from_str("image:api_uploaded"));
        },
    };
    let caption = match file_caption(file) {
        Some(c) => Some(plain_concat(c)),
        None => None,
    };
    let (width, height) = match dimensions {
        Some((w, h)) => (Some(Number::Unsigned(w as u64)), Some(Number::Unsigned(h as u64))),
        None => (None, None),
    };
    Component::BlockImage(
        BlockImage {
            id: String::from_str(id),
            accessibility: None,
            weight: None,
            src,
            alt: file_name(file),
            width,
            height,
            srcset: None,
            sizes: None,
            caption,
        },
    )
}

/// The dimensions that conversion reads for an image whose fetched body, if
/// any, is `fetched`: those that `imagesize` reports, when image metadata is
/// enabled and a body was fetched.
pub open spec fn spec_image_dimensions(enabled: bool, fetched: Option<Vec<u8>>) -> Option<(usize, usize)> {
    if enabled {
        match fetched {
            Some(body) => image_blob_size(body@),
            None => None,
        }
    } else {
        None
    }
}

/// The dimensions of an image whose fetched body, if any, is `fetched`;
/// `None` unless image metadata is enabled.
pub fn image_dimensions(enabled: bool, fetched: &Option<Vec<u8>>) -> (r: Option<(usize, usize)>)
    ensures
        r == spec_image_dimensions(enabled, *fetched),
{
    if enabled {
        match fetched {
            Some(body) => blob_size(body.as_slice()),
            None => None,
        }
    } else {
        None
    }
}

/// The URL whose body the builder of a tree fetches for `block`, standing at
/// `position`: that of an image converted among siblings, when image
/// metadata is enabled and the file has a URL.
pub open spec fn spec_image_body_url(block: BlockResponse, position: Position, enable_fetch_image_meta: bool) -> Option<Seq<char>> {
    match block.block {
        Block::Image { image, .. } => if enable_fetch_image_meta && position == Position::Sibling {
            spec_file_url(image)
        } else {
            None
        },
        _ => None,
    }
}

/// The URL whose body is to be fetched for `block` at `position`, so that
/// conversion can read the image's dimensions.
pub fn image_body_url(block: &BlockResponse, position: Position, enable_fetch_image_meta: bool) -> (r: Option<String>)
    ensures
        opt_str_view(r) == spec_image_body_url(*block, position, enable_fetch_image_meta),
{
    match &block.block {
        Block::Image { image, .. } => if enable_fetch_image_meta && position == Position::Sibling {
            file_url(image)
        } else {
            None
        },
        _ => None,
    }
}

/// The inline component that renders a callout's icon: a `RichText` holding
/// an emoji, an `Icon` for a custom emoji or a file with a URL; `None` for
/// Notion's built-in icons and for uploaded files.
pub open spec fn spec_inline_icon(id: Seq<char>, icon: EmojiAndIcon) -> Option<ComponentView> {
    match icon {
        EmojiAndIcon::Emoji(e) => Some(
            ComponentView::RichText(
                RichTextView {
                    id,
                    accessibility: None,
                    weight: None,
                    text: DynamicStringView::Literal(e@),
                    decoration: None,
                    ruby: None,
                    color: None,
                },
            ),
        ),
        EmojiAndIcon::CustomEmoji { name, url } => Some(
            ComponentView::Icon(
                IconView { id, accessibility: None, weight: None, src: url@, alt: Some(name@) },
            ),
        ),
        EmojiAndIcon::File(f) => match spec_file_url(f) {
            Some(src) => Some(
                ComponentView::Icon(
                    IconView { id, accessibility: None, weight: None, src, alt: spec_file_name(f) },
                ),
            ),
            None => None,
        },
        EmojiAndIcon::Icon => None,
    }
}

/// The inline component that renders a callout's icon.
pub fn inline_icon_component(id: &str, icon: &EmojiAndIcon) -> (r: Option<Component>)
    ensures
        match r {
            Some(c) => spec_inline_icon(id@, *icon) == Some(c@),
            None => spec_inline_icon(id@, *icon) is None,
        },
{
    match icon {
        EmojiAndIcon::Emoji(e) => Some(
            Component::RichText(
                RichText {
                    id: String::from_str(id),
                    accessibility: None,
                    weight: None,
                    text: DynamicString::Literal(e.clone()),
                    decoration: None,
                    ruby: None,
                    color: None,
                },
            ),
        ),
        EmojiAndIcon::CustomEmoji { name, url } => Some(
            Component::Icon(
                Icon {
                    id: String::from_str(id),
                    accessibility: None,
                    weight: None,
                    src: url.clone(),
                    alt: Some(name.clone()),
                },
            ),
        ),
        EmojiAndIcon::File(f) => match file_url(f) {
            Some(src) => Some(
                Component::Icon(
                    Icon {
                        id: String::from_str(id),
                        accessibility: None,
                        weight: None,
                        src,
                        alt: file_name(f),
                    },
                ),
            ),
            None => None,
        },
        EmojiAndIcon::Icon => None,
    }
}

/// The call-out type that a callout's emoji suggests; `None` for other
/// emojis and for icons that are not emojis.
pub open spec fn spec_callout_type(icon: Option<EmojiAndIcon>) -> Option<CalloutType> {
    match icon {
        Some(EmojiAndIcon::Emoji(e)) => {
            let e = e@;
            if e == "ℹ️"@ || e == "📝"@ || e == "🗒️"@ || e == "💡"@ {
                Some(CalloutType::Note)
            } else if e == "✅"@ || e == "✔️"@ || e == "🟢"@ {
                Some(CalloutType::Tip)
            } else if e == "⭐"@ || e == "❗"@ || e == "📌"@ {
                Some(CalloutType::Important)
            } else if e == "⚠️"@ || e == "🚧"@ || e == "🟡"@ {
                Some(CalloutType::Warning)
            } else if e == "🛑"@ || e == "❌"@ || e == "🔴"@ || e == "☠️"@ {
                Some(CalloutType::Caution)
            } else {
                None
            }
        },
        _ => None,
    }
}

/// The call-out type that a callout's emoji suggests.
pub fn callout_type_from_icon(icon: Option<&EmojiAndIcon>) -> (r: Option<CalloutType>)
    ensures
        r == spec_callout_type(
            match icon {
                Some(i) => Some(*i),
                None => None,
            },
        ),
{
    let e = match icon {
        Some(EmojiAndIcon::Emoji(e)) => e.as_str(),
        _ => {
            return None;
        },
    };
    if str_equal(e, "ℹ️") || str_equal(e, "📝") || str_equal(e, "🗒️") || str_equal(e, "💡") {
        Some(CalloutType::Note)
    } else if str_equal(e, "✅") || str_equal(e, "✔️") || str_equal(e, "🟢") {
        Some(CalloutType::Tip)
    } else if str_equal(e, "⭐") || str_equal(e, "❗") || str_equal(e, "📌") {
        Some(CalloutType::Important)
    } else if str_equal(e, "⚠️") || str_equal(e, "🚧") || str_equal(e, "🟡") {
        Some(CalloutType::Warning)
    } else if str_equal(e, "🛑") || str_equal(e, "❌") || str_equal(e, "🔴") || str_equal(e, "☠️") {
        Some(CalloutType::Caution)
    } else {
        None
    }
}

/// The component of an `equation` block.
pub open spec fn spec_katex(id: Seq<char>, expression: Seq<char>) -> ComponentView {
    ComponentView::Katex(KatexView { id, accessibility: None, weight: None, expression })
}

/// The component of an `equation` block.
pub fn katex(id: &str, expression: &String) -> (r: Component)
    ensures
        r@ == spec_katex(id@, expression@),
{
    Component::Katex(
        Katex {
            id: String::from_str(id),
            accessibility: None,
            weight: None,
            expression: expression.clone(),
        },
    )
}

/// The component of a `code` block: a `Mermaid` diagram for the `mermaid`
/// language, a `CodeBlock` otherwise, whose caption is present when the
/// block's caption is not empty.
pub open spec fn spec_code_component(
    id: Seq<char>,
    rich_text: Seq<NotionRichText>,
    caption: Seq<NotionRichText>,
    language: Seq<char>,
) -> ComponentView {
    if language == "mermaid"@ {
        ComponentView::Mermaid(
            MermaidView { id, accessibility: None, weight: None, code: spec_plain_concat(rich_text) },
        )
    } else {
        ComponentView::CodeBlock(
            CodeBlockView {
                id,
                accessibility: None,
                weight: None,
                code: spec_plain_concat(rich_text),
                language: Some(language),
                caption: if caption.len() == 0 {
                    None
                } else {
                    Some(spec_plain_concat(caption))
                },
            },
        )
    }
}

/// The component of a `code` block.
pub fn code_component(
    id: &str,
    rich_text: &Vec<NotionRichText>,
    caption: &Vec<NotionRichText>,
    language: &String,
) -> (r: Component)
    ensures
        r@ == spec_code_component(id@, rich_text@, caption@, language@),
{
    let body = plain_concat(rich_text.as_slice());
    let caption = if caption.len() == 0 {
        None
    } else {
        Some(plain_concat(caption.as_slice()))
    };
    if str_equal(language.as_str(), "mermaid") {
        Component::Mermaid(
            Mermaid { id: String::from_str(id), accessibility: None, weight: None, code: body },
        )
    } else {
        Component::CodeBlock(
            CodeBlock {
                id: String::from_str(id),
                accessibility: None,
                weight: None,
                code: body,
                language: Some(language.clone()),
                caption,
            },
        )
    }
}

/// The Notion type tag of a block, which an `Unsupported` placeholder
/// carries as its details; `unsupported:<type>` for blocks of a type that
/// Notion's API does not expose.
pub open spec fn spec_unsupported_label(block: Block) -> Seq<char> {
    match block {
        Block::Audio { .. } => "audio"@,
        Block::Bookmark { .. } => "bookmark"@,
        Block::Breadcrumb => "breadcrumb"@,
        Block::BulletedListItem { .. } => "bulleted_list_item"@,
        Block::Callout { .. } => "callout"@,
        Block::ChildDatabase { .. } => "child_database"@,
        Block::ChildPage { .. } => "child_page"@,
        Block::Code { .. } => "code"@,
        Block::ColumnList => "column_list"@,
        Block::Column { .. } => "column"@,
        Block::Divider => "divider"@,
        Block::Embed { .. } => "embed"@,
        Block::Equation { .. } => "equation"@,
        Block::File { .. } => "file"@,
        Block::Heading1 { .. } => "heading_1"@,
        Block::Heading2 { .. } => "heading_2"@,
        Block::Heading3 { .. } => "heading_3"@,
        Block::Heading4 { .. } => "heading_4"@,
        Block::Image { .. } => "image"@,
        Block::LinkPreview { .. } => "link_preview"@,
        Block::NumberedListItem { .. } => "numbered_list_item"@,
        Block::Paragraph { .. } => "paragraph"@,
        Block::Pdf { .. } => "pdf"@,
        Block::Quote { .. } => "quote"@,
        Block::SyncedBlock => "synced_block"@,
        Block::TableOfContents => "table_of_contents"@,
        Block::Tab => "tab"@,
        Block::Table { .. } => "table"@,
        Block::TableRow { .. } => "table_row"@,
        Block::Template => "template"@,
        Block::ToDo { .. } => "to_do"@,
        Block::Toggle { .. } => "toggle"@,
        Block::MeetingNotes => "meeting_notes"@,
        Block::Transcription => "transcription"@,
        Block::Video { .. } => "video"@,
        Block::Unsupported { block_type } => "unsupported:"@ + block_type@,
    }
}

/// The label that an `Unsupported` placeholder carries for `block`.
pub fn unsupported_label(block: &Block) -> (r: String)
    ensures
        r@ == spec_unsupported_label(*block),
{
    match block {
        Block::Audio { .. } => String::from_str("audio"),
        Block::Bookmark { .. } => String::from_str("bookmark"),
        Block::Breadcrumb => String::from_str("breadcrumb"),
        Block::BulletedListItem { .. } => String::from_str("bulleted_list_item"),
        Block::Callout { .. } => String::from_str("callout"),
        Block::ChildDatabase { .. } => String::from_str("child_database"),
        Block::ChildPage { .. } => String::from_str("child_page"),
        Block::Code { .. } => String::from_str("code"),
        Block::ColumnList => String::from_str("column_list"),
        Block::Column { .. } => String::from_str("column"),
        Block::Divider => String::from_str("divider"),
        Block::Embed { .. } => String::from_str("embed"),
        Block::Equation { .. } => String::from_str("equation"),
        Block::File { .. } => String::from_str("file"),
        Block::Heading1 { .. } => String::from_str("heading_1"),
        Block::Heading2 { .. } => String::from_str("heading_2"),
        Block::Heading3 { .. } => String::from_str("heading_3"),
        Block::Heading4 { .. } => String::from_str("heading_4"),
        Block::Image { .. } => String::from_str("image"),
        Block::LinkPreview { .. } => String::from_str("link_preview"),
        Block::NumberedListItem { .. } => String::from_str("numbered_list_item"),
        Block::Paragraph { .. } => String::from_str("paragraph"),
        Block::Pdf { .. } => String::from_str("pdf"),
        Block::Quote { .. } => String::from_str("quote"),
        Block::SyncedBlock => String::from_str("synced_block"),
        Block::TableOfContents => String::from_str("table_of_contents"),
        Block::Tab => String::from_str("tab"),
        Block::Table { .. } => String::from_str("table"),
        Block::TableRow { .. } => String::from_str("table_row"),
        Block::Template => String::from_str("template"),
        Block::ToDo { .. } => String::from_str("to_do"),
        Block::Toggle { .. } => String::from_str("toggle"),
        Block::MeetingNotes => String::from_str("meeting_notes"),
        Block::Transcription => String::from_str("transcription"),
        Block::Video { .. } => String::from_str("video"),
        Block::Unsupported { block_type } => {
            let mut s = String::from_str("unsupported:");
            s.append(block_type.as_str());
            s
        },
    }
}

} // verus!
