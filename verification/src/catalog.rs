//! The components of the Elmethis block catalog, and their views.
use vstd::prelude::*;
use vstd::string::StringExecFns;

use crate::common::{
    clone_opt_accessibility, clone_opt_string, clone_opt_strings, clone_strings,
    opt_accessibility_view, opt_str_view, opt_strs_view, str_views, AccessibilityAttributes,
    AccessibilityAttributesView, ChildList, ChildListView, ComponentId, DynamicString,
    DynamicStringView, Number,
};

verus! {

/// Inline text decorations.
#[derive(Debug, Clone, Copy, PartialEq, Eq, Structural)]
pub enum Decoration {
    Bold,
    Italic,
    Underline,
    Strikethrough,
    Code,
    Katex,
}

/// Main-axis distribution of a layout container's children.
#[derive(Debug, Clone, Copy, PartialEq, Eq, Structural)]
pub enum Justify {
    Start,
    End,
    Center,
    SpaceBetween,
    SpaceAround,
    SpaceEvenly,
    Stretch,
}

/// Cross-axis alignment of a layout container's children.
#[derive(Debug, Clone, Copy, PartialEq, Eq, Structural)]
pub enum Align {
    Start,
    End,
    Center,
    Stretch,
}

/// Whether a list is numbered.
#[derive(Debug, Clone, Copy, PartialEq, Eq, Structural)]
pub enum ListStyle {
    Unordered,
    Ordered,
}

/// The kind of a call-out.
#[derive(Debug, Clone, Copy, PartialEq, Eq, Structural)]
pub enum CalloutType {
    Note,
    Tip,
    Important,
    Warning,
    Caution,
}

/// A heading level, one to six; it travels as that number.
#[derive(Debug, Clone, Copy, Default, PartialEq, Eq, Structural)]
pub enum HeadingLevel {
    #[default]
    H1,
    H2,
    H3,
    H4,
    H5,
    H6,
}

pub open spec fn opt_decorations_view(o: Option<Vec<Decoration>>) -> Option<Seq<Decoration>> {
    match o {
        Some(v) => Some(v@),
        None => None,
    }
}
/// An inline run of text.
#[derive(Debug, Default, PartialEq)]
pub struct RichText {
    pub id: ComponentId,
    pub accessibility: Option<AccessibilityAttributes>,
    pub weight: Option<Number>,
    pub text: DynamicString,
    pub decoration: Option<Vec<Decoration>>,
    pub ruby: Option<String>,
    pub color: Option<String>,
}

pub struct RichTextView {
    pub id: Seq<char>,
    pub accessibility: Option<AccessibilityAttributesView>,
    pub weight: Option<Number>,
    pub text: DynamicStringView,
    pub decoration: Option<Seq<Decoration>>,
    pub ruby: Option<Seq<char>>,
    pub color: Option<Seq<char>>,
}

impl View for RichText {
    type V = RichTextView;

    open spec fn view(&self) -> RichTextView {
        RichTextView {
            id: self.id@,
            accessibility: opt_accessibility_view(self.accessibility),
            weight: self.weight,
            text: self.text@,
            decoration: opt_decorations_view(self.decoration),
            ruby: opt_str_view(self.ruby),
            color: opt_str_view(self.color),
        }
    }
}

/// An inline hyperlink.
#[derive(Debug, Default, PartialEq)]
pub struct LinkText {
    pub id: ComponentId,
    pub accessibility: Option<AccessibilityAttributes>,
    pub weight: Option<Number>,
    pub text: DynamicString,
    pub href: String,
    pub favicon: Option<String>,
}

pub struct LinkTextView {
    pub id: Seq<char>,
    pub accessibility: Option<AccessibilityAttributesView>,
    pub weight: Option<Number>,
    pub text: DynamicStringView,
    pub href: Seq<char>,
    pub favicon: Option<Seq<char>>,
}

impl View for LinkText {
    type V = LinkTextView;

    open spec fn view(&self) -> LinkTextView {
        LinkTextView {
            id: self.id@,
            accessibility: opt_accessibility_view(self.accessibility),
            weight: self.weight,
            text: self.text@,
            href: self.href@,
            favicon: opt_str_view(self.favicon),
        }
    }
}

/// An inline image, such as a custom emoji.
#[derive(Debug, Default, PartialEq)]
pub struct Icon {
    pub id: ComponentId,
    pub accessibility: Option<AccessibilityAttributes>,
    pub weight: Option<Number>,
    pub src: String,
    pub alt: Option<String>,
}

pub struct IconView {
    pub id: Seq<char>,
    pub accessibility: Option<AccessibilityAttributesView>,
    pub weight: Option<Number>,
    pub src: Seq<char>,
    pub alt: Option<Seq<char>>,
}

impl View for Icon {
    type V = IconView;

    open spec fn view(&self) -> IconView {
        IconView {
            id: self.id@,
            accessibility: opt_accessibility_view(self.accessibility),
            weight: self.weight,
            src: self.src@,
            alt: opt_str_view(self.alt),
        }
    }
}

/// A horizontal layout container.
#[derive(Debug, Default, PartialEq)]
pub struct Row {
    pub id: ComponentId,
    pub accessibility: Option<AccessibilityAttributes>,
    pub weight: Option<Number>,
    pub children: ChildList,
    pub justify: Option<Justify>,
    pub align: Option<Align>,
}

pub struct RowView {
    pub id: Seq<char>,
    pub accessibility: Option<AccessibilityAttributesView>,
    pub weight: Option<Number>,
    pub children: ChildListView,
    pub justify: Option<Justify>,
    pub align: Option<Align>,
}

impl View for Row {
    type V = RowView;

    open spec fn view(&self) -> RowView {
        RowView {
            id: self.id@,
            accessibility: opt_accessibility_view(self.accessibility),
            weight: self.weight,
            children: self.children@,
            justify: self.justify,
            align: self.align,
        }
    }
}

/// A vertical layout container.
#[derive(Debug, Default, PartialEq)]
pub struct Column {
    pub id: ComponentId,
    pub accessibility: Option<AccessibilityAttributes>,
    pub weight: Option<Number>,
    pub children: ChildList,
    pub justify: Option<Justify>,
    pub align: Option<Align>,
    pub width_ratio: Option<Number>,
}

pub struct ColumnView {
    pub id: Seq<char>,
    pub accessibility: Option<AccessibilityAttributesView>,
    pub weight: Option<Number>,
    pub children: ChildListView,
    pub justify: Option<Justify>,
    pub align: Option<Align>,
    pub width_ratio: Option<Number>,
}

impl View for Column {
    type V = ColumnView;

    open spec fn view(&self) -> ColumnView {
        ColumnView {
            id: self.id@,
            accessibility: opt_accessibility_view(self.accessibility),
            weight: self.weight,
            children: self.children@,
            justify: self.justify,
            align: self.align,
            width_ratio: self.width_ratio,
        }
    }
}

/// A group of side-by-side columns.
#[derive(Debug, Default, PartialEq)]
pub struct ColumnList {
    pub id: ComponentId,
    pub accessibility: Option<AccessibilityAttributes>,
    pub weight: Option<Number>,
    pub children: Vec<ComponentId>,
}

pub struct ColumnListView {
    pub id: Seq<char>,
    pub accessibility: Option<AccessibilityAttributesView>,
    pub weight: Option<Number>,
    pub children: Seq<Seq<char>>,
}

impl View for ColumnList {
    type V = ColumnListView;

    open spec fn view(&self) -> ColumnListView {
        ColumnListView {
            id: self.id@,
            accessibility: opt_accessibility_view(self.accessibility),
            weight: self.weight,
            children: str_views(self.children@),
        }
    }
}

/// A section heading.
#[derive(Debug, Default, PartialEq)]
pub struct Heading {
    pub id: ComponentId,
    pub accessibility: Option<AccessibilityAttributes>,
    pub weight: Option<Number>,
    pub level: HeadingLevel,
    pub children: ChildList,
}

pub struct HeadingView {
    pub id: Seq<char>,
    pub accessibility: Option<AccessibilityAttributesView>,
    pub weight: Option<Number>,
    pub level: HeadingLevel,
    pub children: ChildListView,
}

impl View for Heading {
    type V = HeadingView;

    open spec fn view(&self) -> HeadingView {
        HeadingView {
            id: self.id@,
            accessibility: opt_accessibility_view(self.accessibility),
            weight: self.weight,
            level: self.level,
            children: self.children@,
        }
    }
}

/// A paragraph of inline content.
#[derive(Debug, Default, PartialEq)]
pub struct Paragraph {
    pub id: ComponentId,
    pub accessibility: Option<AccessibilityAttributes>,
    pub weight: Option<Number>,
    pub children: ChildList,
    pub color: Option<String>,
    pub background_color: Option<String>,
}

pub struct ParagraphView {
    pub id: Seq<char>,
    pub accessibility: Option<AccessibilityAttributesView>,
    pub weight: Option<Number>,
    pub children: ChildListView,
    pub color: Option<Seq<char>>,
    pub background_color: Option<Seq<char>>,
}

impl View for Paragraph {
    type V = ParagraphView;

    open spec fn view(&self) -> ParagraphView {
        ParagraphView {
            id: self.id@,
            accessibility: opt_accessibility_view(self.accessibility),
            weight: self.weight,
            children: self.children@,
            color: opt_str_view(self.color),
            background_color: opt_str_view(self.background_color),
        }
    }
}

/// An ordered or unordered list.
#[derive(Debug, Default, PartialEq)]
pub struct List {
    pub id: ComponentId,
    pub accessibility: Option<AccessibilityAttributes>,
    pub weight: Option<Number>,
    pub children: Vec<ComponentId>,
    pub style: Option<ListStyle>,
}

pub struct ListView {
    pub id: Seq<char>,
    pub accessibility: Option<AccessibilityAttributesView>,
    pub weight: Option<Number>,
    pub children: Seq<Seq<char>>,
    pub style: Option<ListStyle>,
}

impl View for List {
    type V = ListView;

    open spec fn view(&self) -> ListView {
        ListView {
            id: self.id@,
            accessibility: opt_accessibility_view(self.accessibility),
            weight: self.weight,
            children: str_views(self.children@),
            style: self.style,
        }
    }
}

/// One item of a list.
#[derive(Debug, Default, PartialEq)]
pub struct ListItem {
    pub id: ComponentId,
    pub accessibility: Option<AccessibilityAttributes>,
    pub weight: Option<Number>,
    pub children: Vec<ComponentId>,
}

pub struct ListItemView {
    pub id: Seq<char>,
    pub accessibility: Option<AccessibilityAttributesView>,
    pub weight: Option<Number>,
    pub children: Seq<Seq<char>>,
}

impl View for ListItem {
    type V = ListItemView;

    open spec fn view(&self) -> ListItemView {
        ListItemView {
            id: self.id@,
            accessibility: opt_accessibility_view(self.accessibility),
            weight: self.weight,
            children: str_views(self.children@),
        }
    }
}

/// A quotation block.
#[derive(Debug, Default, PartialEq)]
pub struct BlockQuote {
    pub id: ComponentId,
    pub accessibility: Option<AccessibilityAttributes>,
    pub weight: Option<Number>,
    pub children: ChildList,
    pub cite: Option<String>,
}

pub struct BlockQuoteView {
    pub id: Seq<char>,
    pub accessibility: Option<AccessibilityAttributesView>,
    pub weight: Option<Number>,
    pub children: ChildListView,
    pub cite: Option<Seq<char>>,
}

impl View for BlockQuote {
    type V = BlockQuoteView;

    open spec fn view(&self) -> BlockQuoteView {
        BlockQuoteView {
            id: self.id@,
            accessibility: opt_accessibility_view(self.accessibility),
            weight: self.weight,
            children: self.children@,
            cite: opt_str_view(self.cite),
        }
    }
}

/// A highlighted call-out block.
#[derive(Debug, Default, PartialEq)]
pub struct Callout {
    pub id: ComponentId,
    pub accessibility: Option<AccessibilityAttributes>,
    pub weight: Option<Number>,
    pub children: ChildList,
    pub callout_type: Option<CalloutType>,
}

pub struct CalloutView {
    pub id: Seq<char>,
    pub accessibility: Option<AccessibilityAttributesView>,
    pub weight: Option<Number>,
    pub children: ChildListView,
    pub callout_type: Option<CalloutType>,
}

impl View for Callout {
    type V = CalloutView;

    open spec fn view(&self) -> CalloutView {
        CalloutView {
            id: self.id@,
            accessibility: opt_accessibility_view(self.accessibility),
            weight: self.weight,
            children: self.children@,
            callout_type: self.callout_type,
        }
    }
}

/// A horizontal rule.
#[derive(Debug, Default, PartialEq)]
pub struct Divider {
    pub id: ComponentId,
    pub accessibility: Option<AccessibilityAttributes>,
    pub weight: Option<Number>,
}

pub struct DividerView {
    pub id: Seq<char>,
    pub accessibility: Option<AccessibilityAttributesView>,
    pub weight: Option<Number>,
}

impl View for Divider {
    type V = DividerView;

    open spec fn view(&self) -> DividerView {
        DividerView {
            id: self.id@,
            accessibility: opt_accessibility_view(self.accessibility),
            weight: self.weight,
        }
    }
}

/// A collapsible block with a summary line.
#[derive(Debug, Default, PartialEq)]
pub struct Toggle {
    pub id: ComponentId,
    pub accessibility: Option<AccessibilityAttributes>,
    pub weight: Option<Number>,
    pub summary: ChildList,
    pub children: ChildList,
}

pub struct ToggleView {
    pub id: Seq<char>,
    pub accessibility: Option<AccessibilityAttributesView>,
    pub weight: Option<Number>,
    pub summary: ChildListView,
    pub children: ChildListView,
}

impl View for Toggle {
    type V = ToggleView;

    open spec fn view(&self) -> ToggleView {
        ToggleView {
            id: self.id@,
            accessibility: opt_accessibility_view(self.accessibility),
            weight: self.weight,
            summary: self.summary@,
            children: self.children@,
        }
    }
}

/// A link preview card.
#[derive(Debug, Default, PartialEq)]
pub struct Bookmark {
    pub id: ComponentId,
    pub accessibility: Option<AccessibilityAttributes>,
    pub weight: Option<Number>,
    pub url: String,
    pub title: Option<String>,
    pub description: Option<String>,
    pub image: Option<String>,
}

pub struct BookmarkView {
    pub id: Seq<char>,
    pub accessibility: Option<AccessibilityAttributesView>,
    pub weight: Option<Number>,
    pub url: Seq<char>,
    pub title: Option<Seq<char>>,
    pub description: Option<Seq<char>>,
    pub image: Option<Seq<char>>,
}

impl View for Bookmark {
    type V = BookmarkView;

    open spec fn view(&self) -> BookmarkView {
        BookmarkView {
            id: self.id@,
            accessibility: opt_accessibility_view(self.accessibility),
            weight: self.weight,
            url: self.url@,
            title: opt_str_view(self.title),
            description: opt_str_view(self.description),
            image: opt_str_view(self.image),
        }
    }
}

/// A downloadable file.
#[derive(Debug, Default, PartialEq)]
pub struct File {
    pub id: ComponentId,
    pub accessibility: Option<AccessibilityAttributes>,
    pub weight: Option<Number>,
    pub src: String,
    pub name: Option<String>,
}

pub struct FileView {
    pub id: Seq<char>,
    pub accessibility: Option<AccessibilityAttributesView>,
    pub weight: Option<Number>,
    pub src: Seq<char>,
    pub name: Option<Seq<char>>,
}

impl View for File {
    type V = FileView;

    open spec fn view(&self) -> FileView {
        FileView {
            id: self.id@,
            accessibility: opt_accessibility_view(self.accessibility),
            weight: self.weight,
            src: self.src@,
            name: opt_str_view(self.name),
        }
    }
}

/// A block-level image.
#[derive(Debug, Default, PartialEq)]
pub struct BlockImage {
    pub id: ComponentId,
    pub accessibility: Option<AccessibilityAttributes>,
    pub weight: Option<Number>,
    pub src: String,
    pub alt: Option<String>,
    pub width: Option<Number>,
    pub height: Option<Number>,
    pub srcset: Option<String>,
    pub sizes: Option<String>,
    pub caption: Option<String>,
}

pub struct BlockImageView {
    pub id: Seq<char>,
    pub accessibility: Option<AccessibilityAttributesView>,
    pub weight: Option<Number>,
    pub src: Seq<char>,
    pub alt: Option<Seq<char>>,
    pub width: Option<Number>,
    pub height: Option<Number>,
    pub srcset: Option<Seq<char>>,
    pub sizes: Option<Seq<char>>,
    pub caption: Option<Seq<char>>,
}

impl View for BlockImage {
    type V = BlockImageView;

    open spec fn view(&self) -> BlockImageView {
        BlockImageView {
            id: self.id@,
            accessibility: opt_accessibility_view(self.accessibility),
            weight: self.weight,
            src: self.src@,
            alt: opt_str_view(self.alt),
            width: self.width,
            height: self.height,
            srcset: opt_str_view(self.srcset),
            sizes: opt_str_view(self.sizes),
            caption: opt_str_view(self.caption),
        }
    }
}

/// A block of source code.
#[derive(Debug, Default, PartialEq)]
pub struct CodeBlock {
    pub id: ComponentId,
    pub accessibility: Option<AccessibilityAttributes>,
    pub weight: Option<Number>,
    pub code: String,
    pub language: Option<String>,
    pub caption: Option<String>,
}

pub struct CodeBlockView {
    pub id: Seq<char>,
    pub accessibility: Option<AccessibilityAttributesView>,
    pub weight: Option<Number>,
    pub code: Seq<char>,
    pub language: Option<Seq<char>>,
    pub caption: Option<Seq<char>>,
}

impl View for CodeBlock {
    type V = CodeBlockView;

    open spec fn view(&self) -> CodeBlockView {
        CodeBlockView {
            id: self.id@,
            accessibility: opt_accessibility_view(self.accessibility),
            weight: self.weight,
            code: self.code@,
            language: opt_str_view(self.language),
            caption: opt_str_view(self.caption),
        }
    }
}

/// A block-level LaTeX expression.
#[derive(Debug, Default, PartialEq)]
pub struct Katex {
    pub id: ComponentId,
    pub accessibility: Option<AccessibilityAttributes>,
    pub weight: Option<Number>,
    pub expression: String,
}

pub struct KatexView {
    pub id: Seq<char>,
    pub accessibility: Option<AccessibilityAttributesView>,
    pub weight: Option<Number>,
    pub expression: Seq<char>,
}

impl View for Katex {
    type V = KatexView;

    open spec fn view(&self) -> KatexView {
        KatexView {
            id: self.id@,
            accessibility: opt_accessibility_view(self.accessibility),
            weight: self.weight,
            expression: self.expression@,
        }
    }
}

/// A Mermaid diagram.
#[derive(Debug, Default, PartialEq)]
pub struct Mermaid {
    pub id: ComponentId,
    pub accessibility: Option<AccessibilityAttributes>,
    pub weight: Option<Number>,
    pub code: String,
}

pub struct MermaidView {
    pub id: Seq<char>,
    pub accessibility: Option<AccessibilityAttributesView>,
    pub weight: Option<Number>,
    pub code: Seq<char>,
}

impl View for Mermaid {
    type V = MermaidView;

    open spec fn view(&self) -> MermaidView {
        MermaidView {
            id: self.id@,
            accessibility: opt_accessibility_view(self.accessibility),
            weight: self.weight,
            code: self.code@,
        }
    }
}

/// One tab of a tab set: its button label and its panel content.
#[derive(Debug, Default, PartialEq)]
pub struct ContentTab {
    pub id: ComponentId,
    pub accessibility: Option<AccessibilityAttributes>,
    pub weight: Option<Number>,
    pub label: ChildList,
    pub content: ChildList,
}

pub struct ContentTabView {
    pub id: Seq<char>,
    pub accessibility: Option<AccessibilityAttributesView>,
    pub weight: Option<Number>,
    pub label: ChildListView,
    pub content: ChildListView,
}

impl View for ContentTab {
    type V = ContentTabView;

    open spec fn view(&self) -> ContentTabView {
        ContentTabView {
            id: self.id@,
            accessibility: opt_accessibility_view(self.accessibility),
            weight: self.weight,
            label: self.label@,
            content: self.content@,
        }
    }
}

/// A set of tabs.
#[derive(Debug, Default, PartialEq)]
pub struct ContentTabs {
    pub id: ComponentId,
    pub accessibility: Option<AccessibilityAttributes>,
    pub weight: Option<Number>,
    pub children: Vec<ComponentId>,
}

pub struct ContentTabsView {
    pub id: Seq<char>,
    pub accessibility: Option<AccessibilityAttributesView>,
    pub weight: Option<Number>,
    pub children: Seq<Seq<char>>,
}

impl View for ContentTabs {
    type V = ContentTabsView;

    open spec fn view(&self) -> ContentTabsView {
        ContentTabsView {
            id: self.id@,
            accessibility: opt_accessibility_view(self.accessibility),
            weight: self.weight,
            children: str_views(self.children@),
        }
    }
}

/// A table.
#[derive(Debug, Default, PartialEq)]
pub struct Table {
    pub id: ComponentId,
    pub accessibility: Option<AccessibilityAttributes>,
    pub weight: Option<Number>,
    pub body: Vec<ComponentId>,
    pub header: Option<Vec<ComponentId>>,
    pub caption: Option<String>,
    pub has_column_header: Option<bool>,
    pub has_row_header: Option<bool>,
}

pub struct TableView {
    pub id: Seq<char>,
    pub accessibility: Option<AccessibilityAttributesView>,
    pub weight: Option<Number>,
    pub body: Seq<Seq<char>>,
    pub header: Option<Seq<Seq<char>>>,
    pub caption: Option<Seq<char>>,
    pub has_column_header: Option<bool>,
    pub has_row_header: Option<bool>,
}

impl View for Table {
    type V = TableView;

    open spec fn view(&self) -> TableView {
        TableView {
            id: self.id@,
            accessibility: opt_accessibility_view(self.accessibility),
            weight: self.weight,
            body: str_views(self.body@),
            header: opt_strs_view(self.header),
            caption: opt_str_view(self.caption),
            has_column_header: self.has_column_header,
            has_row_header: self.has_row_header,
        }
    }
}

/// One row of a table.
#[derive(Debug, Default, PartialEq)]
pub struct TableRow {
    pub id: ComponentId,
    pub accessibility: Option<AccessibilityAttributes>,
    pub weight: Option<Number>,
    pub children: Vec<ComponentId>,
}

pub struct TableRowView {
    pub id: Seq<char>,
    pub accessibility: Option<AccessibilityAttributesView>,
    pub weight: Option<Number>,
    pub children: Seq<Seq<char>>,
}

impl View for TableRow {
    type V = TableRowView;

    open spec fn view(&self) -> TableRowView {
        TableRowView {
            id: self.id@,
            accessibility: opt_accessibility_view(self.accessibility),
            weight: self.weight,
            children: str_views(self.children@),
        }
    }
}

/// One cell of a table row.
#[derive(Debug, Default, PartialEq)]
pub struct TableCell {
    pub id: ComponentId,
    pub accessibility: Option<AccessibilityAttributes>,
    pub weight: Option<Number>,
    pub children: Vec<ComponentId>,
    pub is_header: Option<bool>,
}

pub struct TableCellView {
    pub id: Seq<char>,
    pub accessibility: Option<AccessibilityAttributesView>,
    pub weight: Option<Number>,
    pub children: Seq<Seq<char>>,
    pub is_header: Option<bool>,
}

impl View for TableCell {
    type V = TableCellView;

    open spec fn view(&self) -> TableCellView {
        TableCellView {
            id: self.id@,
            accessibility: opt_accessibility_view(self.accessibility),
            weight: self.weight,
            children: str_views(self.children@),
            is_header: self.is_header,
        }
    }
}

/// A placeholder for content the catalog cannot render.
#[derive(Debug, Default, PartialEq)]
pub struct Unsupported {
    pub id: ComponentId,
    pub accessibility: Option<AccessibilityAttributes>,
    pub weight: Option<Number>,
    pub details: Option<String>,
}

pub struct UnsupportedView {
    pub id: Seq<char>,
    pub accessibility: Option<AccessibilityAttributesView>,
    pub weight: Option<Number>,
    pub details: Option<Seq<char>>,
}

impl View for Unsupported {
    type V = UnsupportedView;

    open spec fn view(&self) -> UnsupportedView {
        UnsupportedView {
            id: self.id@,
            accessibility: opt_accessibility_view(self.accessibility),
            weight: self.weight,
            details: opt_str_view(self.details),
        }
    }
}

/// Every component of the catalog; the discriminator travels as `component`.
#[derive(Debug, PartialEq)]
pub enum Component {
    RichText(RichText),
    LinkText(LinkText),
    Icon(Icon),
    Row(Row),
    Column(Column),
    ColumnList(ColumnList),
    Heading(Heading),
    Paragraph(Paragraph),
    List(List),
    ListItem(ListItem),
    BlockQuote(BlockQuote),
    Callout(Callout),
    Divider(Divider),
    Toggle(Toggle),
    Bookmark(Bookmark),
    File(File),
    BlockImage(BlockImage),
    CodeBlock(CodeBlock),
    Katex(Katex),
    Mermaid(Mermaid),
    ContentTab(ContentTab),
    ContentTabs(ContentTabs),
    Table(Table),
    TableRow(TableRow),
    TableCell(TableCell),
    Unsupported(Unsupported),
}

pub enum ComponentView {
    RichText(RichTextView),
    LinkText(LinkTextView),
    Icon(IconView),
    Row(RowView),
    Column(ColumnView),
    ColumnList(ColumnListView),
    Heading(HeadingView),
    Paragraph(ParagraphView),
    List(ListView),
    ListItem(ListItemView),
    BlockQuote(BlockQuoteView),
    Callout(CalloutView),
    Divider(DividerView),
    Toggle(ToggleView),
    Bookmark(BookmarkView),
    File(FileView),
    BlockImage(BlockImageView),
    CodeBlock(CodeBlockView),
    Katex(KatexView),
    Mermaid(MermaidView),
    ContentTab(ContentTabView),
    ContentTabs(ContentTabsView),
    Table(TableView),
    TableRow(TableRowView),
    TableCell(TableCellView),
    Unsupported(UnsupportedView),
}

impl ComponentView {
    /// The component's id.
    pub open spec fn id(self) -> Seq<char> {
        match self {
            ComponentView::RichText(c) => c.id,
            ComponentView::LinkText(c) => c.id,
            ComponentView::Icon(c) => c.id,
            ComponentView::Row(c) => c.id,
            ComponentView::Column(c) => c.id,
            ComponentView::ColumnList(c) => c.id,
            ComponentView::Heading(c) => c.id,
            ComponentView::Paragraph(c) => c.id,
            ComponentView::List(c) => c.id,
            ComponentView::ListItem(c) => c.id,
            ComponentView::BlockQuote(c) => c.id,
            ComponentView::Callout(c) => c.id,
            ComponentView::Divider(c) => c.id,
            ComponentView::Toggle(c) => c.id,
            ComponentView::Bookmark(c) => c.id,
            ComponentView::File(c) => c.id,
            ComponentView::BlockImage(c) => c.id,
            ComponentView::CodeBlock(c) => c.id,
            ComponentView::Katex(c) => c.id,
            ComponentView::Mermaid(c) => c.id,
            ComponentView::ContentTab(c) => c.id,
            ComponentView::ContentTabs(c) => c.id,
            ComponentView::Table(c) => c.id,
            ComponentView::TableRow(c) => c.id,
            ComponentView::TableCell(c) => c.id,
            ComponentView::Unsupported(c) => c.id,
        }
    }
}

impl View for Component {
    type V = ComponentView;

    open spec fn view(&self) -> ComponentView {
        match self {
            Component::RichText(c) => ComponentView::RichText(c@),
            Component::LinkText(c) => ComponentView::LinkText(c@),
            Component::Icon(c) => ComponentView::Icon(c@),
            Component::Row(c) => ComponentView::Row(c@),
            Component::Column(c) => ComponentView::Column(c@),
            Component::ColumnList(c) => ComponentView::ColumnList(c@),
            Component::Heading(c) => ComponentView::Heading(c@),
            Component::Paragraph(c) => ComponentView::Paragraph(c@),
            Component::List(c) => ComponentView::List(c@),
            Component::ListItem(c) => ComponentView::ListItem(c@),
            Component::BlockQuote(c) => ComponentView::BlockQuote(c@),
            Component::Callout(c) => ComponentView::Callout(c@),
            Component::Divider(c) => ComponentView::Divider(c@),
            Component::Toggle(c) => ComponentView::Toggle(c@),
            Component::Bookmark(c) => ComponentView::Bookmark(c@),
            Component::File(c) => ComponentView::File(c@),
            Component::BlockImage(c) => ComponentView::BlockImage(c@),
            Component::CodeBlock(c) => ComponentView::CodeBlock(c@),
            Component::Katex(c) => ComponentView::Katex(c@),
            Component::Mermaid(c) => ComponentView::Mermaid(c@),
            Component::ContentTab(c) => ComponentView::ContentTab(c@),
            Component::ContentTabs(c) => ComponentView::ContentTabs(c@),
            Component::Table(c) => ComponentView::Table(c@),
            Component::TableRow(c) => ComponentView::TableRow(c@),
            Component::TableCell(c) => ComponentView::TableCell(c@),
            Component::Unsupported(c) => ComponentView::Unsupported(c@),
        }
    }
}

/// The views of a sequence of components.
pub open spec fn views(s: Seq<Component>) -> Seq<ComponentView> {
    s.map_values(|c: Component| c@)
}

impl Component {
    /// The component's id.
    pub fn id(&self) -> (r: &str)
        ensures
            r@ == self@.id(),
    {
        match self {
            Component::RichText(c) => c.id.as_str(),
            Component::LinkText(c) => c.id.as_str(),
            Component::Icon(c) => c.id.as_str(),
            Component::Row(c) => c.id.as_str(),
            Component::Column(c) => c.id.as_str(),
            Component::ColumnList(c) => c.id.as_str(),
            Component::Heading(c) => c.id.as_str(),
            Component::Paragraph(c) => c.id.as_str(),
            Component::List(c) => c.id.as_str(),
            Component::ListItem(c) => c.id.as_str(),
            Component::BlockQuote(c) => c.id.as_str(),
            Component::Callout(c) => c.id.as_str(),
            Component::Divider(c) => c.id.as_str(),
            Component::Toggle(c) => c.id.as_str(),
            Component::Bookmark(c) => c.id.as_str(),
            Component::File(c) => c.id.as_str(),
            Component::BlockImage(c) => c.id.as_str(),
            Component::CodeBlock(c) => c.id.as_str(),
            Component::Katex(c) => c.id.as_str(),
            Component::Mermaid(c) => c.id.as_str(),
            Component::ContentTab(c) => c.id.as_str(),
            Component::ContentTabs(c) => c.id.as_str(),
            Component::Table(c) => c.id.as_str(),
            Component::TableRow(c) => c.id.as_str(),
            Component::TableCell(c) => c.id.as_str(),
            Component::Unsupported(c) => c.id.as_str(),
        }
    }
}

/// A copy of optional decorations.
pub fn clone_opt_decorations(o: &Option<Vec<Decoration>>) -> (r: Option<Vec<Decoration>>)
    ensures
        opt_decorations_view(r) == opt_decorations_view(*o),
{
    match o {
        Some(v) => {
            let mut out: Vec<Decoration> = Vec::new();
            let n = v.len();
            let mut i: usize = 0;
            while i < n
                invariant
                    n == v@.len(),
                    i <= n,
                    out@ =~= v@.take(i as int),
                decreases n - i,
            {
                out.push(v[i]);
                i = i + 1;
            }
            proof {
                assert(v@.take(n as int) =~= v@);
            }
            Some(out)
        },
        None => None,
    }
}

impl Clone for RichText {
    fn clone(&self) -> (r: Self)
        ensures
            r@ == self@,
    {
        RichText {
            id: self.id.clone(),
            accessibility: clone_opt_accessibility(&self.accessibility),
            weight: self.weight,
            text: self.text.clone(),
            decoration: clone_opt_decorations(&self.decoration),
            ruby: clone_opt_string(&self.ruby),
            color: clone_opt_string(&self.color),
        }
    }
}

impl Clone for LinkText {
    fn clone(&self) -> (r: Self)
        ensures
            r@ == self@,
    {
        LinkText {
            id: self.id.clone(),
            accessibility: clone_opt_accessibility(&self.accessibility),
            weight: self.weight,
            text: self.text.clone(),
            href: self.href.clone(),
            favicon: clone_opt_string(&self.favicon),
        }
    }
}

impl Clone for Icon {
    fn clone(&self) -> (r: Self)
        ensures
            r@ == self@,
    {
        Icon {
            id: self.id.clone(),
            accessibility: clone_opt_accessibility(&self.accessibility),
            weight: self.weight,
            src: self.src.clone(),
            alt: clone_opt_string(&self.alt),
        }
    }
}

impl Clone for Row {
    fn clone(&self) -> (r: Self)
        ensures
            r@ == self@,
    {
        Row {
            id: self.id.clone(),
            accessibility: clone_opt_accessibility(&self.accessibility),
            weight: self.weight,
            children: self.children.clone(),
            justify: self.justify,
            align: self.align,
        }
    }
}

impl Clone for Column {
    fn clone(&self) -> (r: Self)
        ensures
            r@ == self@,
    {
        Column {
            id: self.id.clone(),
            accessibility: clone_opt_accessibility(&self.accessibility),
            weight: self.weight,
            children: self.children.clone(),
            justify: self.justify,
            align: self.align,
            width_ratio: self.width_ratio,
        }
    }
}

impl Clone for ColumnList {
    fn clone(&self) -> (r: Self)
        ensures
            r@ == self@,
    {
        ColumnList {
            id: self.id.clone(),
            accessibility: clone_opt_accessibility(&self.accessibility),
            weight: self.weight,
            children: clone_strings(&self.children),
        }
    }
}

impl Clone for Heading {
    fn clone(&self) -> (r: Self)
        ensures
            r@ == self@,
    {
        Heading {
            id: self.id.clone(),
            accessibility: clone_opt_accessibility(&self.accessibility),
            weight: self.weight,
            level: self.level,
            children: self.children.clone(),
        }
    }
}

impl Clone for Paragraph {
    fn clone(&self) -> (r: Self)
        ensures
            r@ == self@,
    {
        Paragraph {
            id: self.id.clone(),
            accessibility: clone_opt_accessibility(&self.accessibility),
            weight: self.weight,
            children: self.children.clone(),
            color: clone_opt_string(&self.color),
            background_color: clone_opt_string(&self.background_color),
        }
    }
}

impl Clone for List {
    fn clone(&self) -> (r: Self)
        ensures
            r@ == self@,
    {
        List {
            id: self.id.clone(),
            accessibility: clone_opt_accessibility(&self.accessibility),
            weight: self.weight,
            children: clone_strings(&self.children),
            style: self.style,
        }
    }
}

impl Clone for ListItem {
    fn clone(&self) -> (r: Self)
        ensures
            r@ == self@,
    {
        ListItem {
            id: self.id.clone(),
            accessibility: clone_opt_accessibility(&self.accessibility),
            weight: self.weight,
            children: clone_strings(&self.children),
        }
    }
}

impl Clone for BlockQuote {
    fn clone(&self) -> (r: Self)
        ensures
            r@ == self@,
    {
        BlockQuote {
            id: self.id.clone(),
            accessibility: clone_opt_accessibility(&self.accessibility),
            weight: self.weight,
            children: self.children.clone(),
            cite: clone_opt_string(&self.cite),
        }
    }
}

impl Clone for Callout {
    fn clone(&self) -> (r: Self)
        ensures
            r@ == self@,
    {
        Callout {
            id: self.id.clone(),
            accessibility: clone_opt_accessibility(&self.accessibility),
            weight: self.weight,
            children: self.children.clone(),
            callout_type: self.callout_type,
        }
    }
}

impl Clone for Divider {
    fn clone(&self) -> (r: Self)
        ensures
            r@ == self@,
    {
        Divider {
            id: self.id.clone(),
            accessibility: clone_opt_accessibility(&self.accessibility),
            weight: self.weight,
        }
    }
}

impl Clone for Toggle {
    fn clone(&self) -> (r: Self)
        ensures
            r@ == self@,
    {
        Toggle {
            id: self.id.clone(),
            accessibility: clone_opt_accessibility(&self.accessibility),
            weight: self.weight,
            summary: self.summary.clone(),
            children: self.children.clone(),
        }
    }
}

impl Clone for Bookmark {
    fn clone(&self) -> (r: Self)
        ensures
            r@ == self@,
    {
        Bookmark {
            id: self.id.clone(),
            accessibility: clone_opt_accessibility(&self.accessibility),
            weight: self.weight,
            url: self.url.clone(),
            title: clone_opt_string(&self.title),
            description: clone_opt_string(&self.description),
            image: clone_opt_string(&self.image),
        }
    }
}

impl Clone for File {
    fn clone(&self) -> (r: Self)
        ensures
            r@ == self@,
    {
        File {
            id: self.id.clone(),
            accessibility: clone_opt_accessibility(&self.accessibility),
            weight: self.weight,
            src: self.src.clone(),
            name: clone_opt_string(&self.name),
        }
    }
}

impl Clone for BlockImage {
    fn clone(&self) -> (r: Self)
        ensures
            r@ == self@,
    {
        BlockImage {
            id: self.id.clone(),
            accessibility: clone_opt_accessibility(&self.accessibility),
            weight: self.weight,
            src: self.src.clone(),
            alt: clone_opt_string(&self.alt),
            width: self.width,
            height: self.height,
            srcset: clone_opt_string(&self.srcset),
            sizes: clone_opt_string(&self.sizes),
            caption: clone_opt_string(&self.caption),
        }
    }
}

impl Clone for CodeBlock {
    fn clone(&self) -> (r: Self)
        ensures
            r@ == self@,
    {
        CodeBlock {
            id: self.id.clone(),
            accessibility: clone_opt_accessibility(&self.accessibility),
            weight: self.weight,
            code: self.code.clone(),
            language: clone_opt_string(&self.language),
            caption: clone_opt_string(&self.caption),
        }
    }
}

impl Clone for Katex {
    fn clone(&self) -> (r: Self)
        ensures
            r@ == self@,
    {
        Katex {
            id: self.id.clone(),
            accessibility: clone_opt_accessibility(&self.accessibility),
            weight: self.weight,
            expression: self.expression.clone(),
        }
    }
}

impl Clone for Mermaid {
    fn clone(&self) -> (r: Self)
        ensures
            r@ == self@,
    {
        Mermaid {
            id: self.id.clone(),
            accessibility: clone_opt_accessibility(&self.accessibility),
            weight: self.weight,
            code: self.code.clone(),
        }
    }
}

impl Clone for ContentTab {
    fn clone(&self) -> (r: Self)
        ensures
            r@ == self@,
    {
        ContentTab {
            id: self.id.clone(),
            accessibility: clone_opt_accessibility(&self.accessibility),
            weight: self.weight,
            label: self.label.clone(),
            content: self.content.clone(),
        }
    }
}

impl Clone for ContentTabs {
    fn clone(&self) -> (r: Self)
        ensures
            r@ == self@,
    {
        ContentTabs {
            id: self.id.clone(),
            accessibility: clone_opt_accessibility(&self.accessibility),
            weight: self.weight,
            children: clone_strings(&self.children),
        }
    }
}

impl Clone for Table {
    fn clone(&self) -> (r: Self)
        ensures
            r@ == self@,
    {
        Table {
            id: self.id.clone(),
            accessibility: clone_opt_accessibility(&self.accessibility),
            weight: self.weight,
            body: clone_strings(&self.body),
            header: clone_opt_strings(&self.header),
            caption: clone_opt_string(&self.caption),
            has_column_header: self.has_column_header,
            has_row_header: self.has_row_header,
        }
    }
}

impl Clone for TableRow {
    fn clone(&self) -> (r: Self)
        ensures
            r@ == self@,
    {
        TableRow {
            id: self.id.clone(),
            accessibility: clone_opt_accessibility(&self.accessibility),
            weight: self.weight,
            children: clone_strings(&self.children),
        }
    }
}

impl Clone for TableCell {
    fn clone(&self) -> (r: Self)
        ensures
            r@ == self@,
    {
        TableCell {
            id: self.id.clone(),
            accessibility: clone_opt_accessibility(&self.accessibility),
            weight: self.weight,
            children: clone_strings(&self.children),
            is_header: self.is_header,
        }
    }
}

impl Clone for Unsupported {
    fn clone(&self) -> (r: Self)
        ensures
            r@ == self@,
    {
        Unsupported {
            id: self.id.clone(),
            accessibility: clone_opt_accessibility(&self.accessibility),
            weight: self.weight,
            details: clone_opt_string(&self.details),
        }
    }
}

impl Clone for Component {
    fn clone(&self) -> (r: Self)
        ensures
            r@ == self@,
    {
        match self {
            Component::RichText(c) => Component::RichText(c.clone()),
            Component::LinkText(c) => Component::LinkText(c.clone()),
            Component::Icon(c) => Component::Icon(c.clone()),
            Component::Row(c) => Component::Row(c.clone()),
            Component::Column(c) => Component::Column(c.clone()),
            Component::ColumnList(c) => Component::ColumnList(c.clone()),
            Component::Heading(c) => Component::Heading(c.clone()),
            Component::Paragraph(c) => Component::Paragraph(c.clone()),
            Component::List(c) => Component::List(c.clone()),
            Component::ListItem(c) => Component::ListItem(c.clone()),
            Component::BlockQuote(c) => Component::BlockQuote(c.clone()),
            Component::Callout(c) => Component::Callout(c.clone()),
            Component::Divider(c) => Component::Divider(c.clone()),
            Component::Toggle(c) => Component::Toggle(c.clone()),
            Component::Bookmark(c) => Component::Bookmark(c.clone()),
            Component::File(c) => Component::File(c.clone()),
            Component::BlockImage(c) => Component::BlockImage(c.clone()),
            Component::CodeBlock(c) => Component::CodeBlock(c.clone()),
            Component::Katex(c) => Component::Katex(c.clone()),
            Component::Mermaid(c) => Component::Mermaid(c.clone()),
            Component::ContentTab(c) => Component::ContentTab(c.clone()),
            Component::ContentTabs(c) => Component::ContentTabs(c.clone()),
            Component::Table(c) => Component::Table(c.clone()),
            Component::TableRow(c) => Component::TableRow(c.clone()),
            Component::TableCell(c) => Component::TableCell(c.clone()),
            Component::Unsupported(c) => Component::Unsupported(c.clone()),
        }
    }
}

/// The number of a heading level.
pub open spec fn spec_level_number(level: HeadingLevel) -> u8 {
    match level {
        HeadingLevel::H1 => 1,
        HeadingLevel::H2 => 2,
        HeadingLevel::H3 => 3,
        HeadingLevel::H4 => 4,
        HeadingLevel::H5 => 5,
        HeadingLevel::H6 => 6,
    }
}

/// The heading level numbered `value`, for `value` in `1..=6`.
pub open spec fn spec_level_of(value: u8) -> Option<HeadingLevel> {
    if value == 1 {
        Some(HeadingLevel::H1)
    } else if value == 2 {
        Some(HeadingLevel::H2)
    } else if value == 3 {
        Some(HeadingLevel::H3)
    } else if value == 4 {
        Some(HeadingLevel::H4)
    } else if value == 5 {
        Some(HeadingLevel::H5)
    } else if value == 6 {
        Some(HeadingLevel::H6)
    } else {
        None
    }
}

/// The message of a rejected heading level.
pub open spec fn spec_level_error(value: u8) -> Seq<char> {
    "invalid heading level "@ + crate::id::decimal(value as nat) + " (expected 1..=6)"@
}

impl From<HeadingLevel> for u8 {
    fn from(level: HeadingLevel) -> (r: u8) {
        match level {
            HeadingLevel::H1 => 1,
            HeadingLevel::H2 => 2,
            HeadingLevel::H3 => 3,
            HeadingLevel::H4 => 4,
            HeadingLevel::H5 => 5,
            HeadingLevel::H6 => 6,
        }
    }
}

impl vstd::std_specs::convert::FromSpecImpl<HeadingLevel> for u8 {
    open spec fn obeys_from_spec() -> bool {
        true
    }

    open spec fn from_spec(level: HeadingLevel) -> u8 {
        spec_level_number(level)
    }
}

impl TryFrom<u8> for HeadingLevel {
    type Error = String;

    fn try_from(value: u8) -> (r: Result<Self, String>)
        ensures
            match spec_level_of(value) {
                Some(level) => r == Ok::<HeadingLevel, String>(level),
                None => r matches Err(e) && e@ == spec_level_error(value),
            },
    {
        match value {
            1 => Ok(HeadingLevel::H1),
            2 => Ok(HeadingLevel::H2),
            3 => Ok(HeadingLevel::H3),
            4 => Ok(HeadingLevel::H4),
            5 => Ok(HeadingLevel::H5),
            6 => Ok(HeadingLevel::H6),
            _ => {
                let mut message = String::from_str("invalid heading level ");
                crate::id::append_decimal(&mut message, value as usize);
                message.append(" (expected 1..=6)");
                Err(message)
            },
        }
    }
}

impl vstd::std_specs::convert::TryFromSpecImpl<u8> for HeadingLevel {
    open spec fn obeys_try_from_spec() -> bool {
        false
    }

    open spec fn try_from_spec(value: u8) -> Result<HeadingLevel, String> {
        match spec_level_of(value) {
            Some(level) => Ok(level),
            None => Err(arbitrary()),
        }
    }
}

/// A heading level converted to its number converts back to itself, and
/// exactly the numbers one to six convert to a level.
pub proof fn lemma_heading_level_round_trip(level: HeadingLevel, value: u8)
    ensures
        spec_level_of(spec_level_number(level)) == Some(level),
        spec_level_of(value) is Some <==> 1 <= value <= 6,
        spec_level_of(value) matches Some(l) ==> spec_level_number(l) == value,
{
}

} // verus!
