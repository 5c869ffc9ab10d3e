//! The part of a Notion block tree that conversion reads, as plain values.
//!
//! A tree holds, under each block, the children that conversion of that block
//! reads (see `reads_children`), and for an image the body that was fetched
//! when image metadata is enabled.
use vstd::prelude::*;

use crate::common::Number;

verus! {

/// A Notion color token: foreground colors, then background colors.
#[derive(Debug, Clone, Copy, Default, PartialEq, Eq, Structural)]
pub enum Color {
    #[default]
    Default,
    Blue,
    Brown,
    Gray,
    Green,
    Orange,
    Pink,
    Purple,
    Red,
    Yellow,
    DefaultBackground,
    BlueBackground,
    BrownBackground,
    GrayBackground,
    GreenBackground,
    OrangeBackground,
    PinkBackground,
    PurpleBackground,
    RedBackground,
    YellowBackground,
}

/// The styling of a rich-text run.
#[derive(Debug, Clone, Copy, Default, PartialEq, Eq, Structural)]
pub struct RichTextAnnotations {
    pub bold: bool,
    pub italic: bool,
    pub strikethrough: bool,
    pub underline: bool,
    pub code: bool,
    pub color: Color,
}

/// What a mention points at, as far as conversion reads it.
#[derive(Debug, Clone, PartialEq)]
pub enum Mention {
    /// A workspace custom emoji.
    CustomEmoji { name: String, url: String },
    /// A user, date, page, database, link or template mention.
    Other,
}

/// One run of a Notion rich-text array.
#[derive(Debug, Clone, PartialEq)]
pub enum RichText {
    Text { annotations: RichTextAnnotations, plain_text: String, href: Option<String> },
    Mention {
        mention: Mention,
        annotations: RichTextAnnotations,
        plain_text: String,
        href: Option<String>,
    },
    Equation {
        expression: String,
        annotations: RichTextAnnotations,
        plain_text: String,
        href: Option<String>,
    },
}

/// The fields shared by externally linked and Notion-hosted files.
#[derive(Debug, Clone, PartialEq)]
pub struct LinkedFile {
    pub url: String,
    pub name: Option<String>,
    pub caption: Option<Vec<RichText>>,
}

/// A Notion file object.
#[derive(Debug, Clone, PartialEq)]
pub enum File {
    External(LinkedFile),
    NotionHosted(LinkedFile),
    /// A file uploaded through the API, which has no usable URL.
    ApiUploaded,
}

/// A page or callout icon.
#[derive(Debug, Clone, PartialEq)]
pub enum EmojiAndIcon {
    File(File),
    Emoji(String),
    CustomEmoji { name: String, url: String },
    /// One of Notion's named built-in icons.
    Icon,
}

/// The type-specific content of a Notion block.
#[derive(Debug, Clone, PartialEq)]
pub enum Block {
    Audio { audio: File },
    Bookmark { url: String, caption: Vec<RichText> },
    Breadcrumb,
    BulletedListItem { rich_text: Vec<RichText> },
    Callout { rich_text: Vec<RichText>, icon: Option<EmojiAndIcon> },
    ChildDatabase { title: String },
    ChildPage { title: String },
    /// `language` is the language's Notion name, such as `rust` or `mermaid`.
    Code { rich_text: Vec<RichText>, caption: Vec<RichText>, language: String },
    ColumnList,
    Column { width_ratio: Number },
    Divider,
    Embed { url: String },
    Equation { expression: String },
    File { file: File },
    Heading1 { rich_text: Vec<RichText> },
    Heading2 { rich_text: Vec<RichText> },
    Heading3 { rich_text: Vec<RichText> },
    Heading4 { rich_text: Vec<RichText> },
    /// `fetched` is the image's body when it was downloaded for its dimensions.
    Image { image: File, fetched: Option<Vec<u8>> },
    LinkPreview { url: String },
    NumberedListItem { rich_text: Vec<RichText> },
    Paragraph { rich_text: Vec<RichText>, color: Color },
    Pdf { pdf: File },
    Quote { rich_text: Vec<RichText> },
    SyncedBlock,
    TableOfContents,
    Tab,
    Table { has_column_header: bool, has_row_header: bool },
    TableRow { cells: Vec<Vec<RichText>> },
    Template,
    ToDo { rich_text: Vec<RichText>, checked: bool },
    Toggle { rich_text: Vec<RichText> },
    MeetingNotes,
    Transcription,
    Video { video: File },
    Unsupported { block_type: String },
}

/// A Notion block with the children that its conversion reads.
#[derive(Debug)]
pub struct BlockResponse {
    pub id: String,
    pub has_children: bool,
    pub block: Block,
    pub children: Vec<BlockResponse>,
}

/// Where a block stands in the tree, as far as its conversion cares.
#[derive(Debug, Clone, Copy, PartialEq, Eq, Structural)]
pub enum Position {
    /// Among the children of a page or of a converted container.
    Sibling,
    /// A direct child of a `tab` block.
    TabChild,
    /// A direct child of a `table` block.
    TableChild,
}

/// Whether converting `block`, standing at `position`, reads its children;
/// those are the blocks whose children a tree must hold.
pub open spec fn spec_reads_children(block: BlockResponse, position: Position) -> bool {
    match position {
        Position::Sibling => match block.block {
            Block::Table { .. } => true,
            Block::Paragraph { .. } | Block::Quote { .. } | Block::Callout { .. }
            | Block::Toggle { .. } | Block::ColumnList | Block::Column { .. }
            | Block::SyncedBlock | Block::Tab | Block::BulletedListItem { .. }
            | Block::NumberedListItem { .. } | Block::ToDo { .. } => block.has_children,
            _ => false,
        },
        Position::TabChild => match block.block {
            Block::Paragraph { .. } => block.has_children,
            _ => false,
        },
        Position::TableChild => false,
    }
}

/// The position of the children of `block`, when they are read.
pub open spec fn spec_children_position(block: Block) -> Position {
    match block {
        Block::Tab => Position::TabChild,
        Block::Table { .. } => Position::TableChild,
        _ => Position::Sibling,
    }
}

impl BlockResponse {
    /// Whether converting this block at `position` reads its children, so
    /// that whoever builds the tree fetches them.
    pub fn reads_children(&self, position: Position) -> (r: bool)
        ensures
            r == spec_reads_children(*self, position),
    {
        match position {
            Position::Sibling => match &self.block {
                Block::Table { .. } => true,
                Block::Paragraph { .. } | Block::Quote { .. } | Block::Callout { .. }
                | Block::Toggle { .. } | Block::ColumnList | Block::Column { .. }
                | Block::SyncedBlock | Block::Tab | Block::BulletedListItem { .. }
                | Block::NumberedListItem { .. } | Block::ToDo { .. } => self.has_children,
                _ => false,
            },
            Position::TabChild => match &self.block {
                Block::Paragraph { .. } => self.has_children,
                _ => false,
            },
            Position::TableChild => false,
        }
    }

    /// The position at which this block's children stand.
    pub fn children_position(&self) -> (r: Position)
        ensures
            r == spec_children_position(self.block),
    {
        match &self.block {
            Block::Tab => Position::TabChild,
            Block::Table { .. } => Position::TableChild,
            _ => Position::Sibling,
        }
    }
}

} // verus!
