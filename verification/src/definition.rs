//! The document tree: blocks, inlines, tables, citations and metadata.
//!
//! Every node is owned by the one container that holds it. The types carry
//! no behaviour of their own beyond their defaults; their mathematical models
//! are in [`view`].

pub mod children;
pub mod copy;
pub mod defaults;
pub mod equal;
pub mod extra;
pub mod handles;
pub mod iter;
pub mod laws;
pub mod meta;
pub mod stringify;
pub mod view;

pub use iter::IterBlocks;
pub use iter::IterInlines;
pub use stringify::Stringify;

use crate::json::Number;
use vstd::prelude::*;

verus! {

/// Major component of the one schema version that is written and accepted.
pub const PANDOC_API_MAJOR: i32 = 1;

/// Minor component of the one schema version that is written and accepted.
pub const PANDOC_API_MINOR: i32 = 23;

/// A whole document: its metadata and its blocks.
#[derive(Debug, Eq)]
pub struct Pandoc {
    pub blocks: Vec<Block>,
    pub meta: Meta,
}

/// A mapping from keys to metadata values, held as a list of entries.
///
/// It is well formed when no key occurs twice. The order of the entries
/// carries no meaning: two mappings are equal where they have the same
/// values under the same keys. The entries are written in their order.
#[derive(Debug, Eq)]
pub struct Meta {
    pub entries: Vec<(String, MetaValue)>,
}

/// A metadata value: a mapping, a list, a boolean, a string, or text as
/// inlines or as blocks.
#[derive(Debug, Eq)]
pub enum MetaValue {
    MetaMap(Meta),
    MetaList(Vec<MetaValue>),
    MetaBool(bool),
    MetaString(String),
    MetaInlines(Vec<Inline>),
    MetaBlocks(Vec<Block>),
}

/// A structural unit of a document.
#[derive(Debug, Eq)]
pub enum Block {
    /// Plain text, not a paragraph
    Plain(Vec<Inline>),
    /// Paragraph
    Para(Vec<Inline>),
    /// Multiple non-breaking lines
    LineBlock(Vec<Vec<Inline>>),
    /// Code block (literal) with attributes
    CodeBlock(Attr, String),
    /// Raw block
    RawBlock(Format, String),
    /// Block quote
    BlockQuote(Vec<Block>),
    /// Ordered list (attributes and a list of items, each a list of blocks)
    OrderedList(ListAttributes, Vec<Vec<Block>>),
    /// Bullet list (list of items, each a list of blocks)
    BulletList(Vec<Vec<Block>>),
    /// Definition list. Each item is a term (a list of inlines) with its
    /// definitions (each a list of blocks)
    DefinitionList(Vec<(Vec<Inline>, Vec<Vec<Block>>)>),
    /// Header: level, attributes and text
    Header(i32, Attr, Vec<Inline>),
    /// Horizontal rule
    HorizontalRule,
    /// Table
    Table(Table),
    /// Figure
    Figure(Attr, Caption, Vec<Block>),
    /// Generic block container with attributes
    Div(Attr, Vec<Block>),
    /// Nothing
    Null,
}

/// A table: its caption, its columns, and its head, bodies and foot.
#[derive(Debug, Eq)]
pub struct Table {
    pub attr: Attr,
    pub caption: Caption,
    pub colspecs: Vec<ColSpec>,
    pub head: TableHead,
    pub bodies: Vec<TableBody>,
    pub foot: TableFoot,
}

/// A unit of text-level content.
#[derive(Debug, Eq)]
pub enum Inline {
    /// Text
    Str(String),
    /// Emphasized text
    Emph(Vec<Inline>),
    /// Underlined text
    Underline(Vec<Inline>),
    /// Strongly emphasized text
    Strong(Vec<Inline>),
    /// Strikeout text
    Strikeout(Vec<Inline>),
    /// Superscripted text
    Superscript(Vec<Inline>),
    /// Subscripted text
    Subscript(Vec<Inline>),
    /// Small caps text
    SmallCaps(Vec<Inline>),
    /// Quoted text
    Quoted(QuoteType, Vec<Inline>),
    /// Citation
    Cite(Vec<Citation>, Vec<Inline>),
    /// Inline code
    Code(Attr, String),
    /// Inter-word space
    Space,
    /// Soft line break
    SoftBreak,
    /// Hard line break
    LineBreak,
    /// TeX math
    Math(MathType, String),
    /// Raw inline
    RawInline(Format, String),
    /// Hyperlink: label (list of inlines), target
    Link(Attr, Vec<Inline>, Target),
    /// Image: alt text (list of inlines), target
    Image(Attr, Vec<Inline>, Target),
    /// Footnote or endnote
    Note(Vec<Block>),
    /// Generic inline container with attributes
    Span(Attr, Vec<Inline>),
}

/// How the content of a table cell or column is aligned.
#[derive(Debug, Clone, Copy, PartialEq, Eq, Structural)]
pub enum Alignment {
    AlignLeft,
    AlignRight,
    AlignCenter,
    AlignDefault,
}

/// The width of a table column, as a fraction of the text width.
#[derive(Debug, Clone, Copy, PartialEq, Eq, Structural)]
pub enum ColWidth {
    ColWidth(Number),
    ColWidthDefault,
}

/// The alignment and the width of a table column.
#[derive(Debug, Clone, Copy, PartialEq, Eq, Structural)]
pub struct ColSpec(pub Alignment, pub ColWidth);

/// A row of table cells.
#[derive(Debug, Eq)]
pub struct Row {
    pub attr: Attr,
    pub cells: Vec<Cell>,
}

/// The rows at the head of a table.
#[derive(Debug, Eq)]
pub struct TableHead {
    pub attr: Attr,
    pub rows: Vec<Row>,
}

/// A body of a table: head rows and body rows, with the number of leading
/// columns that are row heads.
#[derive(Debug, Eq)]
pub struct TableBody {
    pub attr: Attr,
    pub row_head_columns: i32,
    pub head: Vec<Row>,
    pub body: Vec<Row>,
}

/// The rows at the foot of a table.
#[derive(Debug, Eq)]
pub struct TableFoot {
    pub attr: Attr,
    pub rows: Vec<Row>,
}

/// A caption: a short form, where there is one, and a long form.
#[derive(Debug, Eq)]
pub struct Caption {
    pub short: Option<Vec<Inline>>,
    pub long: Vec<Block>,
}

/// A table cell, which may span rows and columns.
#[derive(Debug, Eq)]
pub struct Cell {
    pub attr: Attr,
    pub align: Alignment,
    pub row_span: i32,
    pub col_span: i32,
    pub content: Vec<Block>,
}

/// How an ordered list is numbered.
#[derive(Debug, Clone, Copy, PartialEq, Eq, Structural)]
pub struct ListAttributes {
    pub start_number: i32,
    pub style: ListNumberStyle,
    pub delim: ListNumberDelim,
}

/// The style of the numbers of an ordered list.
#[derive(Debug, Clone, Copy, PartialEq, Eq, Structural)]
pub enum ListNumberStyle {
    DefaultStyle,
    Example,
    Decimal,
    LowerRoman,
    UpperRoman,
    LowerAlpha,
    UpperAlpha,
}

/// The delimiter of the numbers of an ordered list.
#[derive(Debug, Clone, Copy, PartialEq, Eq, Structural)]
pub enum ListNumberDelim {
    DefaultDelim,
    Period,
    OneParen,
    TwoParens,
}

/// The name of an output format, as raw blocks and raw inlines carry it.
#[derive(Debug, Eq)]
pub struct Format(pub String);

/// An identifier, classes and key and value pairs attached to a node.
#[derive(Debug, Eq)]
pub struct Attr {
    pub identifier: String,
    pub classes: Vec<String>,
    pub attributes: Vec<(String, String)>,
}

/// The kind of quotation marks around quoted text.
#[derive(Debug, Clone, Copy, PartialEq, Eq, Structural)]
pub enum QuoteType {
    SingleQuote,
    DoubleQuote,
}

/// The target of a link or an image: where it points, and its title.
#[derive(Debug, Eq)]
pub struct Target {
    pub url: String,
    pub title: String,
}

/// Whether math is displayed on its own line or set in the line.
#[derive(Debug, Clone, Copy, PartialEq, Eq, Structural)]
pub enum MathType {
    DisplayMath,
    InlineMath,
}

/// One citation of a work.
#[derive(Debug, Eq)]
pub struct Citation {
    pub citation_id: String,
    pub citation_prefix: Vec<Inline>,
    pub citation_suffix: Vec<Inline>,
    pub citation_mode: CitationMode,
    pub citation_note_num: i32,
    pub citation_hash: i32,
}

/// How a citation names its author.
#[derive(Debug, Clone, Copy, PartialEq, Eq, Structural)]
pub enum CitationMode {
    AuthorInText,
    SuppressAuthor,
    NormalCitation,
}

} // verus!
