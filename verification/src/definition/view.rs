//! The mathematical models of the document types.
//!
//! Each model mirrors its type, with sequences of characters for strings and
//! sequences of models for vectors. Contracts all over the crate are stated
//! over these models.

use crate::definition::Alignment;
use crate::definition::Attr;
use crate::definition::Block;
use crate::definition::Caption;
use crate::definition::Cell;
use crate::definition::Citation;
use crate::definition::CitationMode;
use crate::definition::ColSpec;
use crate::definition::Format;
use crate::definition::Inline;
use crate::definition::ListAttributes;
use crate::definition::MathType;
use crate::definition::Meta;
use crate::definition::MetaValue;
use crate::definition::Pandoc;
use crate::definition::QuoteType;
use crate::definition::Row;
use crate::definition::Table;
use crate::definition::TableBody;
use crate::definition::TableFoot;
use crate::definition::TableHead;
use crate::definition::Target;
use vstd::prelude::*;

verus! {

/// The mathematical model of [`Attr`](crate::definition::Attr).
pub ghost struct AttrView {
    pub identifier: Seq<char>,
    pub classes: Seq<Seq<char>>,
    pub attributes: Seq<(Seq<char>, Seq<char>)>,
}

/// The mathematical model of [`Target`](crate::definition::Target).
pub ghost struct TargetView {
    pub url: Seq<char>,
    pub title: Seq<char>,
}

/// The mathematical model of [`Citation`](crate::definition::Citation).
pub ghost struct CitationView {
    pub citation_id: Seq<char>,
    pub citation_prefix: Seq<InlineView>,
    pub citation_suffix: Seq<InlineView>,
    pub citation_mode: CitationMode,
    pub citation_note_num: i32,
    pub citation_hash: i32,
}

/// The mathematical model of [`Inline`](crate::definition::Inline).
pub ghost enum InlineView {
    Str(Seq<char>),
    Emph(Seq<InlineView>),
    Underline(Seq<InlineView>),
    Strong(Seq<InlineView>),
    Strikeout(Seq<InlineView>),
    Superscript(Seq<InlineView>),
    Subscript(Seq<InlineView>),
    SmallCaps(Seq<InlineView>),
    Quoted(QuoteType, Seq<InlineView>),
    Cite(Seq<CitationView>, Seq<InlineView>),
    Code(AttrView, Seq<char>),
    Space,
    SoftBreak,
    LineBreak,
    Math(MathType, Seq<char>),
    RawInline(Seq<char>, Seq<char>),
    Link(AttrView, Seq<InlineView>, TargetView),
    Image(AttrView, Seq<InlineView>, TargetView),
    Note(Seq<BlockView>),
    Span(AttrView, Seq<InlineView>),
}

/// The mathematical model of [`Block`](crate::definition::Block).
pub ghost enum BlockView {
    Plain(Seq<InlineView>),
    Para(Seq<InlineView>),
    LineBlock(Seq<Seq<InlineView>>),
    CodeBlock(AttrView, Seq<char>),
    RawBlock(Seq<char>, Seq<char>),
    BlockQuote(Seq<BlockView>),
    OrderedList(ListAttributes, Seq<Seq<BlockView>>),
    BulletList(Seq<Seq<BlockView>>),
    DefinitionList(Seq<(Seq<InlineView>, Seq<Seq<BlockView>>)>),
    Header(i32, AttrView, Seq<InlineView>),
    HorizontalRule,
    Table(TableView),
    Figure(AttrView, CaptionView, Seq<BlockView>),
    Div(AttrView, Seq<BlockView>),
    Null,
}

/// The mathematical model of [`Caption`](crate::definition::Caption).
pub ghost struct CaptionView {
    pub short: Option<Seq<InlineView>>,
    pub long: Seq<BlockView>,
}

/// The mathematical model of [`Cell`](crate::definition::Cell).
pub ghost struct CellView {
    pub attr: AttrView,
    pub align: Alignment,
    pub row_span: i32,
    pub col_span: i32,
    pub content: Seq<BlockView>,
}

/// The mathematical model of [`Row`](crate::definition::Row).
pub ghost struct RowView {
    pub attr: AttrView,
    pub cells: Seq<CellView>,
}

/// The mathematical model of [`TableHead`](crate::definition::TableHead).
pub ghost struct TableHeadView {
    pub attr: AttrView,
    pub rows: Seq<RowView>,
}

/// The mathematical model of [`TableBody`](crate::definition::TableBody).
pub ghost struct TableBodyView {
    pub attr: AttrView,
    pub row_head_columns: i32,
    pub head: Seq<RowView>,
    pub body: Seq<RowView>,
}

/// The mathematical model of [`TableFoot`](crate::definition::TableFoot).
pub ghost struct TableFootView {
    pub attr: AttrView,
    pub rows: Seq<RowView>,
}

/// The mathematical model of [`Table`](crate::definition::Table).
pub ghost struct TableView {
    pub attr: AttrView,
    pub caption: CaptionView,
    pub colspecs: Seq<ColSpec>,
    pub head: TableHeadView,
    pub bodies: Seq<TableBodyView>,
    pub foot: TableFootView,
}

/// The mathematical model of [`MetaValue`](crate::definition::MetaValue).
pub ghost enum MetaValueView {
    MetaMap(MetaView),
    MetaList(Seq<MetaValueView>),
    MetaBool(bool),
    MetaString(Seq<char>),
    MetaInlines(Seq<InlineView>),
    MetaBlocks(Seq<BlockView>),
}

/// The mathematical model of [`Meta`](crate::definition::Meta).
pub ghost struct MetaView {
    pub entries: Seq<(Seq<char>, MetaValueView)>,
}

/// The mathematical model of [`Pandoc`](crate::definition::Pandoc).
pub ghost struct PandocView {
    pub blocks: Seq<BlockView>,
    pub meta: MetaView,
}

/// The model of a list of strings.
pub open spec fn strings_view(s: Seq<String>) -> Seq<Seq<char>> {
    Seq::new(s.len(), |k: int| s[k]@)
}

/// The model of a list of pairs of strings.
pub open spec fn pairs_view(s: Seq<(String, String)>) -> Seq<(Seq<char>, Seq<char>)> {
    Seq::new(s.len(), |k: int| (s[k].0@, s[k].1@))
}

/// The model of attributes.
pub open spec fn attr_view(a: Attr) -> AttrView {
    AttrView {
        identifier: a.identifier@,
        classes: strings_view(a.classes@),
        attributes: pairs_view(a.attributes@),
    }
}

/// The model of a target.
pub open spec fn target_view(t: Target) -> TargetView {
    TargetView { url: t.url@, title: t.title@ }
}

/// The model of an inline.
pub open spec fn inline_view(i: Inline) -> InlineView
    decreases i,
{
    match i {
        Inline::Str(s) => InlineView::Str(s@),
        Inline::Emph(v) => InlineView::Emph(inlines_view(v@)),
        Inline::Underline(v) => InlineView::Underline(inlines_view(v@)),
        Inline::Strong(v) => InlineView::Strong(inlines_view(v@)),
        Inline::Strikeout(v) => InlineView::Strikeout(inlines_view(v@)),
        Inline::Superscript(v) => InlineView::Superscript(inlines_view(v@)),
        Inline::Subscript(v) => InlineView::Subscript(inlines_view(v@)),
        Inline::SmallCaps(v) => InlineView::SmallCaps(inlines_view(v@)),
        Inline::Quoted(q, v) => InlineView::Quoted(q, inlines_view(v@)),
        Inline::Cite(c, v) => InlineView::Cite(citations_view(c@), inlines_view(v@)),
        Inline::Code(a, s) => InlineView::Code(attr_view(a), s@),
        Inline::Space => InlineView::Space,
        Inline::SoftBreak => InlineView::SoftBreak,
        Inline::LineBreak => InlineView::LineBreak,
        Inline::Math(m, s) => InlineView::Math(m, s@),
        Inline::RawInline(f, s) => InlineView::RawInline(f.0@, s@),
        Inline::Link(a, v, t) => InlineView::Link(attr_view(a), inlines_view(v@), target_view(t)),
        Inline::Image(a, v, t) => InlineView::Image(
            attr_view(a),
            inlines_view(v@),
            target_view(t),
        ),
        Inline::Note(b) => InlineView::Note(blocks_view(b@)),
        Inline::Span(a, v) => InlineView::Span(attr_view(a), inlines_view(v@)),
    }
}

/// The model of a list of inlines.
pub open spec fn inlines_view(s: Seq<Inline>) -> Seq<InlineView>
    decreases s,
{
    Seq::new(
        s.len(),
        |k: int|
            if 0 <= k < s.len() {
                inline_view(s[k])
            } else {
                arbitrary()
            },
    )
}

/// The model of a list of lists of inlines.
pub open spec fn inline_lists_view(s: Seq<Vec<Inline>>) -> Seq<Seq<InlineView>>
    decreases s,
{
    Seq::new(
        s.len(),
        |k: int|
            if 0 <= k < s.len() {
                inlines_view(s[k]@)
            } else {
                arbitrary()
            },
    )
}

/// The model of a citation.
pub open spec fn citation_view(c: Citation) -> CitationView
    decreases c,
{
    CitationView {
        citation_id: c.citation_id@,
        citation_prefix: inlines_view(c.citation_prefix@),
        citation_suffix: inlines_view(c.citation_suffix@),
        citation_mode: c.citation_mode,
        citation_note_num: c.citation_note_num,
        citation_hash: c.citation_hash,
    }
}

/// The model of a list of citations.
pub open spec fn citations_view(s: Seq<Citation>) -> Seq<CitationView>
    decreases s,
{
    Seq::new(
        s.len(),
        |k: int|
            if 0 <= k < s.len() {
                citation_view(s[k])
            } else {
                arbitrary()
            },
    )
}

/// The model of a block.
pub open spec fn block_view(b: Block) -> BlockView
    decreases b,
{
    match b {
        Block::Plain(v) => BlockView::Plain(inlines_view(v@)),
        Block::Para(v) => BlockView::Para(inlines_view(v@)),
        Block::LineBlock(l) => BlockView::LineBlock(inline_lists_view(l@)),
        Block::CodeBlock(a, s) => BlockView::CodeBlock(attr_view(a), s@),
        Block::RawBlock(f, s) => BlockView::RawBlock(f.0@, s@),
        Block::BlockQuote(v) => BlockView::BlockQuote(blocks_view(v@)),
        Block::OrderedList(l, items) => BlockView::OrderedList(l, block_lists_view(items@)),
        Block::BulletList(items) => BlockView::BulletList(block_lists_view(items@)),
        Block::DefinitionList(d) => BlockView::DefinitionList(definitions_view(d@)),
        Block::Header(n, a, v) => BlockView::Header(n, attr_view(a), inlines_view(v@)),
        Block::HorizontalRule => BlockView::HorizontalRule,
        Block::Table(t) => BlockView::Table(table_view(t)),
        Block::Figure(a, c, v) => BlockView::Figure(
            attr_view(a),
            caption_view(c),
            blocks_view(v@),
        ),
        Block::Div(a, v) => BlockView::Div(attr_view(a), blocks_view(v@)),
        Block::Null => BlockView::Null,
    }
}

/// The model of a list of blocks.
pub open spec fn blocks_view(s: Seq<Block>) -> Seq<BlockView>
    decreases s,
{
    Seq::new(
        s.len(),
        |k: int|
            if 0 <= k < s.len() {
                block_view(s[k])
            } else {
                arbitrary()
            },
    )
}

/// The model of a list of lists of blocks.
pub open spec fn block_lists_view(s: Seq<Vec<Block>>) -> Seq<Seq<BlockView>>
    decreases s,
{
    Seq::new(
        s.len(),
        |k: int|
            if 0 <= k < s.len() {
                blocks_view(s[k]@)
            } else {
                arbitrary()
            },
    )
}

/// The model of a list of terms with their definitions.
pub open spec fn definitions_view(s: Seq<(Vec<Inline>, Vec<Vec<Block>>)>) -> Seq<
    (Seq<InlineView>, Seq<Seq<BlockView>>),
>
    decreases s,
{
    Seq::new(
        s.len(),
        |k: int|
            if 0 <= k < s.len() {
                (inlines_view(s[k].0@), block_lists_view(s[k].1@))
            } else {
                arbitrary()
            },
    )
}

/// The model of a caption.
pub open spec fn caption_view(c: Caption) -> CaptionView
    decreases c,
{
    CaptionView {
        short: match c.short {
            Some(v) => Some(inlines_view(v@)),
            None => None,
        },
        long: blocks_view(c.long@),
    }
}

/// The model of a cell.
pub open spec fn cell_view(c: Cell) -> CellView
    decreases c,
{
    CellView {
        attr: attr_view(c.attr),
        align: c.align,
        row_span: c.row_span,
        col_span: c.col_span,
        content: blocks_view(c.content@),
    }
}

/// The model of a list of cells.
pub open spec fn cells_view(s: Seq<Cell>) -> Seq<CellView>
    decreases s,
{
    Seq::new(
        s.len(),
        |k: int|
            if 0 <= k < s.len() {
                cell_view(s[k])
            } else {
                arbitrary()
            },
    )
}

/// The model of a row.
pub open spec fn row_view(r: Row) -> RowView
    decreases r,
{
    RowView { attr: attr_view(r.attr), cells: cells_view(r.cells@) }
}

/// The model of a list of rows.
pub open spec fn rows_view(s: Seq<Row>) -> Seq<RowView>
    decreases s,
{
    Seq::new(
        s.len(),
        |k: int|
            if 0 <= k < s.len() {
                row_view(s[k])
            } else {
                arbitrary()
            },
    )
}

/// The model of a table head.
pub open spec fn table_head_view(h: TableHead) -> TableHeadView
    decreases h,
{
    TableHeadView { attr: attr_view(h.attr), rows: rows_view(h.rows@) }
}

/// The model of a table body.
pub open spec fn table_body_view(b: TableBody) -> TableBodyView
    decreases b,
{
    TableBodyView {
        attr: attr_view(b.attr),
        row_head_columns: b.row_head_columns,
        head: rows_view(b.head@),
        body: rows_view(b.body@),
    }
}

/// The model of a list of table bodies.
pub open spec fn table_bodies_view(s: Seq<TableBody>) -> Seq<TableBodyView>
    decreases s,
{
    Seq::new(
        s.len(),
        |k: int|
            if 0 <= k < s.len() {
                table_body_view(s[k])
            } else {
                arbitrary()
            },
    )
}

/// The model of a table foot.
pub open spec fn table_foot_view(f: TableFoot) -> TableFootView
    decreases f,
{
    TableFootView { attr: attr_view(f.attr), rows: rows_view(f.rows@) }
}

/// The model of a table.
pub open spec fn table_view(t: Table) -> TableView
    decreases t,
{
    TableView {
        attr: attr_view(t.attr),
        caption: caption_view(t.caption),
        colspecs: t.colspecs@,
        head: table_head_view(t.head),
        bodies: table_bodies_view(t.bodies@),
        foot: table_foot_view(t.foot),
    }
}

/// The model of a metadata value.
pub open spec fn meta_value_view(m: MetaValue) -> MetaValueView
    decreases m,
{
    match m {
        MetaValue::MetaMap(map) => MetaValueView::MetaMap(meta_view(map)),
        MetaValue::MetaList(l) => MetaValueView::MetaList(meta_values_view(l@)),
        MetaValue::MetaBool(b) => MetaValueView::MetaBool(b),
        MetaValue::MetaString(s) => MetaValueView::MetaString(s@),
        MetaValue::MetaInlines(v) => MetaValueView::MetaInlines(inlines_view(v@)),
        MetaValue::MetaBlocks(v) => MetaValueView::MetaBlocks(blocks_view(v@)),
    }
}

/// The model of a list of metadata values.
pub open spec fn meta_values_view(s: Seq<MetaValue>) -> Seq<MetaValueView>
    decreases s,
{
    Seq::new(
        s.len(),
        |k: int|
            if 0 <= k < s.len() {
                meta_value_view(s[k])
            } else {
                arbitrary()
            },
    )
}

/// The model of the entries of a metadata mapping.
pub open spec fn meta_entries_view(s: Seq<(String, MetaValue)>) -> Seq<(Seq<char>, MetaValueView)>
    decreases s,
{
    Seq::new(
        s.len(),
        |k: int|
            if 0 <= k < s.len() {
                (s[k].0@, meta_value_view(s[k].1))
            } else {
                arbitrary()
            },
    )
}

/// The model of a metadata mapping.
pub open spec fn meta_view(m: Meta) -> MetaView
    decreases m,
{
    MetaView { entries: meta_entries_view(m.entries@) }
}

/// The model of a document.
pub open spec fn pandoc_view(p: Pandoc) -> PandocView {
    PandocView { blocks: blocks_view(p.blocks@), meta: meta_view(p.meta) }
}

/// Whether some entry has the key.
pub open spec fn has_key(entries: Seq<(Seq<char>, MetaValueView)>, key: Seq<char>) -> bool {
    exists|i: int| 0 <= i < entries.len() && (#[trigger] entries[i]).0 == key
}

/// The place of the first entry with the key. Meant for entries that have it.
pub open spec fn key_index(entries: Seq<(Seq<char>, MetaValueView)>, key: Seq<char>) -> int {
    choose|i: int|
        0 <= i < entries.len() && (#[trigger] entries[i]).0 == key && forall|k: int|
            0 <= k < i ==> (#[trigger] entries[k]).0 != key
}

/// No key occurs twice.
pub open spec fn keys_distinct(entries: Seq<(Seq<char>, MetaValueView)>) -> bool {
    forall|a: int, b: int|
        0 <= a < b < entries.len() ==> (#[trigger] entries[a]).0 != (#[trigger] entries[b]).0
}

/// The entries with `value` under `key`: in place of the value that was
/// there, or at the end where the key is new.
pub open spec fn meta_insert(
    entries: Seq<(Seq<char>, MetaValueView)>,
    key: Seq<char>,
    value: MetaValueView,
) -> Seq<(Seq<char>, MetaValueView)> {
    if has_key(entries, key) {
        entries.update(key_index(entries, key), (key, value))
    } else {
        entries.push((key, value))
    }
}

impl MetaValueView {
    /// No metadata mapping inside this value has a key twice.
    pub open spec fn wf(self) -> bool
        decreases self,
    {
        match self {
            MetaValueView::MetaMap(m) => m.wf(),
            MetaValueView::MetaList(l) => forall|k: int|
                0 <= k < l.len() ==> (#[trigger] l[k]).wf(),
            _ => true,
        }
    }
}

impl MetaView {
    /// No key occurs twice, here or in a mapping further down.
    pub open spec fn wf(self) -> bool
        decreases self,
    {
        &&& keys_distinct(self.entries)
        &&& forall|k: int| 0 <= k < self.entries.len() ==> (#[trigger] self.entries[k]).1.wf()
    }

    /// The mapping that the entries stand for.
    pub open spec fn as_map(self) -> Map<Seq<char>, MetaValueView> {
        Map::new(
            |key: Seq<char>| has_key(self.entries, key),
            |key: Seq<char>| self.entries[key_index(self.entries, key)].1,
        )
    }
}

/// Whether two metadata values are the same, the order of the entries of
/// the mappings in them apart.
pub open spec fn meta_value_same(x: MetaValueView, y: MetaValueView) -> bool
    decreases x,
{
    match x {
        MetaValueView::MetaMap(a) => y is MetaMap && meta_same(a, y->MetaMap_0),
        MetaValueView::MetaList(a) => y is MetaList && a.len() == y->MetaList_0.len()
            && forall|k: int|
            0 <= k < a.len() ==> meta_value_same(#[trigger] a[k], y->MetaList_0[k]),
        _ => x == y,
    }
}

/// Whether two metadata mappings are the same mapping: they have as many
/// entries, and what the one has under a key the other has under it too.
/// The order of the entries plays no part. It is meant for mappings without
/// repeated keys.
pub open spec fn meta_same(a: MetaView, b: MetaView) -> bool
    decreases a,
{
    a.entries.len() == b.entries.len() && forall|k: int|
        0 <= k < a.entries.len() ==> has_key(b.entries, (#[trigger] a.entries[k]).0)
            && meta_value_same(a.entries[k].1, b.entries[key_index(b.entries, a.entries[k].0)].1)
}

impl PandocView {
    /// Whether two documents are the same: the same blocks in the same
    /// order, and the same metadata mapping.
    pub open spec fn same(self, other: PandocView) -> bool {
        self.blocks == other.blocks && meta_same(self.meta, other.meta)
    }
}

impl PandocView {
    /// The metadata has no key twice.
    pub open spec fn wf(self) -> bool {
        self.meta.wf()
    }
}

impl View for Attr {
    type V = AttrView;

    open spec fn view(&self) -> AttrView {
        attr_view(*self)
    }
}

impl View for Target {
    type V = TargetView;

    open spec fn view(&self) -> TargetView {
        target_view(*self)
    }
}

impl View for Format {
    type V = Seq<char>;

    open spec fn view(&self) -> Seq<char> {
        self.0@
    }
}

impl View for Citation {
    type V = CitationView;

    open spec fn view(&self) -> CitationView {
        citation_view(*self)
    }
}

impl View for Inline {
    type V = InlineView;

    open spec fn view(&self) -> InlineView {
        inline_view(*self)
    }
}

impl View for Block {
    type V = BlockView;

    open spec fn view(&self) -> BlockView {
        block_view(*self)
    }
}

impl View for Caption {
    type V = CaptionView;

    open spec fn view(&self) -> CaptionView {
        caption_view(*self)
    }
}

impl View for Cell {
    type V = CellView;

    open spec fn view(&self) -> CellView {
        cell_view(*self)
    }
}

impl View for Row {
    type V = RowView;

    open spec fn view(&self) -> RowView {
        row_view(*self)
    }
}

impl View for TableHead {
    type V = TableHeadView;

    open spec fn view(&self) -> TableHeadView {
        table_head_view(*self)
    }
}

impl View for TableBody {
    type V = TableBodyView;

    open spec fn view(&self) -> TableBodyView {
        table_body_view(*self)
    }
}

impl View for TableFoot {
    type V = TableFootView;

    open spec fn view(&self) -> TableFootView {
        table_foot_view(*self)
    }
}

impl View for Table {
    type V = TableView;

    open spec fn view(&self) -> TableView {
        table_view(*self)
    }
}

impl View for MetaValue {
    type V = MetaValueView;

    open spec fn view(&self) -> MetaValueView {
        meta_value_view(*self)
    }
}

impl View for Meta {
    type V = MetaView;

    open spec fn view(&self) -> MetaView {
        meta_view(*self)
    }
}

impl View for Pandoc {
    type V = PandocView;

    open spec fn view(&self) -> PandocView {
        pandoc_view(*self)
    }
}

} // verus!
