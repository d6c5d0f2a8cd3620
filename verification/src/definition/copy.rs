//! Copies of documents and of their parts.
//!
//! A copy of a value is a new value with the same model: equal to the first
//! in every node and every scalar, and sharing nothing with it.

use crate::definition::view::block_lists_view;
use crate::definition::view::blocks_view;
use crate::definition::view::cells_view;
use crate::definition::view::citations_view;
use crate::definition::view::definitions_view;
use crate::definition::view::inline_lists_view;
use crate::definition::view::inlines_view;
use crate::definition::view::meta_entries_view;
use crate::definition::view::meta_values_view;
use crate::definition::view::pairs_view;
use crate::definition::view::rows_view;
use crate::definition::view::strings_view;
use crate::definition::view::table_bodies_view;
use crate::definition::Attr;
use crate::definition::Block;
use crate::definition::Caption;
use crate::definition::Cell;
use crate::definition::Citation;
use crate::definition::ColSpec;
use crate::definition::Format;
use crate::definition::Inline;
use crate::definition::Meta;
use crate::definition::MetaValue;
use crate::definition::Pandoc;
use crate::definition::Row;
use crate::definition::Table;
use crate::definition::TableBody;
use crate::definition::TableFoot;
use crate::definition::TableHead;
use crate::definition::Target;
use vstd::prelude::*;

verus! {

/// A copy of a list of strings.
pub fn clone_strings(v: &Vec<String>) -> (r: Vec<String>)
    ensures
        strings_view(r@) == strings_view(v@),
{
    let mut out: Vec<String> = Vec::new();
    let mut i: usize = 0;
    while i < v.len()
        invariant
            i <= v.len(),
            out@.len() == i,
            forall|k: int| 0 <= k < i ==> (#[trigger] out@[k])@ == v@[k]@,
        decreases v.len() - i,
    {
        let item = v[i].clone();
        out.push(item);
        i += 1;
    }
    proof {
        assert(strings_view(out@) =~= strings_view(v@));
    }
    out
}

/// A copy of a list of pairs of strings.
pub fn clone_pairs(v: &Vec<(String, String)>) -> (r: Vec<(String, String)>)
    ensures
        pairs_view(r@) == pairs_view(v@),
{
    let mut out: Vec<(String, String)> = Vec::new();
    let mut i: usize = 0;
    while i < v.len()
        invariant
            i <= v.len(),
            out@.len() == i,
            forall|k: int| 0 <= k < i ==> ((#[trigger] out@[k]).0@, out@[k].1@) == (v@[k].0@, v@[k].1@),
        decreases v.len() - i,
    {
        let item = (v[i].0.clone(), v[i].1.clone());
        out.push(item);
        i += 1;
    }
    proof {
        assert(pairs_view(out@) =~= pairs_view(v@));
    }
    out
}

/// A copy of a list of column specifications.
pub fn clone_col_specs(v: &Vec<ColSpec>) -> (r: Vec<ColSpec>)
    ensures
        r@ == v@,
{
    let mut out: Vec<ColSpec> = Vec::new();
    let mut i: usize = 0;
    while i < v.len()
        invariant
            i <= v.len(),
            out@.len() == i,
            forall|k: int| 0 <= k < i ==> (#[trigger] out@[k]) == v@[k],
        decreases v.len() - i,
    {
        out.push(v[i]);
        i += 1;
    }
    proof {
        assert(out@ =~= v@);
    }
    out
}

impl Clone for Attr {
    /// A copy with the same model.
    fn clone(&self) -> (r: Attr)
        ensures
            r@ == self@,
    {
        Attr {
            identifier: self.identifier.clone(),
            classes: clone_strings(&self.classes),
            attributes: clone_pairs(&self.attributes),
        }
    }
}

impl Clone for Target {
    /// A copy with the same model.
    fn clone(&self) -> (r: Target)
        ensures
            r@ == self@,
    {
        Target { url: self.url.clone(), title: self.title.clone() }
    }
}

impl Clone for Format {
    /// A copy with the same model.
    fn clone(&self) -> (r: Format)
        ensures
            r@ == self@,
    {
        Format(self.0.clone())
    }
}

/// A copy of an inline.
pub fn clone_inline(i: &Inline) -> (r: Inline)
    ensures
        r@ == i@,
    decreases i,
{
    match i {
        Inline::Str(s) => Inline::Str(s.clone()),
        Inline::Emph(v) => Inline::Emph(clone_inlines(v)),
        Inline::Underline(v) => Inline::Underline(clone_inlines(v)),
        Inline::Strong(v) => Inline::Strong(clone_inlines(v)),
        Inline::Strikeout(v) => Inline::Strikeout(clone_inlines(v)),
        Inline::Superscript(v) => Inline::Superscript(clone_inlines(v)),
        Inline::Subscript(v) => Inline::Subscript(clone_inlines(v)),
        Inline::SmallCaps(v) => Inline::SmallCaps(clone_inlines(v)),
        Inline::Quoted(q, v) => Inline::Quoted(*q, clone_inlines(v)),
        Inline::Cite(c, v) => Inline::Cite(clone_citations(c), clone_inlines(v)),
        Inline::Code(a, s) => Inline::Code(a.clone(), s.clone()),
        Inline::Space => Inline::Space,
        Inline::SoftBreak => Inline::SoftBreak,
        Inline::LineBreak => Inline::LineBreak,
        Inline::Math(m, s) => Inline::Math(*m, s.clone()),
        Inline::RawInline(f, s) => Inline::RawInline(f.clone(), s.clone()),
        Inline::Link(a, v, t) => Inline::Link(a.clone(), clone_inlines(v), t.clone()),
        Inline::Image(a, v, t) => Inline::Image(a.clone(), clone_inlines(v), t.clone()),
        Inline::Note(b) => Inline::Note(clone_blocks(b)),
        Inline::Span(a, v) => Inline::Span(a.clone(), clone_inlines(v)),
    }
}

/// A copy of a list of inlines.
pub fn clone_inlines(v: &Vec<Inline>) -> (r: Vec<Inline>)
    ensures
        inlines_view(r@) == inlines_view(v@),
    decreases v,
{
    let mut out: Vec<Inline> = Vec::new();
    let mut i: usize = 0;
    while i < v.len()
        invariant
            i <= v.len(),
            out@.len() == i,
            forall|k: int| 0 <= k < i ==> (#[trigger] out@[k])@ == v@[k]@,
        decreases v.len() - i,
    {
        let item = clone_inline(&v[i]);
        out.push(item);
        i += 1;
    }
    proof {
        assert(inlines_view(out@) =~= inlines_view(v@));
    }
    out
}

/// A copy of a list of lists of inlines.
pub fn clone_inline_lists(v: &Vec<Vec<Inline>>) -> (r: Vec<Vec<Inline>>)
    ensures
        inline_lists_view(r@) == inline_lists_view(v@),
    decreases v,
{
    let mut out: Vec<Vec<Inline>> = Vec::new();
    let mut i: usize = 0;
    while i < v.len()
        invariant
            i <= v.len(),
            out@.len() == i,
            forall|k: int| 0 <= k < i ==> inlines_view((#[trigger] out@[k])@) == inlines_view(v@[k]@),
        decreases v.len() - i,
    {
        let item = clone_inlines(&v[i]);
        out.push(item);
        i += 1;
    }
    proof {
        assert(inline_lists_view(out@) =~= inline_lists_view(v@));
    }
    out
}

/// A copy of a citation.
pub fn clone_citation(c: &Citation) -> (r: Citation)
    ensures
        r@ == c@,
    decreases c,
{
    Citation {
        citation_id: c.citation_id.clone(),
        citation_prefix: clone_inlines(&c.citation_prefix),
        citation_suffix: clone_inlines(&c.citation_suffix),
        citation_mode: c.citation_mode,
        citation_note_num: c.citation_note_num,
        citation_hash: c.citation_hash,
    }
}

/// A copy of a list of citations.
pub fn clone_citations(v: &Vec<Citation>) -> (r: Vec<Citation>)
    ensures
        citations_view(r@) == citations_view(v@),
    decreases v,
{
    let mut out: Vec<Citation> = Vec::new();
    let mut i: usize = 0;
    while i < v.len()
        invariant
            i <= v.len(),
            out@.len() == i,
            forall|k: int| 0 <= k < i ==> (#[trigger] out@[k])@ == v@[k]@,
        decreases v.len() - i,
    {
        let item = clone_citation(&v[i]);
        out.push(item);
        i += 1;
    }
    proof {
        assert(citations_view(out@) =~= citations_view(v@));
    }
    out
}

/// A copy of a block.
pub fn clone_block(b: &Block) -> (r: Block)
    ensures
        r@ == b@,
    decreases b,
{
    match b {
        Block::Plain(v) => Block::Plain(clone_inlines(v)),
        Block::Para(v) => Block::Para(clone_inlines(v)),
        Block::LineBlock(l) => Block::LineBlock(clone_inline_lists(l)),
        Block::CodeBlock(a, s) => Block::CodeBlock(a.clone(), s.clone()),
        Block::RawBlock(f, s) => Block::RawBlock(f.clone(), s.clone()),
        Block::BlockQuote(v) => Block::BlockQuote(clone_blocks(v)),
        Block::OrderedList(l, items) => Block::OrderedList(*l, clone_block_lists(items)),
        Block::BulletList(items) => Block::BulletList(clone_block_lists(items)),
        Block::DefinitionList(d) => Block::DefinitionList(clone_definitions(d)),
        Block::Header(n, a, v) => Block::Header(*n, a.clone(), clone_inlines(v)),
        Block::HorizontalRule => Block::HorizontalRule,
        Block::Table(t) => Block::Table(clone_table(t)),
        Block::Figure(a, c, v) => Block::Figure(a.clone(), clone_caption(c), clone_blocks(v)),
        Block::Div(a, v) => Block::Div(a.clone(), clone_blocks(v)),
        Block::Null => Block::Null,
    }
}

/// A copy of a list of blocks.
pub fn clone_blocks(v: &Vec<Block>) -> (r: Vec<Block>)
    ensures
        blocks_view(r@) == blocks_view(v@),
    decreases v,
{
    let mut out: Vec<Block> = Vec::new();
    let mut i: usize = 0;
    while i < v.len()
        invariant
            i <= v.len(),
            out@.len() == i,
            forall|k: int| 0 <= k < i ==> (#[trigger] out@[k])@ == v@[k]@,
        decreases v.len() - i,
    {
        let item = clone_block(&v[i]);
        out.push(item);
        i += 1;
    }
    proof {
        assert(blocks_view(out@) =~= blocks_view(v@));
    }
    out
}

/// A copy of a list of lists of blocks.
pub fn clone_block_lists(v: &Vec<Vec<Block>>) -> (r: Vec<Vec<Block>>)
    ensures
        block_lists_view(r@) == block_lists_view(v@),
    decreases v,
{
    let mut out: Vec<Vec<Block>> = Vec::new();
    let mut i: usize = 0;
    while i < v.len()
        invariant
            i <= v.len(),
            out@.len() == i,
            forall|k: int| 0 <= k < i ==> blocks_view((#[trigger] out@[k])@) == blocks_view(v@[k]@),
        decreases v.len() - i,
    {
        let item = clone_blocks(&v[i]);
        out.push(item);
        i += 1;
    }
    proof {
        assert(block_lists_view(out@) =~= block_lists_view(v@));
    }
    out
}

/// A copy of a list of terms with their definitions.
pub fn clone_definitions(v: &Vec<(Vec<Inline>, Vec<Vec<Block>>)>) -> (r: Vec<(Vec<Inline>, Vec<Vec<Block>>)>)
    ensures
        definitions_view(r@) == definitions_view(v@),
    decreases v,
{
    let mut out: Vec<(Vec<Inline>, Vec<Vec<Block>>)> = Vec::new();
    let mut i: usize = 0;
    while i < v.len()
        invariant
            i <= v.len(),
            out@.len() == i,
            forall|k: int| 0 <= k < i
                ==> (inlines_view((#[trigger] out@[k]).0@), block_lists_view(out@[k].1@))
                    == (inlines_view(v@[k].0@), block_lists_view(v@[k].1@)),
        decreases v.len() - i,
    {
        let item = (clone_inlines(&v[i].0), clone_block_lists(&v[i].1));
        out.push(item);
        i += 1;
    }
    proof {
        assert(definitions_view(out@) =~= definitions_view(v@));
    }
    out
}

/// A copy of a caption.
pub fn clone_caption(c: &Caption) -> (r: Caption)
    ensures
        r@ == c@,
    decreases c,
{
    Caption {
        short: match &c.short {
            Some(v) => Some(clone_inlines(v)),
            None => None,
        },
        long: clone_blocks(&c.long),
    }
}

/// A copy of a cell.
pub fn clone_cell(c: &Cell) -> (r: Cell)
    ensures
        r@ == c@,
    decreases c,
{
    Cell {
        attr: c.attr.clone(),
        align: c.align,
        row_span: c.row_span,
        col_span: c.col_span,
        content: clone_blocks(&c.content),
    }
}

/// A copy of a list of cells.
pub fn clone_cells(v: &Vec<Cell>) -> (r: Vec<Cell>)
    ensures
        cells_view(r@) == cells_view(v@),
    decreases v,
{
    let mut out: Vec<Cell> = Vec::new();
    let mut i: usize = 0;
    while i < v.len()
        invariant
            i <= v.len(),
            out@.len() == i,
            forall|k: int| 0 <= k < i ==> (#[trigger] out@[k])@ == v@[k]@,
        decreases v.len() - i,
    {
        let item = clone_cell(&v[i]);
        out.push(item);
        i += 1;
    }
    proof {
        assert(cells_view(out@) =~= cells_view(v@));
    }
    out
}

/// A copy of a row.
pub fn clone_row(row: &Row) -> (r: Row)
    ensures
        r@ == row@,
    decreases row,
{
    Row { attr: row.attr.clone(), cells: clone_cells(&row.cells) }
}

/// A copy of a list of rows.
pub fn clone_rows(v: &Vec<Row>) -> (r: Vec<Row>)
    ensures
        rows_view(r@) == rows_view(v@),
    decreases v,
{
    let mut out: Vec<Row> = Vec::new();
    let mut i: usize = 0;
    while i < v.len()
        invariant
            i <= v.len(),
            out@.len() == i,
            forall|k: int| 0 <= k < i ==> (#[trigger] out@[k])@ == v@[k]@,
        decreases v.len() - i,
    {
        let item = clone_row(&v[i]);
        out.push(item);
        i += 1;
    }
    proof {
        assert(rows_view(out@) =~= rows_view(v@));
    }
    out
}

/// A copy of a table body.
pub fn clone_table_body(b: &TableBody) -> (r: TableBody)
    ensures
        r@ == b@,
    decreases b,
{
    TableBody {
        attr: b.attr.clone(),
        row_head_columns: b.row_head_columns,
        head: clone_rows(&b.head),
        body: clone_rows(&b.body),
    }
}

/// A copy of a list of table bodies.
pub fn clone_table_bodies(v: &Vec<TableBody>) -> (r: Vec<TableBody>)
    ensures
        table_bodies_view(r@) == table_bodies_view(v@),
    decreases v,
{
    let mut out: Vec<TableBody> = Vec::new();
    let mut i: usize = 0;
    while i < v.len()
        invariant
            i <= v.len(),
            out@.len() == i,
            forall|k: int| 0 <= k < i ==> (#[trigger] out@[k])@ == v@[k]@,
        decreases v.len() - i,
    {
        let item = clone_table_body(&v[i]);
        out.push(item);
        i += 1;
    }
    proof {
        assert(table_bodies_view(out@) =~= table_bodies_view(v@));
    }
    out
}

/// A copy of a table.
pub fn clone_table(t: &Table) -> (r: Table)
    ensures
        r@ == t@,
    decreases t,
{
    Table {
        attr: t.attr.clone(),
        caption: clone_caption(&t.caption),
        colspecs: clone_col_specs(&t.colspecs),
        head: TableHead { attr: t.head.attr.clone(), rows: clone_rows(&t.head.rows) },
        bodies: clone_table_bodies(&t.bodies),
        foot: TableFoot { attr: t.foot.attr.clone(), rows: clone_rows(&t.foot.rows) },
    }
}

/// A copy of a metadata value.
pub fn clone_meta_value(m: &MetaValue) -> (r: MetaValue)
    ensures
        r@ == m@,
    decreases m,
{
    match m {
        MetaValue::MetaMap(map) => MetaValue::MetaMap(clone_meta(map)),
        MetaValue::MetaList(l) => MetaValue::MetaList(clone_meta_values(l)),
        MetaValue::MetaBool(b) => MetaValue::MetaBool(*b),
        MetaValue::MetaString(s) => MetaValue::MetaString(s.clone()),
        MetaValue::MetaInlines(v) => MetaValue::MetaInlines(clone_inlines(v)),
        MetaValue::MetaBlocks(v) => MetaValue::MetaBlocks(clone_blocks(v)),
    }
}

/// A copy of a list of metadata values.
pub fn clone_meta_values(v: &Vec<MetaValue>) -> (r: Vec<MetaValue>)
    ensures
        meta_values_view(r@) == meta_values_view(v@),
    decreases v,
{
    let mut out: Vec<MetaValue> = Vec::new();
    let mut i: usize = 0;
    while i < v.len()
        invariant
            i <= v.len(),
            out@.len() == i,
            forall|k: int| 0 <= k < i ==> (#[trigger] out@[k])@ == v@[k]@,
        decreases v.len() - i,
    {
        let item = clone_meta_value(&v[i]);
        out.push(item);
        i += 1;
    }
    proof {
        assert(meta_values_view(out@) =~= meta_values_view(v@));
    }
    out
}

/// A copy of a metadata mapping, entry for entry.
pub fn clone_meta(m: &Meta) -> (r: Meta)
    ensures
        r@ == m@,
    decreases m,
{
    let mut out: Vec<(String, MetaValue)> = Vec::new();
    let mut i: usize = 0;
    while i < m.entries.len()
        invariant
            i <= m.entries.len(),
            out@.len() == i,
            forall|k: int|
                0 <= k < i ==> (#[trigger] out@[k]).0@ == m.entries@[k].0@ && out@[k].1@
                    == m.entries@[k].1@,
        decreases m.entries.len() - i,
    {
        let key = m.entries[i].0.clone();
        let value = clone_meta_value(&m.entries[i].1);
        out.push((key, value));
        i += 1;
    }
    proof {
        assert(meta_entries_view(out@) =~= meta_entries_view(m.entries@));
    }
    Meta { entries: out }
}

impl Clone for Inline {
    /// A copy with the same model.
    fn clone(&self) -> (r: Inline)
        ensures
            r@ == self@,
    {
        clone_inline(self)
    }
}

impl Clone for Citation {
    /// A copy with the same model.
    fn clone(&self) -> (r: Citation)
        ensures
            r@ == self@,
    {
        clone_citation(self)
    }
}

impl Clone for Block {
    /// A copy with the same model.
    fn clone(&self) -> (r: Block)
        ensures
            r@ == self@,
    {
        clone_block(self)
    }
}

impl Clone for Caption {
    /// A copy with the same model.
    fn clone(&self) -> (r: Caption)
        ensures
            r@ == self@,
    {
        clone_caption(self)
    }
}

impl Clone for Cell {
    /// A copy with the same model.
    fn clone(&self) -> (r: Cell)
        ensures
            r@ == self@,
    {
        clone_cell(self)
    }
}

impl Clone for Row {
    /// A copy with the same model.
    fn clone(&self) -> (r: Row)
        ensures
            r@ == self@,
    {
        clone_row(self)
    }
}

impl Clone for TableBody {
    /// A copy with the same model.
    fn clone(&self) -> (r: TableBody)
        ensures
            r@ == self@,
    {
        clone_table_body(self)
    }
}

impl Clone for Table {
    /// A copy with the same model.
    fn clone(&self) -> (r: Table)
        ensures
            r@ == self@,
    {
        clone_table(self)
    }
}

impl Clone for MetaValue {
    /// A copy with the same model.
    fn clone(&self) -> (r: MetaValue)
        ensures
            r@ == self@,
    {
        clone_meta_value(self)
    }
}

impl Clone for Meta {
    /// A copy with the same model.
    fn clone(&self) -> (r: Meta)
        ensures
            r@ == self@,
    {
        clone_meta(self)
    }
}

impl Clone for TableHead {
    /// A copy with the same model.
    fn clone(&self) -> (r: TableHead)
        ensures
            r@ == self@,
    {
        TableHead { attr: self.attr.clone(), rows: clone_rows(&self.rows) }
    }
}

impl Clone for TableFoot {
    /// A copy with the same model.
    fn clone(&self) -> (r: TableFoot)
        ensures
            r@ == self@,
    {
        TableFoot { attr: self.attr.clone(), rows: clone_rows(&self.rows) }
    }
}

impl Clone for Pandoc {
    /// A copy with the same model.
    fn clone(&self) -> (r: Pandoc)
        ensures
            r@ == self@,
    {
        Pandoc { blocks: clone_blocks(&self.blocks), meta: clone_meta(&self.meta) }
    }
}

} // verus!
