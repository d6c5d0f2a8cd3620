//! Equality of documents and of their parts.
//!
//! Two values are equal where they have the same model: every node and
//! every scalar alike, and every list in the same order. Metadata mappings
//! are equal where they are the same mapping, whatever the order of their
//! entries.

use crate::definition::view::block_lists_view;
use crate::definition::view::blocks_view;
use crate::definition::view::cells_view;
use crate::definition::view::citations_view;
use crate::definition::view::definitions_view;
use crate::definition::view::inline_lists_view;
use crate::definition::view::inlines_view;
use crate::definition::view::key_index;
use crate::definition::view::has_key;
use crate::definition::view::meta_entries_view;
use crate::definition::view::meta_same;
use crate::definition::view::meta_value_same;
use crate::definition::view::meta_values_view;
use crate::definition::view::pairs_view;
use crate::definition::view::rows_view;
use crate::definition::view::strings_view;
use crate::definition::view::table_bodies_view;
use crate::definition::Attr;
use crate::definition::Block;
use crate::definition::Caption;
use crate::definition::Cell;
use crate::definition::Citation;
use crate::definition::ColSpec;
use crate::definition::Format;
use crate::definition::Inline;
use crate::definition::Meta;
use crate::definition::MetaValue;
use crate::definition::Pandoc;
use crate::definition::Row;
use crate::definition::Table;
use crate::definition::TableBody;
use crate::definition::TableFoot;
use crate::definition::TableHead;
use crate::definition::Target;
use crate::text::str_eq;
use vstd::prelude::*;
use vstd::std_specs::cmp::PartialEqSpecImpl;

verus! {

/// Whether two lists of strings are equal.
pub fn eq_strings(a: &Vec<String>, b: &Vec<String>) -> (r: bool)
    ensures
        r == (strings_view(a@) == strings_view(b@)),
{
    if a.len() != b.len() {
        proof {
            assert(strings_view(a@).len() != strings_view(b@).len());
        }
        return false;
    }
    let mut i: usize = 0;
    while i < a.len()
        invariant
            i <= a.len(),
            a.len() == b.len(),
            forall|k: int| 0 <= k < i ==> (#[trigger] a@[k])@ == b@[k]@,
        decreases a.len() - i,
    {
        if !(str_eq(a[i].as_str(), b[i].as_str())) {
            proof {
                assert(strings_view(a@)[i as int] != strings_view(b@)[i as int]);
            }
            return false;
        }
        i += 1;
    }
    proof {
        assert(strings_view(a@) =~= strings_view(b@));
    }
    true
}

/// Whether two lists of pairs of strings are equal.
pub fn eq_pairs(a: &Vec<(String, String)>, b: &Vec<(String, String)>) -> (r: bool)
    ensures
        r == (pairs_view(a@) == pairs_view(b@)),
{
    if a.len() != b.len() {
        proof {
            assert(pairs_view(a@).len() != pairs_view(b@).len());
        }
        return false;
    }
    let mut i: usize = 0;
    while i < a.len()
        invariant
            i <= a.len(),
            a.len() == b.len(),
            forall|k: int| 0 <= k < i ==> ((#[trigger] a@[k]).0@, a@[k].1@) == (b@[k].0@, b@[k].1@),
        decreases a.len() - i,
    {
        if !(str_eq(a[i].0.as_str(), b[i].0.as_str()) && str_eq(a[i].1.as_str(), b[i].1.as_str())) {
            proof {
                assert(pairs_view(a@)[i as int] != pairs_view(b@)[i as int]);
            }
            return false;
        }
        i += 1;
    }
    proof {
        assert(pairs_view(a@) =~= pairs_view(b@));
    }
    true
}

/// Whether two lists of column specifications are equal.
pub fn eq_col_specs(a: &Vec<ColSpec>, b: &Vec<ColSpec>) -> (r: bool)
    ensures
        r == (a@ == b@),
{
    if a.len() != b.len() {
        proof {
            assert(a@.len() != b@.len());
        }
        return false;
    }
    let mut i: usize = 0;
    while i < a.len()
        invariant
            i <= a.len(),
            a.len() == b.len(),
            forall|k: int| 0 <= k < i ==> (#[trigger] a@[k]) == b@[k],
        decreases a.len() - i,
    {
        if !(a[i] == b[i]) {
            proof {
                assert(a@[i as int] != b@[i as int]);
            }
            return false;
        }
        i += 1;
    }
    proof {
        assert(a@ =~= b@);
    }
    true
}

/// Whether two sets of attributes are equal.
pub fn eq_attr(a: &Attr, b: &Attr) -> (r: bool)
    ensures
        r == (a@ == b@),
{
    str_eq(a.identifier.as_str(), b.identifier.as_str()) && eq_strings(&a.classes, &b.classes)
        && eq_pairs(&a.attributes, &b.attributes)
}

/// Whether two targets are equal.
pub fn eq_target(a: &Target, b: &Target) -> (r: bool)
    ensures
        r == (a@ == b@),
{
    str_eq(a.url.as_str(), b.url.as_str()) && str_eq(a.title.as_str(), b.title.as_str())
}

/// Whether two inlines are equal.
pub fn eq_inline(a: &Inline, b: &Inline) -> (r: bool)
    ensures
        r == (a@ == b@),
    decreases a,
{
    match (a, b) {
        (Inline::Str(x0), Inline::Str(y0)) => str_eq(x0.as_str(), y0.as_str()),
        (Inline::Emph(x0), Inline::Emph(y0)) => eq_inlines(x0, y0),
        (Inline::Underline(x0), Inline::Underline(y0)) => eq_inlines(x0, y0),
        (Inline::Strong(x0), Inline::Strong(y0)) => eq_inlines(x0, y0),
        (Inline::Strikeout(x0), Inline::Strikeout(y0)) => eq_inlines(x0, y0),
        (Inline::Superscript(x0), Inline::Superscript(y0)) => eq_inlines(x0, y0),
        (Inline::Subscript(x0), Inline::Subscript(y0)) => eq_inlines(x0, y0),
        (Inline::SmallCaps(x0), Inline::SmallCaps(y0)) => eq_inlines(x0, y0),
        (Inline::Quoted(x0, x1), Inline::Quoted(y0, y1)) => *x0 == *y0 && eq_inlines(x1, y1),
        (Inline::Cite(x0, x1), Inline::Cite(y0, y1)) => eq_citations(x0, y0) && eq_inlines(x1, y1),
        (Inline::Code(x0, x1), Inline::Code(y0, y1)) => eq_attr(x0, y0) && str_eq(x1.as_str(), y1.as_str()),
        (Inline::Space, Inline::Space) => true,
        (Inline::SoftBreak, Inline::SoftBreak) => true,
        (Inline::LineBreak, Inline::LineBreak) => true,
        (Inline::Math(x0, x1), Inline::Math(y0, y1)) => *x0 == *y0 && str_eq(x1.as_str(), y1.as_str()),
        (Inline::RawInline(x0, x1), Inline::RawInline(y0, y1))
            => str_eq(x0.0.as_str(), y0.0.as_str()) && str_eq(x1.as_str(), y1.as_str()),
        (Inline::Link(x0, x1, x2), Inline::Link(y0, y1, y2)) => eq_attr(x0, y0)
            && eq_inlines(x1, y1) && eq_target(x2, y2),
        (Inline::Image(x0, x1, x2), Inline::Image(y0, y1, y2)) => eq_attr(x0, y0)
            && eq_inlines(x1, y1) && eq_target(x2, y2),
        (Inline::Note(x0), Inline::Note(y0)) => eq_blocks(x0, y0),
        (Inline::Span(x0, x1), Inline::Span(y0, y1)) => eq_attr(x0, y0) && eq_inlines(x1, y1),
        _ => false,
    }
}

/// Whether two lists of inlines are equal.
pub fn eq_inlines(a: &Vec<Inline>, b: &Vec<Inline>) -> (r: bool)
    ensures
        r == (inlines_view(a@) == inlines_view(b@)),
    decreases a,
{
    if a.len() != b.len() {
        proof {
            assert(inlines_view(a@).len() != inlines_view(b@).len());
        }
        return false;
    }
    let mut i: usize = 0;
    while i < a.len()
        invariant
            i <= a.len(),
            a.len() == b.len(),
            forall|k: int| 0 <= k < i ==> (#[trigger] a@[k])@ == b@[k]@,
        decreases a.len() - i,
    {
        if !(eq_inline(&a[i], &b[i])) {
            proof {
                assert(inlines_view(a@)[i as int] != inlines_view(b@)[i as int]);
            }
            return false;
        }
        i += 1;
    }
    proof {
        assert(inlines_view(a@) =~= inlines_view(b@));
    }
    true
}

/// Whether two lists of lists of inlines are equal.
pub fn eq_inline_lists(a: &Vec<Vec<Inline>>, b: &Vec<Vec<Inline>>) -> (r: bool)
    ensures
        r == (inline_lists_view(a@) == inline_lists_view(b@)),
    decreases a,
{
    if a.len() != b.len() {
        proof {
            assert(inline_lists_view(a@).len() != inline_lists_view(b@).len());
        }
        return false;
    }
    let mut i: usize = 0;
    while i < a.len()
        invariant
            i <= a.len(),
            a.len() == b.len(),
            forall|k: int| 0 <= k < i ==> inlines_view((#[trigger] a@[k])@) == inlines_view(b@[k]@),
        decreases a.len() - i,
    {
        if !(eq_inlines(&a[i], &b[i])) {
            proof {
                assert(inline_lists_view(a@)[i as int] != inline_lists_view(b@)[i as int]);
            }
            return false;
        }
        i += 1;
    }
    proof {
        assert(inline_lists_view(a@) =~= inline_lists_view(b@));
    }
    true
}

/// Whether two citations are equal.
pub fn eq_citation(a: &Citation, b: &Citation) -> (r: bool)
    ensures
        r == (a@ == b@),
    decreases a,
{
    str_eq(a.citation_id.as_str(), b.citation_id.as_str()) && eq_inlines(
        &a.citation_prefix,
        &b.citation_prefix,
    ) && eq_inlines(&a.citation_suffix, &b.citation_suffix) && a.citation_mode == b.citation_mode
        && a.citation_note_num == b.citation_note_num && a.citation_hash == b.citation_hash
}

/// Whether two lists of citations are equal.
pub fn eq_citations(a: &Vec<Citation>, b: &Vec<Citation>) -> (r: bool)
    ensures
        r == (citations_view(a@) == citations_view(b@)),
    decreases a,
{
    if a.len() != b.len() {
        proof {
            assert(citations_view(a@).len() != citations_view(b@).len());
        }
        return false;
    }
    let mut i: usize = 0;
    while i < a.len()
        invariant
            i <= a.len(),
            a.len() == b.len(),
            forall|k: int| 0 <= k < i ==> (#[trigger] a@[k])@ == b@[k]@,
        decreases a.len() - i,
    {
        if !(eq_citation(&a[i], &b[i])) {
            proof {
                assert(citations_view(a@)[i as int] != citations_view(b@)[i as int]);
            }
            return false;
        }
        i += 1;
    }
    proof {
        assert(citations_view(a@) =~= citations_view(b@));
    }
    true
}

/// Whether two blocks are equal.
pub fn eq_block(a: &Block, b: &Block) -> (r: bool)
    ensures
        r == (a@ == b@),
    decreases a,
{
    match (a, b) {
        (Block::Plain(x0), Block::Plain(y0)) => eq_inlines(x0, y0),
        (Block::Para(x0), Block::Para(y0)) => eq_inlines(x0, y0),
        (Block::LineBlock(x0), Block::LineBlock(y0)) => eq_inline_lists(x0, y0),
        (Block::CodeBlock(x0, x1), Block::CodeBlock(y0, y1)) => eq_attr(x0, y0)
            && str_eq(x1.as_str(), y1.as_str()),
        (Block::RawBlock(x0, x1), Block::RawBlock(y0, y1))
            => str_eq(x0.0.as_str(), y0.0.as_str()) && str_eq(x1.as_str(), y1.as_str()),
        (Block::BlockQuote(x0), Block::BlockQuote(y0)) => eq_blocks(x0, y0),
        (Block::OrderedList(x0, x1), Block::OrderedList(y0, y1)) => *x0 == *y0 && eq_block_lists(x1, y1),
        (Block::BulletList(x0), Block::BulletList(y0)) => eq_block_lists(x0, y0),
        (Block::DefinitionList(x0), Block::DefinitionList(y0)) => eq_definitions(x0, y0),
        (Block::Header(x0, x1, x2), Block::Header(y0, y1, y2)) => *x0 == *y0 && eq_attr(x1, y1)
            && eq_inlines(x2, y2),
        (Block::HorizontalRule, Block::HorizontalRule) => true,
        (Block::Table(x0), Block::Table(y0)) => eq_table(x0, y0),
        (Block::Figure(x0, x1, x2), Block::Figure(y0, y1, y2)) => eq_attr(x0, y0)
            && eq_caption(x1, y1) && eq_blocks(x2, y2),
        (Block::Div(x0, x1), Block::Div(y0, y1)) => eq_attr(x0, y0) && eq_blocks(x1, y1),
        (Block::Null, Block::Null) => true,
        _ => false,
    }
}

/// Whether two lists of blocks are equal.
pub fn eq_blocks(a: &Vec<Block>, b: &Vec<Block>) -> (r: bool)
    ensures
        r == (blocks_view(a@) == blocks_view(b@)),
    decreases a,
{
    if a.len() != b.len() {
        proof {
            assert(blocks_view(a@).len() != blocks_view(b@).len());
        }
        return false;
    }
    let mut i: usize = 0;
    while i < a.len()
        invariant
            i <= a.len(),
            a.len() == b.len(),
            forall|k: int| 0 <= k < i ==> (#[trigger] a@[k])@ == b@[k]@,
        decreases a.len() - i,
    {
        if !(eq_block(&a[i], &b[i])) {
            proof {
                assert(blocks_view(a@)[i as int] != blocks_view(b@)[i as int]);
            }
            return false;
        }
        i += 1;
    }
    proof {
        assert(blocks_view(a@) =~= blocks_view(b@));
    }
    true
}

/// Whether two lists of lists of blocks are equal.
pub fn eq_block_lists(a: &Vec<Vec<Block>>, b: &Vec<Vec<Block>>) -> (r: bool)
    ensures
        r == (block_lists_view(a@) == block_lists_view(b@)),
    decreases a,
{
    if a.len() != b.len() {
        proof {
            assert(block_lists_view(a@).len() != block_lists_view(b@).len());
        }
        return false;
    }
    let mut i: usize = 0;
    while i < a.len()
        invariant
            i <= a.len(),
            a.len() == b.len(),
            forall|k: int| 0 <= k < i ==> blocks_view((#[trigger] a@[k])@) == blocks_view(b@[k]@),
        decreases a.len() - i,
    {
        if !(eq_blocks(&a[i], &b[i])) {
            proof {
                assert(block_lists_view(a@)[i as int] != block_lists_view(b@)[i as int]);
            }
            return false;
        }
        i += 1;
    }
    proof {
        assert(block_lists_view(a@) =~= block_lists_view(b@));
    }
    true
}

/// Whether two lists of terms with their definitions are equal.
pub fn eq_definitions(a: &Vec<(Vec<Inline>, Vec<Vec<Block>>)>, b: &Vec<(Vec<Inline>,
    Vec<Vec<Block>>)>) -> (r: bool)
    ensures
        r == (definitions_view(a@) == definitions_view(b@)),
    decreases a,
{
    if a.len() != b.len() {
        proof {
            assert(definitions_view(a@).len() != definitions_view(b@).len());
        }
        return false;
    }
    let mut i: usize = 0;
    while i < a.len()
        invariant
            i <= a.len(),
            a.len() == b.len(),
            forall|k: int| 0 <= k < i
                ==> (inlines_view((#[trigger] a@[k]).0@), block_lists_view(a@[k].1@))
                    == (inlines_view(b@[k].0@), block_lists_view(b@[k].1@)),
        decreases a.len() - i,
    {
        if !(eq_inlines(&a[i].0, &b[i].0) && eq_block_lists(&a[i].1, &b[i].1)) {
            proof {
                assert(definitions_view(a@)[i as int] != definitions_view(b@)[i as int]);
            }
            return false;
        }
        i += 1;
    }
    proof {
        assert(definitions_view(a@) =~= definitions_view(b@));
    }
    true
}

/// Whether two captions are equal.
pub fn eq_caption(a: &Caption, b: &Caption) -> (r: bool)
    ensures
        r == (a@ == b@),
    decreases a,
{
    let short = match (&a.short, &b.short) {
        (Some(x), Some(y)) => eq_inlines(x, y),
        (None, None) => true,
        _ => false,
    };
    short && eq_blocks(&a.long, &b.long)
}

/// Whether two cells are equal.
pub fn eq_cell(a: &Cell, b: &Cell) -> (r: bool)
    ensures
        r == (a@ == b@),
    decreases a,
{
    eq_attr(&a.attr, &b.attr) && a.align == b.align && a.row_span == b.row_span && a.col_span
        == b.col_span && eq_blocks(&a.content, &b.content)
}

/// Whether two lists of cells are equal.
pub fn eq_cells(a: &Vec<Cell>, b: &Vec<Cell>) -> (r: bool)
    ensures
        r == (cells_view(a@) == cells_view(b@)),
    decreases a,
{
    if a.len() != b.len() {
        proof {
            assert(cells_view(a@).len() != cells_view(b@).len());
        }
        return false;
    }
    let mut i: usize = 0;
    while i < a.len()
        invariant
            i <= a.len(),
            a.len() == b.len(),
            forall|k: int| 0 <= k < i ==> (#[trigger] a@[k])@ == b@[k]@,
        decreases a.len() - i,
    {
        if !(eq_cell(&a[i], &b[i])) {
            proof {
                assert(cells_view(a@)[i as int] != cells_view(b@)[i as int]);
            }
            return false;
        }
        i += 1;
    }
    proof {
        assert(cells_view(a@) =~= cells_view(b@));
    }
    true
}

/// Whether two rows are equal.
pub fn eq_row(a: &Row, b: &Row) -> (r: bool)
    ensures
        r == (a@ == b@),
    decreases a,
{
    eq_attr(&a.attr, &b.attr) && eq_cells(&a.cells, &b.cells)
}

/// Whether two lists of rows are equal.
pub fn eq_rows(a: &Vec<Row>, b: &Vec<Row>) -> (r: bool)
    ensures
        r == (rows_view(a@) == rows_view(b@)),
    decreases a,
{
    if a.len() != b.len() {
        proof {
            assert(rows_view(a@).len() != rows_view(b@).len());
        }
        return false;
    }
    let mut i: usize = 0;
    while i < a.len()
        invariant
            i <= a.len(),
            a.len() == b.len(),
            forall|k: int| 0 <= k < i ==> (#[trigger] a@[k])@ == b@[k]@,
        decreases a.len() - i,
    {
        if !(eq_row(&a[i], &b[i])) {
            proof {
                assert(rows_view(a@)[i as int] != rows_view(b@)[i as int]);
            }
            return false;
        }
        i += 1;
    }
    proof {
        assert(rows_view(a@) =~= rows_view(b@));
    }
    true
}

/// Whether two table bodies are equal.
pub fn eq_table_body(a: &TableBody, b: &TableBody) -> (r: bool)
    ensures
        r == (a@ == b@),
    decreases a,
{
    eq_attr(&a.attr, &b.attr) && a.row_head_columns == b.row_head_columns && eq_rows(
        &a.head,
        &b.head,
    ) && eq_rows(&a.body, &b.body)
}

/// Whether two lists of table bodies are equal.
pub fn eq_table_bodies(a: &Vec<TableBody>, b: &Vec<TableBody>) -> (r: bool)
    ensures
        r == (table_bodies_view(a@) == table_bodies_view(b@)),
    decreases a,
{
    if a.len() != b.len() {
        proof {
            assert(table_bodies_view(a@).len() != table_bodies_view(b@).len());
        }
        return false;
    }
    let mut i: usize = 0;
    while i < a.len()
        invariant
            i <= a.len(),
            a.len() == b.len(),
            forall|k: int| 0 <= k < i ==> (#[trigger] a@[k])@ == b@[k]@,
        decreases a.len() - i,
    {
        if !(eq_table_body(&a[i], &b[i])) {
            proof {
                assert(table_bodies_view(a@)[i as int] != table_bodies_view(b@)[i as int]);
            }
            return false;
        }
        i += 1;
    }
    proof {
        assert(table_bodies_view(a@) =~= table_bodies_view(b@));
    }
    true
}

/// Whether two tables are equal.
pub fn eq_table(a: &Table, b: &Table) -> (r: bool)
    ensures
        r == (a@ == b@),
    decreases a,
{
    let head = eq_attr(&a.head.attr, &b.head.attr) && eq_rows(&a.head.rows, &b.head.rows);
    let foot = eq_attr(&a.foot.attr, &b.foot.attr) && eq_rows(&a.foot.rows, &b.foot.rows);
    proof {
        assert(head == (a.head@ == b.head@));
        assert(foot == (a.foot@ == b.foot@));
    }
    eq_attr(&a.attr, &b.attr) && eq_caption(&a.caption, &b.caption) && eq_col_specs(
        &a.colspecs,
        &b.colspecs,
    ) && head && eq_table_bodies(&a.bodies, &b.bodies) && foot
}

/// Whether two metadata values are equal, the order of the entries of the
/// mappings in them apart.
pub fn eq_meta_value(a: &MetaValue, b: &MetaValue) -> (r: bool)
    ensures
        r == meta_value_same(a@, b@),
    decreases a,
{
    match (a, b) {
        (MetaValue::MetaMap(x), MetaValue::MetaMap(y)) => eq_meta(x, y),
        (MetaValue::MetaList(x), MetaValue::MetaList(y)) => {
            let ghost xs = meta_values_view(x@);
            let ghost ys = meta_values_view(y@);
            proof {
                assert(a@->MetaList_0 == xs);
                assert(b@->MetaList_0 == ys);
            }
            if x.len() != y.len() {
                return false;
            }
            let mut i: usize = 0;
            while i < x.len()
                invariant
                    i <= x.len(),
                    x.len() == y.len(),
                    decreases_to!(a => x),
                    xs == meta_values_view(x@),
                    ys == meta_values_view(y@),
                    a@ is MetaList,
                    b@ is MetaList,
                    a@->MetaList_0 == xs,
                    b@->MetaList_0 == ys,
                    forall|k: int| 0 <= k < i ==> meta_value_same(#[trigger] xs[k], ys[k]),
                decreases x.len() - i,
            {
                if !eq_meta_value(&x[i], &y[i]) {
                    proof {
                        assert(!meta_value_same(a@->MetaList_0[i as int], b@->MetaList_0[i as int]));
                    }
                    return false;
                }
                i += 1;
            }
            proof {
                assert forall|k: int| 0 <= k < a@->MetaList_0.len() implies meta_value_same(
                    #[trigger] a@->MetaList_0[k],
                    b@->MetaList_0[k],
                ) by {
                    assert(meta_value_same(xs[k], ys[k]));
                }
            }
            true
        },
        (MetaValue::MetaBool(x), MetaValue::MetaBool(y)) => *x == *y,
        (MetaValue::MetaString(x), MetaValue::MetaString(y)) => str_eq(x.as_str(), y.as_str()),
        (MetaValue::MetaInlines(x), MetaValue::MetaInlines(y)) => eq_inlines(x, y),
        (MetaValue::MetaBlocks(x), MetaValue::MetaBlocks(y)) => eq_blocks(x, y),
        _ => false,
    }
}

/// Whether two metadata mappings are the same mapping, whatever the order
/// of their entries.
pub fn eq_meta(a: &Meta, b: &Meta) -> (r: bool)
    ensures
        r == meta_same(a@, b@),
    decreases a,
{
    let x = &a.entries;
    if x.len() != b.entries.len() {
        proof {
            assert(a@.entries.len() != b@.entries.len());
        }
        return false;
    }
    let ghost xs = a@.entries;
    let ghost ys = b@.entries;
    let mut i: usize = 0;
    while i < x.len()
        invariant
            i <= x.len(),
            x.len() == b.entries.len(),
            decreases_to!(a => x),
            xs == meta_entries_view(x@),
            xs == a@.entries,
            ys == b@.entries,
            xs.len() == ys.len(),
            forall|k: int|
                0 <= k < i ==> has_key(ys, (#[trigger] xs[k]).0) && meta_value_same(
                    xs[k].1,
                    ys[key_index(ys, xs[k].0)].1,
                ),
        decreases x.len() - i,
    {
        match b.position(x[i].0.as_str()) {
            None => {
                proof {
                    assert(!has_key(ys, xs[i as int].0));
                }
                return false;
            },
            Some(j) => {
                if !eq_meta_value(&x[i].1, &b.entries[j].1) {
                    proof {
                        assert(ys[j as int].1 == b.entries@[j as int].1@);
                        assert(!meta_value_same(xs[i as int].1, ys[key_index(ys, xs[i as int].0)].1));
                    }
                    return false;
                }
                proof {
                    assert(ys[j as int].1 == b.entries@[j as int].1@);
                }
            },
        }
        i += 1;
    }
    true
}

impl PartialEq for Attr {
    fn eq(&self, other: &Attr) -> (r: bool) {
        eq_attr(self, other)
    }
}

impl PartialEqSpecImpl for Attr {
    open spec fn obeys_eq_spec() -> bool {
        true
    }

    open spec fn eq_spec(&self, other: &Attr) -> bool {
        self@ == other@
    }
}

impl PartialEq for Target {
    fn eq(&self, other: &Target) -> (r: bool) {
        eq_target(self, other)
    }
}

impl PartialEqSpecImpl for Target {
    open spec fn obeys_eq_spec() -> bool {
        true
    }

    open spec fn eq_spec(&self, other: &Target) -> bool {
        self@ == other@
    }
}

impl PartialEq for Inline {
    fn eq(&self, other: &Inline) -> (r: bool) {
        eq_inline(self, other)
    }
}

impl PartialEqSpecImpl for Inline {
    open spec fn obeys_eq_spec() -> bool {
        true
    }

    open spec fn eq_spec(&self, other: &Inline) -> bool {
        self@ == other@
    }
}

impl PartialEq for Citation {
    fn eq(&self, other: &Citation) -> (r: bool) {
        eq_citation(self, other)
    }
}

impl PartialEqSpecImpl for Citation {
    open spec fn obeys_eq_spec() -> bool {
        true
    }

    open spec fn eq_spec(&self, other: &Citation) -> bool {
        self@ == other@
    }
}

impl PartialEq for Block {
    fn eq(&self, other: &Block) -> (r: bool) {
        eq_block(self, other)
    }
}

impl PartialEqSpecImpl for Block {
    open spec fn obeys_eq_spec() -> bool {
        true
    }

    open spec fn eq_spec(&self, other: &Block) -> bool {
        self@ == other@
    }
}

impl PartialEq for Caption {
    fn eq(&self, other: &Caption) -> (r: bool) {
        eq_caption(self, other)
    }
}

impl PartialEqSpecImpl for Caption {
    open spec fn obeys_eq_spec() -> bool {
        true
    }

    open spec fn eq_spec(&self, other: &Caption) -> bool {
        self@ == other@
    }
}

impl PartialEq for Cell {
    fn eq(&self, other: &Cell) -> (r: bool) {
        eq_cell(self, other)
    }
}

impl PartialEqSpecImpl for Cell {
    open spec fn obeys_eq_spec() -> bool {
        true
    }

    open spec fn eq_spec(&self, other: &Cell) -> bool {
        self@ == other@
    }
}

impl PartialEq for Row {
    fn eq(&self, other: &Row) -> (r: bool) {
        eq_row(self, other)
    }
}

impl PartialEqSpecImpl for Row {
    open spec fn obeys_eq_spec() -> bool {
        true
    }

    open spec fn eq_spec(&self, other: &Row) -> bool {
        self@ == other@
    }
}

impl PartialEq for TableBody {
    fn eq(&self, other: &TableBody) -> (r: bool) {
        eq_table_body(self, other)
    }
}

impl PartialEqSpecImpl for TableBody {
    open spec fn obeys_eq_spec() -> bool {
        true
    }

    open spec fn eq_spec(&self, other: &TableBody) -> bool {
        self@ == other@
    }
}

impl PartialEq for Table {
    fn eq(&self, other: &Table) -> (r: bool) {
        eq_table(self, other)
    }
}

impl PartialEqSpecImpl for Table {
    open spec fn obeys_eq_spec() -> bool {
        true
    }

    open spec fn eq_spec(&self, other: &Table) -> bool {
        self@ == other@
    }
}

impl PartialEq for MetaValue {
    fn eq(&self, other: &MetaValue) -> (r: bool) {
        eq_meta_value(self, other)
    }
}

impl PartialEqSpecImpl for MetaValue {
    open spec fn obeys_eq_spec() -> bool {
        true
    }

    open spec fn eq_spec(&self, other: &MetaValue) -> bool {
        meta_value_same(self@, other@)
    }
}

impl PartialEq for Meta {
    fn eq(&self, other: &Meta) -> (r: bool) {
        eq_meta(self, other)
    }
}

impl PartialEqSpecImpl for Meta {
    open spec fn obeys_eq_spec() -> bool {
        true
    }

    open spec fn eq_spec(&self, other: &Meta) -> bool {
        meta_same(self@, other@)
    }
}

impl PartialEq for Format {
    fn eq(&self, other: &Format) -> (r: bool) {
        str_eq(self.0.as_str(), other.0.as_str())
    }
}

impl PartialEqSpecImpl for Format {
    open spec fn obeys_eq_spec() -> bool {
        true
    }

    open spec fn eq_spec(&self, other: &Format) -> bool {
        self@ == other@
    }
}

impl PartialEq for TableHead {
    fn eq(&self, other: &TableHead) -> (r: bool) {
        eq_attr(&self.attr, &other.attr) && eq_rows(&self.rows, &other.rows)
    }
}

impl PartialEqSpecImpl for TableHead {
    open spec fn obeys_eq_spec() -> bool {
        true
    }

    open spec fn eq_spec(&self, other: &TableHead) -> bool {
        self@ == other@
    }
}

impl PartialEq for TableFoot {
    fn eq(&self, other: &TableFoot) -> (r: bool) {
        eq_attr(&self.attr, &other.attr) && eq_rows(&self.rows, &other.rows)
    }
}

impl PartialEqSpecImpl for TableFoot {
    open spec fn obeys_eq_spec() -> bool {
        true
    }

    open spec fn eq_spec(&self, other: &TableFoot) -> bool {
        self@ == other@
    }
}

impl PartialEq for Pandoc {
    fn eq(&self, other: &Pandoc) -> (r: bool) {
        eq_blocks(&self.blocks, &other.blocks) && eq_meta(&self.meta, &other.meta)
    }
}

impl PartialEqSpecImpl for Pandoc {
    open spec fn obeys_eq_spec() -> bool {
        true
    }

    open spec fn eq_spec(&self, other: &Pandoc) -> bool {
        self@.same(other@)
    }
}

} // verus!
