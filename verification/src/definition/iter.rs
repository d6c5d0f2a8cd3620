//! Traversal of the document tree, one level at a time.
//!
//! A node hands out its child blocks and its child inlines, in document
//! order. Walking a whole tree is done by asking each child in turn.

use crate::definition::children::bodies_blocks;
use crate::definition::children::body_blocks;
use crate::definition::children::concat;
use crate::definition::children::definitions_blocks;
use crate::definition::children::definitions_inlines;
use crate::definition::children::lemma_concat_push;
use crate::definition::children::row_blocks;
use crate::definition::children::rows_blocks;
use crate::definition::children::null_blocks;
use crate::definition::children::space_inlines;
use crate::definition::handles::block_handles;
use crate::definition::handles::block_lists_handles;
use crate::definition::handles::block_muts_view;
use crate::definition::handles::bodies_handles;
use crate::definition::handles::definitions_handles;
use crate::definition::handles::inline_handles;
use crate::definition::handles::inline_muts_view;
use crate::definition::handles::rows_handles;
use crate::definition::handles::terms_handles;
use crate::definition::view::block_lists_view;
use crate::definition::view::blocks_view;
use crate::definition::view::cells_view;
use crate::definition::view::definitions_view;
use crate::definition::view::inlines_view;
use crate::definition::view::rows_view;
use crate::definition::view::table_bodies_view;
use crate::definition::view::BlockView;
use crate::definition::view::InlineView;
use crate::definition::Block;
use crate::definition::Inline;
use crate::definition::Pandoc;
use crate::definition::Row;
use crate::definition::Table;
use crate::definition::TableBody;
use vstd::prelude::*;

verus! {

/// The models of the blocks that are referred to.
pub open spec fn block_refs_view(s: Seq<&Block>) -> Seq<BlockView> {
    Seq::new(s.len(), |k: int| s[k]@)
}

/// The models of the inlines that are referred to.
pub open spec fn inline_refs_view(s: Seq<&Inline>) -> Seq<InlineView> {
    Seq::new(s.len(), |k: int| s[k]@)
}

/// A type whose values contain blocks one level down.
pub trait IterBlocks {
    /// The models of the immediately contained blocks, in document order.
    spec fn child_blocks(&self) -> Seq<BlockView>;

    /// Whether `self` and `other` are the same apart from what their child
    /// blocks are: they have as many of them, in lists of the same lengths,
    /// and everything else in them is equal.
    spec fn same_but_blocks(&self, other: &Self) -> bool;

    /// The immediately contained blocks, in document order.
    fn iter_blocks(&self) -> (r: Vec<&Block>)
        ensures
            block_refs_view(r@) == self.child_blocks(),
    ;

    /// A handle on each immediately contained block, in document order, for
    /// changing the blocks in place. Each child has one handle. When the
    /// handles are given back, the children are what the handles hold then,
    /// child for child, and nothing else has changed.
    fn iter_blocks_mut(&mut self) -> (r: Vec<&mut Block>)
        ensures
            block_muts_view(r@) == old(self).child_blocks(),
            final(self).child_blocks().len() == r@.len(),
            forall|k: int|
                0 <= k < r@.len() ==> (#[trigger] final(self).child_blocks()[k]) == (*final(r@[k]))@,
            final(self).same_but_blocks(old(self)),
    ;
}

/// A type whose values contain inlines one level down.
pub trait IterInlines {
    /// The models of the immediately contained inlines, in document order.
    spec fn child_inlines(&self) -> Seq<InlineView>;

    /// Whether `self` and `other` are the same apart from what their child
    /// inlines are.
    spec fn same_but_inlines(&self, other: &Self) -> bool;

    /// The immediately contained inlines, in document order.
    fn iter_inlines(&self) -> (r: Vec<&Inline>)
        ensures
            inline_refs_view(r@) == self.child_inlines(),
    ;

    /// A handle on each immediately contained inline, in document order,
    /// for changing the inlines in place. Each child has one handle. When
    /// the handles are given back, the children are what the handles hold
    /// then, child for child, and nothing else has changed.
    fn iter_inlines_mut(&mut self) -> (r: Vec<&mut Inline>)
        ensures
            inline_muts_view(r@) == old(self).child_inlines(),
            final(self).child_inlines().len() == r@.len(),
            forall|k: int|
                0 <= k < r@.len() ==> (#[trigger] final(self).child_inlines()[k]) == (*final(r@[k]))@,
            final(self).same_but_inlines(old(self)),
    ;
}

/// Adds references to the blocks of a list.
fn push_blocks<'a>(out: &mut Vec<&'a Block>, v: &'a Vec<Block>)
    ensures
        block_refs_view(final(out)@) == block_refs_view(old(out)@) + blocks_view(v@),
{
    let ghost start = block_refs_view(out@);
    let mut i: usize = 0;
    while i < v.len()
        invariant
            i <= v.len(),
            block_refs_view(out@) == start + blocks_view(v@).subrange(0, i as int),
        decreases v.len() - i,
    {
        let ghost before = out@;
        out.push(&v[i]);
        proof {
            assert(block_refs_view(out@) =~= block_refs_view(before).push(v@[i as int]@));
            assert(blocks_view(v@).subrange(0, i + 1) =~= blocks_view(v@).subrange(
                0,
                i as int,
            ).push(v@[i as int]@));
            assert(block_refs_view(out@) =~= start + blocks_view(v@).subrange(0, i + 1));
        }
        i += 1;
    }
    proof {
        assert(blocks_view(v@).subrange(0, i as int) =~= blocks_view(v@));
    }
}

/// Adds references to the blocks of a list of lists, list after list.
fn push_block_lists<'a>(out: &mut Vec<&'a Block>, items: &'a Vec<Vec<Block>>)
    ensures
        block_refs_view(final(out)@) == block_refs_view(old(out)@) + concat(
            block_lists_view(items@),
        ),
{
    let ghost start = block_refs_view(out@);
    let ghost lists = block_lists_view(items@);
    let mut i: usize = 0;
    while i < items.len()
        invariant
            i <= items.len(),
            lists == block_lists_view(items@),
            block_refs_view(out@) == start + concat(lists.subrange(0, i as int)),
        decreases items.len() - i,
    {
        push_blocks(out, &items[i]);
        proof {
            lemma_concat_push(lists.subrange(0, i as int), lists[i as int]);
            assert(lists.subrange(0, i + 1) =~= lists.subrange(0, i as int).push(lists[i as int]));
            assert(block_refs_view(out@) =~= start + concat(lists.subrange(0, i + 1)));
        }
        i += 1;
    }
    proof {
        assert(lists.subrange(0, i as int) =~= lists);
    }
}

/// Adds references to the blocks of the definitions of some terms.
fn push_definitions_blocks<'a>(
    out: &mut Vec<&'a Block>,
    d: &'a Vec<(Vec<Inline>, Vec<Vec<Block>>)>,
)
    ensures
        block_refs_view(final(out)@) == block_refs_view(old(out)@) + definitions_blocks(
            definitions_view(d@),
        ),
{
    let ghost start = block_refs_view(out@);
    let ghost dv = definitions_view(d@);
    let ghost lists = Seq::new(dv.len(), |k: int| concat(dv[k].1));
    let mut i: usize = 0;
    while i < d.len()
        invariant
            i <= d.len(),
            dv == definitions_view(d@),
            lists == Seq::new(dv.len(), |k: int| concat(dv[k].1)),
            block_refs_view(out@) == start + concat(lists.subrange(0, i as int)),
        decreases d.len() - i,
    {
        push_block_lists(out, &d[i].1);
        proof {
            lemma_concat_push(lists.subrange(0, i as int), lists[i as int]);
            assert(lists.subrange(0, i + 1) =~= lists.subrange(0, i as int).push(lists[i as int]));
            assert(block_refs_view(out@) =~= start + concat(lists.subrange(0, i + 1)));
        }
        i += 1;
    }
    proof {
        assert(lists.subrange(0, i as int) =~= lists);
    }
}

/// Adds references to the blocks of the cells of a row.
fn push_row_blocks<'a>(out: &mut Vec<&'a Block>, row: &'a Row)
    ensures
        block_refs_view(final(out)@) == block_refs_view(old(out)@) + row_blocks(row@),
{
    let ghost start = block_refs_view(out@);
    let ghost cv = cells_view(row.cells@);
    let ghost lists = Seq::new(cv.len(), |k: int| cv[k].content);
    let mut i: usize = 0;
    while i < row.cells.len()
        invariant
            i <= row.cells.len(),
            cv == cells_view(row.cells@),
            lists == Seq::new(cv.len(), |k: int| cv[k].content),
            block_refs_view(out@) == start + concat(lists.subrange(0, i as int)),
        decreases row.cells.len() - i,
    {
        push_blocks(out, &row.cells[i].content);
        proof {
            lemma_concat_push(lists.subrange(0, i as int), lists[i as int]);
            assert(lists.subrange(0, i + 1) =~= lists.subrange(0, i as int).push(lists[i as int]));
            assert(block_refs_view(out@) =~= start + concat(lists.subrange(0, i + 1)));
        }
        i += 1;
    }
    proof {
        assert(lists.subrange(0, i as int) =~= lists);
    }
}

/// Adds references to the blocks of the cells of some rows.
fn push_rows_blocks<'a>(out: &mut Vec<&'a Block>, rows: &'a Vec<Row>)
    ensures
        block_refs_view(final(out)@) == block_refs_view(old(out)@) + rows_blocks(rows_view(rows@)),
{
    let ghost start = block_refs_view(out@);
    let ghost rv = rows_view(rows@);
    let ghost lists = Seq::new(rv.len(), |k: int| row_blocks(rv[k]));
    let mut i: usize = 0;
    while i < rows.len()
        invariant
            i <= rows.len(),
            rv == rows_view(rows@),
            lists == Seq::new(rv.len(), |k: int| row_blocks(rv[k])),
            block_refs_view(out@) == start + concat(lists.subrange(0, i as int)),
        decreases rows.len() - i,
    {
        push_row_blocks(out, &rows[i]);
        proof {
            lemma_concat_push(lists.subrange(0, i as int), lists[i as int]);
            assert(lists.subrange(0, i + 1) =~= lists.subrange(0, i as int).push(lists[i as int]));
            assert(block_refs_view(out@) =~= start + concat(lists.subrange(0, i + 1)));
        }
        i += 1;
    }
    proof {
        assert(lists.subrange(0, i as int) =~= lists);
    }
}

/// Adds references to the blocks of the cells of some table bodies.
fn push_bodies_blocks<'a>(out: &mut Vec<&'a Block>, bodies: &'a Vec<TableBody>)
    ensures
        block_refs_view(final(out)@) == block_refs_view(old(out)@) + bodies_blocks(
            table_bodies_view(bodies@),
        ),
{
    let ghost start = block_refs_view(out@);
    let ghost bv = table_bodies_view(bodies@);
    let ghost lists = Seq::new(bv.len(), |k: int| body_blocks(bv[k]));
    let mut i: usize = 0;
    while i < bodies.len()
        invariant
            i <= bodies.len(),
            bv == table_bodies_view(bodies@),
            lists == Seq::new(bv.len(), |k: int| body_blocks(bv[k])),
            block_refs_view(out@) == start + concat(lists.subrange(0, i as int)),
        decreases bodies.len() - i,
    {
        let ghost mid = block_refs_view(out@);
        push_rows_blocks(out, &bodies[i].head);
        push_rows_blocks(out, &bodies[i].body);
        proof {
            lemma_concat_push(lists.subrange(0, i as int), lists[i as int]);
            assert(lists.subrange(0, i + 1) =~= lists.subrange(0, i as int).push(lists[i as int]));
            assert(block_refs_view(out@) =~= mid + lists[i as int]);
            assert(block_refs_view(out@) =~= start + concat(lists.subrange(0, i + 1)));
        }
        i += 1;
    }
    proof {
        assert(lists.subrange(0, i as int) =~= lists);
    }
}

/// Adds references to the inlines of a list.
fn push_inlines<'a>(out: &mut Vec<&'a Inline>, v: &'a Vec<Inline>)
    ensures
        inline_refs_view(final(out)@) == inline_refs_view(old(out)@) + inlines_view(v@),
{
    let ghost start = inline_refs_view(out@);
    let mut i: usize = 0;
    while i < v.len()
        invariant
            i <= v.len(),
            inline_refs_view(out@) == start + inlines_view(v@).subrange(0, i as int),
        decreases v.len() - i,
    {
        let ghost before = out@;
        out.push(&v[i]);
        proof {
            assert(inline_refs_view(out@) =~= inline_refs_view(before).push(v@[i as int]@));
            assert(inlines_view(v@).subrange(0, i + 1) =~= inlines_view(v@).subrange(
                0,
                i as int,
            ).push(v@[i as int]@));
            assert(inline_refs_view(out@) =~= start + inlines_view(v@).subrange(0, i + 1));
        }
        i += 1;
    }
    proof {
        assert(inlines_view(v@).subrange(0, i as int) =~= inlines_view(v@));
    }
}

/// Adds references to the inlines of the terms of a definition list.
fn push_terms<'a>(out: &mut Vec<&'a Inline>, d: &'a Vec<(Vec<Inline>, Vec<Vec<Block>>)>)
    ensures
        inline_refs_view(final(out)@) == inline_refs_view(old(out)@) + definitions_inlines(
            definitions_view(d@),
        ),
{
    let ghost start = inline_refs_view(out@);
    let ghost dv = definitions_view(d@);
    let ghost lists = Seq::new(dv.len(), |k: int| dv[k].0);
    let mut i: usize = 0;
    while i < d.len()
        invariant
            i <= d.len(),
            dv == definitions_view(d@),
            lists == Seq::new(dv.len(), |k: int| dv[k].0),
            inline_refs_view(out@) == start + concat(lists.subrange(0, i as int)),
        decreases d.len() - i,
    {
        push_inlines(out, &d[i].0);
        proof {
            lemma_concat_push(lists.subrange(0, i as int), lists[i as int]);
            assert(lists.subrange(0, i + 1) =~= lists.subrange(0, i as int).push(lists[i as int]));
            assert(inline_refs_view(out@) =~= start + concat(lists.subrange(0, i + 1)));
        }
        i += 1;
    }
    proof {
        assert(lists.subrange(0, i as int) =~= lists);
    }
}

impl IterBlocks for Table {
    open spec fn child_blocks(&self) -> Seq<BlockView> {
        self@.child_blocks()
    }

    open spec fn same_but_blocks(&self, other: &Self) -> bool {
        self@.blank_blocks() == other@.blank_blocks()
    }

    fn iter_blocks_mut(&mut self) -> (r: Vec<&mut Block>) {
        let ghost fin = *final(self);
        let ghost start = *old(self);
        let mut out = block_handles(&mut self.caption.long);
        let ghost h0 = out@;
        let mut head = rows_handles(&mut self.head.rows);
        let ghost h1 = head@;
        let mut bodies = bodies_handles(&mut self.bodies);
        let ghost h2 = bodies@;
        let mut foot = rows_handles(&mut self.foot.rows);
        let ghost h3 = foot@;
        out.append(&mut head);
        out.append(&mut bodies);
        out.append(&mut foot);
        proof {
            let c0 = fin@.caption.long;
            let c1 = rows_blocks(fin@.head.rows);
            let c2 = bodies_blocks(fin@.bodies);
            let c3 = rows_blocks(fin@.foot.rows);
            assert(fin@.caption == fin.caption@);
            assert(start@.caption == start.caption@);
            assert(fin@.head == fin.head@);
            assert(fin@.foot == fin.foot@);
            assert(start@.head == start.head@);
            assert(start@.foot == start.foot@);
            assert(out@ =~= h0 + h1 + h2 + h3);
            assert(block_muts_view(out@) =~= block_muts_view(h0) + block_muts_view(h1)
                + block_muts_view(h2) + block_muts_view(h3));
            assert(null_blocks(c0.len()) =~= null_blocks(start@.caption.long.len()));
            assert forall|k: int| 0 <= k < out@.len() implies (#[trigger] fin@.child_blocks()[k])
                == (*final(out@[k]))@ by {
                if k < h0.len() {
                    assert(out@[k] == h0[k]);
                    assert(fin@.child_blocks()[k] == c0[k]);
                } else if k < h0.len() + h1.len() {
                    assert(out@[k] == h1[k - h0.len()]);
                    assert(fin@.child_blocks()[k] == c1[k - h0.len()]);
                } else if k < h0.len() + h1.len() + h2.len() {
                    assert(out@[k] == h2[k - h0.len() - h1.len()]);
                    assert(fin@.child_blocks()[k] == c2[k - h0.len() - h1.len()]);
                } else {
                    assert(out@[k] == h3[k - h0.len() - h1.len() - h2.len()]);
                    assert(fin@.child_blocks()[k] == c3[k - h0.len() - h1.len() - h2.len()]);
                }
            }
        }
        out
    }

    fn iter_blocks(&self) -> (r: Vec<&Block>) {
        let mut out: Vec<&Block> = Vec::new();
        proof {
            assert(block_refs_view(out@) =~= Seq::empty());
        }
        push_blocks(&mut out, &self.caption.long);
        push_rows_blocks(&mut out, &self.head.rows);
        push_bodies_blocks(&mut out, &self.bodies);
        push_rows_blocks(&mut out, &self.foot.rows);
        proof {
            assert(block_refs_view(out@) =~= self@.child_blocks());
        }
        out
    }
}

impl IterBlocks for Block {
    open spec fn child_blocks(&self) -> Seq<BlockView> {
        self@.child_blocks()
    }

    open spec fn same_but_blocks(&self, other: &Self) -> bool {
        self@.blank_blocks() == other@.blank_blocks()
    }

    fn iter_blocks_mut(&mut self) -> (r: Vec<&mut Block>) {
        match self {
            Block::BlockQuote(blocks) => block_handles(blocks),
            Block::Figure(_, _, blocks) => block_handles(blocks),
            Block::Div(_, blocks) => block_handles(blocks),
            Block::BulletList(items) => block_lists_handles(items),
            Block::OrderedList(_, items) => block_lists_handles(items),
            Block::DefinitionList(definitions) => definitions_handles(definitions),
            Block::Table(table) => table.iter_blocks_mut(),
            Block::Plain(_) => Vec::new(),
            Block::Para(_) => Vec::new(),
            Block::LineBlock(_) => Vec::new(),
            Block::CodeBlock(_, _) => Vec::new(),
            Block::RawBlock(_, _) => Vec::new(),
            Block::Header(_, _, _) => Vec::new(),
            Block::HorizontalRule => Vec::new(),
            Block::Null => Vec::new(),
        }
    }

    fn iter_blocks(&self) -> (r: Vec<&Block>) {
        let mut out: Vec<&Block> = Vec::new();
        proof {
            assert(block_refs_view(out@) =~= Seq::empty());
        }
        match self {
            Block::BlockQuote(blocks) => push_blocks(&mut out, blocks),
            Block::Figure(_, _, blocks) => push_blocks(&mut out, blocks),
            Block::Div(_, blocks) => push_blocks(&mut out, blocks),
            Block::BulletList(items) => push_block_lists(&mut out, items),
            Block::OrderedList(_, items) => push_block_lists(&mut out, items),
            Block::DefinitionList(definitions) => push_definitions_blocks(&mut out, definitions),
            Block::Table(table) => {
                out = table.iter_blocks();
            },
            Block::Plain(_) => {},
            Block::Para(_) => {},
            Block::LineBlock(_) => {},
            Block::CodeBlock(_, _) => {},
            Block::RawBlock(_, _) => {},
            Block::Header(_, _, _) => {},
            Block::HorizontalRule => {},
            Block::Null => {},
        }
        proof {
            assert(block_refs_view(out@) =~= self@.child_blocks());
        }
        out
    }
}

/// Only a note contains blocks.
impl IterBlocks for Inline {
    open spec fn child_blocks(&self) -> Seq<BlockView> {
        self@.child_blocks()
    }

    open spec fn same_but_blocks(&self, other: &Self) -> bool {
        self@.blank_blocks() == other@.blank_blocks()
    }

    fn iter_blocks_mut(&mut self) -> (r: Vec<&mut Block>) {
        match self {
            Inline::Note(blocks) => block_handles(blocks),
            _ => Vec::new(),
        }
    }

    fn iter_blocks(&self) -> (r: Vec<&Block>) {
        let mut out: Vec<&Block> = Vec::new();
        proof {
            assert(block_refs_view(out@) =~= Seq::empty());
        }
        match self {
            Inline::Note(blocks) => push_blocks(&mut out, blocks),
            _ => {},
        }
        proof {
            assert(block_refs_view(out@) =~= self@.child_blocks());
        }
        out
    }
}

impl IterBlocks for Pandoc {
    open spec fn child_blocks(&self) -> Seq<BlockView> {
        self@.child_blocks()
    }

    open spec fn same_but_blocks(&self, other: &Self) -> bool {
        self@.blank_blocks() == other@.blank_blocks()
    }

    fn iter_blocks_mut(&mut self) -> (r: Vec<&mut Block>) {
        block_handles(&mut self.blocks)
    }

    fn iter_blocks(&self) -> (r: Vec<&Block>) {
        let mut out: Vec<&Block> = Vec::new();
        proof {
            assert(block_refs_view(out@) =~= Seq::empty());
        }
        push_blocks(&mut out, &self.blocks);
        proof {
            assert(block_refs_view(out@) =~= self@.child_blocks());
        }
        out
    }
}

impl IterInlines for Block {
    open spec fn child_inlines(&self) -> Seq<InlineView> {
        self@.child_inlines()
    }

    open spec fn same_but_inlines(&self, other: &Self) -> bool {
        self@.blank_inlines() == other@.blank_inlines()
    }

    fn iter_inlines_mut(&mut self) -> (r: Vec<&mut Inline>) {
        match self {
            Block::DefinitionList(definitions) => terms_handles(definitions),
            Block::Header(_, _, inlines) => inline_handles(inlines),
            Block::Table(table) => {
                let ghost after = *final(table);
                let ghost before = *table;
                let out = match &mut table.caption.short {
                    Some(inlines) => inline_handles(inlines),
                    None => Vec::new(),
                };
                proof {
                    assert(after@.caption == after.caption@);
                    assert(before@.caption == before.caption@);
                    assert(after@.head == before@.head);
                    assert(after@.foot == before@.foot);
                    match before.caption.short {
                        Some(v) => {
                            assert(before.caption@.short == Some(inlines_view(v@)));
                            assert(after.caption.short is Some);
                            assert(after.caption@.short == Some(
                                inlines_view(after.caption.short->Some_0@),
                            ));
                            assert(space_inlines(after@.child_inlines().len()) =~= space_inlines(
                                before@.child_inlines().len(),
                            ));
                        },
                        None => {
                            assert(before.caption@.short.is_none());
                            assert(after.caption@.short.is_none());
                            assert(inline_muts_view(out@) =~= Seq::empty());
                        },
                    }
                }
                out
            },
            Block::Plain(_) => Vec::new(),
            Block::Para(_) => Vec::new(),
            Block::LineBlock(_) => Vec::new(),
            Block::CodeBlock(_, _) => Vec::new(),
            Block::RawBlock(_, _) => Vec::new(),
            Block::BlockQuote(_) => Vec::new(),
            Block::OrderedList(_, _) => Vec::new(),
            Block::BulletList(_) => Vec::new(),
            Block::HorizontalRule => Vec::new(),
            Block::Figure(_, _, _) => Vec::new(),
            Block::Div(_, _) => Vec::new(),
            Block::Null => Vec::new(),
        }
    }

    fn iter_inlines(&self) -> (r: Vec<&Inline>) {
        let mut out: Vec<&Inline> = Vec::new();
        proof {
            assert(inline_refs_view(out@) =~= Seq::empty());
        }
        match self {
            Block::DefinitionList(definitions) => push_terms(&mut out, definitions),
            Block::Header(_, _, inlines) => push_inlines(&mut out, inlines),
            Block::Table(table) => {
                proof {
                    assert(self@ == BlockView::Table(table@));
                    assert(table@.caption == table.caption@);
                }
                match &table.caption.short {
                    Some(inlines) => {
                        proof {
                            assert(table.caption@.short == Some(inlines_view(inlines@)));
                        }
                        push_inlines(&mut out, inlines)
                    },
                    None => {
                        proof {
                            assert(table.caption@.short.is_none());
                        }
                    },
                }
            },
            Block::Plain(_) => {},
            Block::Para(_) => {},
            Block::LineBlock(_) => {},
            Block::CodeBlock(_, _) => {},
            Block::RawBlock(_, _) => {},
            Block::BlockQuote(_) => {},
            Block::OrderedList(_, _) => {},
            Block::BulletList(_) => {},
            Block::HorizontalRule => {},
            Block::Figure(_, _, _) => {},
            Block::Div(_, _) => {},
            Block::Null => {},
        }
        proof {
            assert(inline_refs_view(out@) =~= self@.child_inlines());
        }
        out
    }
}

impl IterInlines for Inline {
    open spec fn child_inlines(&self) -> Seq<InlineView> {
        self@.child_inlines()
    }

    open spec fn same_but_inlines(&self, other: &Self) -> bool {
        self@.blank_inlines() == other@.blank_inlines()
    }

    fn iter_inlines_mut(&mut self) -> (r: Vec<&mut Inline>) {
        match self {
            Inline::Emph(inlines) => inline_handles(inlines),
            Inline::Underline(inlines) => inline_handles(inlines),
            Inline::Strong(inlines) => inline_handles(inlines),
            Inline::Strikeout(inlines) => inline_handles(inlines),
            Inline::Superscript(inlines) => inline_handles(inlines),
            Inline::Subscript(inlines) => inline_handles(inlines),
            Inline::SmallCaps(inlines) => inline_handles(inlines),
            Inline::Quoted(_, inlines) => inline_handles(inlines),
            Inline::Cite(_, inlines) => inline_handles(inlines),
            Inline::Link(_, inlines, _) => inline_handles(inlines),
            Inline::Image(_, inlines, _) => inline_handles(inlines),
            Inline::Span(_, inlines) => inline_handles(inlines),
            Inline::Str(_) => Vec::new(),
            Inline::Code(_, _) => Vec::new(),
            Inline::Space => Vec::new(),
            Inline::SoftBreak => Vec::new(),
            Inline::LineBreak => Vec::new(),
            Inline::Math(_, _) => Vec::new(),
            Inline::RawInline(_, _) => Vec::new(),
            Inline::Note(_) => Vec::new(),
        }
    }

    fn iter_inlines(&self) -> (r: Vec<&Inline>) {
        let mut out: Vec<&Inline> = Vec::new();
        proof {
            assert(inline_refs_view(out@) =~= Seq::empty());
        }
        match self {
            Inline::Emph(inlines) => push_inlines(&mut out, inlines),
            Inline::Underline(inlines) => push_inlines(&mut out, inlines),
            Inline::Strong(inlines) => push_inlines(&mut out, inlines),
            Inline::Strikeout(inlines) => push_inlines(&mut out, inlines),
            Inline::Superscript(inlines) => push_inlines(&mut out, inlines),
            Inline::Subscript(inlines) => push_inlines(&mut out, inlines),
            Inline::SmallCaps(inlines) => push_inlines(&mut out, inlines),
            Inline::Quoted(_, inlines) => push_inlines(&mut out, inlines),
            Inline::Cite(_, inlines) => push_inlines(&mut out, inlines),
            Inline::Link(_, inlines, _) => push_inlines(&mut out, inlines),
            Inline::Image(_, inlines, _) => push_inlines(&mut out, inlines),
            Inline::Span(_, inlines) => push_inlines(&mut out, inlines),
            Inline::Str(_) => {},
            Inline::Code(_, _) => {},
            Inline::Space => {},
            Inline::SoftBreak => {},
            Inline::LineBreak => {},
            Inline::Math(_, _) => {},
            Inline::RawInline(_, _) => {},
            Inline::Note(_) => {},
        }
        proof {
            assert(inline_refs_view(out@) =~= self@.child_inlines());
        }
        out
    }
}

} // verus!
