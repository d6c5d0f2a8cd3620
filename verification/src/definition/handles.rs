//! Handles on the children of a node, for changing them in place.
//!
//! A handle is an exclusive reference to one child. The functions here hand
//! out one handle for each child, in document order. What a node is once
//! its handles are given back is stated in three parts: the handles hold the
//! children as they were; the children at the end are what the handles hold
//! at the end; and the rest of the node is as it was.

use crate::definition::children::blank_block_lists;
use crate::definition::children::blank_bodies;
use crate::definition::children::blank_body;
use crate::definition::children::blank_cell;
use crate::definition::children::blank_cells;
use crate::definition::children::blank_definitions;
use crate::definition::children::blank_row;
use crate::definition::children::blank_rows;
use crate::definition::children::blank_terms;
use crate::definition::children::bodies_blocks;
use crate::definition::children::body_blocks;
use crate::definition::children::cells_blocks;
use crate::definition::children::concat;
use crate::definition::children::definitions_blocks;
use crate::definition::children::definitions_inlines;
use crate::definition::children::lemma_block_lists_push;
use crate::definition::children::lemma_bodies_push;
use crate::definition::children::lemma_cells_push;
use crate::definition::children::lemma_definitions_push;
use crate::definition::children::lemma_rows_push;
use crate::definition::children::row_blocks;
use crate::definition::children::rows_blocks;
use crate::definition::view::block_lists_view;
use crate::definition::view::blocks_view;
use crate::definition::view::cells_view;
use crate::definition::view::definitions_view;
use crate::definition::view::inlines_view;
use crate::definition::view::rows_view;
use crate::definition::view::table_bodies_view;
use crate::definition::view::BlockView;
use crate::definition::view::InlineView;
use crate::definition::Block;
use crate::definition::Cell;
use crate::definition::Inline;
use crate::definition::Row;
use crate::definition::TableBody;
use vstd::prelude::*;

verus! {

/// The models of what the handles hold now.
pub open spec fn block_muts_view(s: Seq<&mut Block>) -> Seq<BlockView> {
    Seq::new(s.len(), |k: int| (*s[k])@)
}

/// The models of what the handles hold now.
pub open spec fn inline_muts_view(s: Seq<&mut Inline>) -> Seq<InlineView> {
    Seq::new(s.len(), |k: int| (*s[k])@)
}

/// A handle on each block of a list.
pub fn block_handles(v: &mut Vec<Block>) -> (r: Vec<&mut Block>)
    ensures
        block_muts_view(r@) == blocks_view(old(v)@),
        blocks_view(final(v)@).len() == r@.len(),
        forall|k: int|
            0 <= k < r@.len() ==> (#[trigger] blocks_view(final(v)@)[k]) == (*final(r@[k]))@,
        final(v)@.len() == old(v)@.len(),
{
    let ghost fin = final(v)@;
    let ghost start = old(v)@;
    let mut out: Vec<&mut Block> = Vec::new();
    let mut rest: &mut [Block] = v.as_mut_slice();
    loop
        invariant
            out@.len() + rest@.len() == start.len(),
            forall|k: int| 0 <= k < out@.len() ==> *out@[k] == start[k],
            forall|k: int| 0 <= k < rest@.len() ==> rest@[k] == start[out@.len() + k],
            fin == Seq::new(out@.len(), |k: int| *final(out@[k])) + final(rest)@,
        ensures
            rest@.len() == 0,
        decreases rest@.len(),
    {
        if rest.len() == 0 {
            break ;
        }
        let (head, tail) = rest.split_at_mut(1);
        match head.first_mut() {
            None => {},
            Some(h) => {
                out.push(h);
            },
        }
        rest = tail;
    }
    proof {
        assert(block_muts_view(out@) =~= blocks_view(start));
    }
    out
}

/// A handle on each inline of a list.
pub fn inline_handles(v: &mut Vec<Inline>) -> (r: Vec<&mut Inline>)
    ensures
        inline_muts_view(r@) == inlines_view(old(v)@),
        inlines_view(final(v)@).len() == r@.len(),
        forall|k: int|
            0 <= k < r@.len() ==> (#[trigger] inlines_view(final(v)@)[k]) == (*final(r@[k]))@,
        final(v)@.len() == old(v)@.len(),
{
    let ghost fin = final(v)@;
    let ghost start = old(v)@;
    let mut out: Vec<&mut Inline> = Vec::new();
    let mut rest: &mut [Inline] = v.as_mut_slice();
    loop
        invariant
            out@.len() + rest@.len() == start.len(),
            forall|k: int| 0 <= k < out@.len() ==> *out@[k] == start[k],
            forall|k: int| 0 <= k < rest@.len() ==> rest@[k] == start[out@.len() + k],
            fin == Seq::new(out@.len(), |k: int| *final(out@[k])) + final(rest)@,
        ensures
            rest@.len() == 0,
        decreases rest@.len(),
    {
        if rest.len() == 0 {
            break ;
        }
        let (head, tail) = rest.split_at_mut(1);
        match head.first_mut() {
            None => {},
            Some(h) => {
                out.push(h);
            },
        }
        rest = tail;
    }
    proof {
        assert(inline_muts_view(out@) =~= inlines_view(start));
    }
    out
}

/// A handle on each block of a list of lists, list after list.
pub fn block_lists_handles(items: &mut Vec<Vec<Block>>) -> (r: Vec<&mut Block>)
    ensures
        block_muts_view(r@) == concat(block_lists_view(old(items)@)),
        concat(block_lists_view(final(items)@)).len() == r@.len(),
        forall|k: int|
            0 <= k < r@.len() ==> (#[trigger] concat(block_lists_view(final(items)@))[k]) == (*final(r@[k]))@,
        blank_block_lists(block_lists_view(final(items)@))
            == blank_block_lists(block_lists_view(old(items)@)),
{
    let ghost fin = final(items)@;
    let ghost start = old(items)@;
    let ghost mut done: Seq<Vec<Block>> = fin.take(0);
    let mut out: Vec<&mut Block> = Vec::new();
    let mut rest: &mut [Vec<Block>] = items.as_mut_slice();
    proof {
        assert(done =~= Seq::empty());
        assert(start.take(0) =~= Seq::empty());
        assert(block_lists_view(done) =~= Seq::empty());
        assert(block_lists_view(start.take(0)) =~= Seq::empty());
        assert(block_muts_view(out@) =~= Seq::empty());
        assert(concat(block_lists_view(done)) =~= Seq::empty());
        assert(blank_block_lists(block_lists_view(done))
            =~= blank_block_lists(block_lists_view(start.take(0))));
        assert(fin =~= done + final(rest)@);
    }
    loop
        invariant
            done.len() + rest@.len() == start.len(),
            forall|k: int| 0 <= k < rest@.len() ==> rest@[k] == start[done.len() + k],
            fin == done + final(rest)@,
            block_muts_view(out@) == concat(block_lists_view(start.take(done.len() as int))),
            concat(block_lists_view(done)).len() == out@.len(),
            forall|k: int|
                0 <= k < out@.len() ==> (#[trigger] concat(block_lists_view(done))[k]) == (*final(out@[k]))@,
            blank_block_lists(block_lists_view(done))
                == blank_block_lists(block_lists_view(start.take(done.len() as int))),
        ensures
            rest@.len() == 0,
        decreases rest@.len(),
    {
        if rest.len() == 0 {
            break ;
        }
        let ghost n = done.len() as int;
        let (head, tail) = rest.split_at_mut(1);
        match head.first_mut() {
            None => {},
            Some(h) => {
                let ghost before = out@;
                let ghost item = *final(h);
                let ghost was = *h;
                let mut hs = block_handles(h);
                let ghost hs0 = hs@;
                out.append(&mut hs);
                proof {
                    let dv = block_lists_view(done);
                    let sv = block_lists_view(start.take(n));
                    assert(block_lists_view(done.push(item)) =~= dv.push(blocks_view(item@)));
                    assert(start.take(n + 1) =~= start.take(n).push(was));
                    assert(block_lists_view(start.take(n + 1)) =~= sv.push(blocks_view(was@)));
                    lemma_block_lists_push(dv, blocks_view(item@));
                    lemma_block_lists_push(sv, blocks_view(was@));
                    assert(block_muts_view(out@) =~= block_muts_view(before) + block_muts_view(hs0));
                    assert forall|k: int| 0 <= k < out@.len() implies (#[trigger] concat(
                        block_lists_view(done.push(item)),
                    )[k]) == (*final(out@[k]))@ by {
                        if k >= before.len() {
                            assert(out@[k] == hs0[k - before.len()]);
                        } else {
                            assert(out@[k] == before[k]);
                        }
                    }
                    done = done.push(item);
                }
            },
        }
        rest = tail;
    }
    proof {
        assert(start.take(done.len() as int) =~= start);
        assert(fin =~= done);
    }
    out
}

/// A handle on each block of the definitions of a term.
pub fn definition_handles(d: &mut (Vec<Inline>, Vec<Vec<Block>>)) -> (r: Vec<&mut Block>)
    ensures
        block_muts_view(r@) == concat(block_lists_view(old(d).1@)),
        concat(block_lists_view(final(d).1@)).len() == r@.len(),
        forall|k: int|
            0 <= k < r@.len() ==> (#[trigger] concat(block_lists_view(final(d).1@))[k]) == (*final(r@[k]))@,
        blank_block_lists(block_lists_view(final(d).1@)) == blank_block_lists(
            block_lists_view(old(d).1@),
        ),
        final(d).0 == old(d).0,
{
    block_lists_handles(&mut d.1)
}

/// A handle on each block of the definitions of a definition list.
pub fn definitions_handles(items: &mut Vec<(Vec<Inline>, Vec<Vec<Block>>)>) -> (r: Vec<&mut Block>)
    ensures
        block_muts_view(r@) == definitions_blocks(definitions_view(old(items)@)),
        definitions_blocks(definitions_view(final(items)@)).len() == r@.len(),
        forall|k: int|
            0 <= k < r@.len() ==> (#[trigger] definitions_blocks(definitions_view(final(items)@))[k]) == (*final(r@[k]))@,
        blank_definitions(definitions_view(final(items)@))
            == blank_definitions(definitions_view(old(items)@)),
{
    let ghost fin = final(items)@;
    let ghost start = old(items)@;
    let ghost mut done: Seq<(Vec<Inline>, Vec<Vec<Block>>)> = fin.take(0);
    let mut out: Vec<&mut Block> = Vec::new();
    let mut rest: &mut [(Vec<Inline>, Vec<Vec<Block>>)] = items.as_mut_slice();
    proof {
        assert(done =~= Seq::empty());
        assert(start.take(0) =~= Seq::empty());
        assert(definitions_view(done) =~= Seq::empty());
        assert(definitions_view(start.take(0)) =~= Seq::empty());
        assert(block_muts_view(out@) =~= Seq::empty());
        assert(definitions_blocks(definitions_view(done)) =~= Seq::empty());
        assert(blank_definitions(definitions_view(done))
            =~= blank_definitions(definitions_view(start.take(0))));
        assert(fin =~= done + final(rest)@);
    }
    loop
        invariant
            done.len() + rest@.len() == start.len(),
            forall|k: int| 0 <= k < rest@.len() ==> rest@[k] == start[done.len() + k],
            fin == done + final(rest)@,
            block_muts_view(out@) == definitions_blocks(definitions_view(start.take(done.len() as int))),
            definitions_blocks(definitions_view(done)).len() == out@.len(),
            forall|k: int|
                0 <= k < out@.len() ==> (#[trigger] definitions_blocks(definitions_view(done))[k]) == (*final(out@[k]))@,
            blank_definitions(definitions_view(done))
                == blank_definitions(definitions_view(start.take(done.len() as int))),
        ensures
            rest@.len() == 0,
        decreases rest@.len(),
    {
        if rest.len() == 0 {
            break ;
        }
        let ghost n = done.len() as int;
        let (head, tail) = rest.split_at_mut(1);
        match head.first_mut() {
            None => {},
            Some(h) => {
                let ghost before = out@;
                let ghost item = *final(h);
                let ghost was = *h;
                let mut hs = definition_handles(h);
                let ghost hs0 = hs@;
                out.append(&mut hs);
                proof {
                    let dv = definitions_view(done);
                    let sv = definitions_view(start.take(n));
                    assert(definitions_view(done.push(item))
                        =~= dv.push((inlines_view(item.0@), block_lists_view(item.1@))));
                    assert(start.take(n + 1) =~= start.take(n).push(was));
                    assert(definitions_view(start.take(n + 1))
                        =~= sv.push((inlines_view(was.0@), block_lists_view(was.1@))));
                    lemma_definitions_push(dv, (inlines_view(item.0@), block_lists_view(item.1@)));
                    lemma_definitions_push(sv, (inlines_view(was.0@), block_lists_view(was.1@)));
                    assert(block_muts_view(out@) =~= block_muts_view(before) + block_muts_view(hs0));
                    assert forall|k: int| 0 <= k < out@.len() implies (#[trigger] definitions_blocks(
                        definitions_view(done.push(item)),
                    )[k]) == (*final(out@[k]))@ by {
                        if k >= before.len() {
                            assert(out@[k] == hs0[k - before.len()]);
                        } else {
                            assert(out@[k] == before[k]);
                        }
                    }
                    done = done.push(item);
                }
            },
        }
        rest = tail;
    }
    proof {
        assert(start.take(done.len() as int) =~= start);
        assert(fin =~= done);
    }
    out
}

/// A handle on each block of a cell.
pub fn cell_handles(c: &mut Cell) -> (r: Vec<&mut Block>)
    ensures
        block_muts_view(r@) == old(c)@.content,
        final(c)@.content.len() == r@.len(),
        forall|k: int| 0 <= k < r@.len() ==> (#[trigger] final(c)@.content[k]) == (*final(r@[k]))@,
        blank_cell(final(c)@) == blank_cell(old(c)@),
{
    block_handles(&mut c.content)
}

/// A handle on each block of some cells, cell after cell.
pub fn cells_handles(items: &mut Vec<Cell>) -> (r: Vec<&mut Block>)
    ensures
        block_muts_view(r@) == cells_blocks(cells_view(old(items)@)),
        cells_blocks(cells_view(final(items)@)).len() == r@.len(),
        forall|k: int|
            0 <= k < r@.len() ==> (#[trigger] cells_blocks(cells_view(final(items)@))[k]) == (*final(r@[k]))@,
        blank_cells(cells_view(final(items)@)) == blank_cells(cells_view(old(items)@)),
{
    let ghost fin = final(items)@;
    let ghost start = old(items)@;
    let ghost mut done: Seq<Cell> = fin.take(0);
    let mut out: Vec<&mut Block> = Vec::new();
    let mut rest: &mut [Cell] = items.as_mut_slice();
    proof {
        assert(done =~= Seq::empty());
        assert(start.take(0) =~= Seq::empty());
        assert(cells_view(done) =~= Seq::empty());
        assert(cells_view(start.take(0)) =~= Seq::empty());
        assert(block_muts_view(out@) =~= Seq::empty());
        assert(cells_blocks(cells_view(done)) =~= Seq::empty());
        assert(blank_cells(cells_view(done)) =~= blank_cells(cells_view(start.take(0))));
        assert(fin =~= done + final(rest)@);
    }
    loop
        invariant
            done.len() + rest@.len() == start.len(),
            forall|k: int| 0 <= k < rest@.len() ==> rest@[k] == start[done.len() + k],
            fin == done + final(rest)@,
            block_muts_view(out@) == cells_blocks(cells_view(start.take(done.len() as int))),
            cells_blocks(cells_view(done)).len() == out@.len(),
            forall|k: int|
                0 <= k < out@.len() ==> (#[trigger] cells_blocks(cells_view(done))[k]) == (*final(out@[k]))@,
            blank_cells(cells_view(done)) == blank_cells(cells_view(start.take(done.len() as int))),
        ensures
            rest@.len() == 0,
        decreases rest@.len(),
    {
        if rest.len() == 0 {
            break ;
        }
        let ghost n = done.len() as int;
        let (head, tail) = rest.split_at_mut(1);
        match head.first_mut() {
            None => {},
            Some(h) => {
                let ghost before = out@;
                let ghost item = *final(h);
                let ghost was = *h;
                let mut hs = cell_handles(h);
                let ghost hs0 = hs@;
                out.append(&mut hs);
                proof {
                    let dv = cells_view(done);
                    let sv = cells_view(start.take(n));
                    assert(cells_view(done.push(item)) =~= dv.push(item@));
                    assert(start.take(n + 1) =~= start.take(n).push(was));
                    assert(cells_view(start.take(n + 1)) =~= sv.push(was@));
                    lemma_cells_push(dv, item@);
                    lemma_cells_push(sv, was@);
                    assert(block_muts_view(out@) =~= block_muts_view(before) + block_muts_view(hs0));
                    assert forall|k: int| 0 <= k < out@.len() implies (#[trigger] cells_blocks(
                        cells_view(done.push(item)),
                    )[k]) == (*final(out@[k]))@ by {
                        if k >= before.len() {
                            assert(out@[k] == hs0[k - before.len()]);
                        } else {
                            assert(out@[k] == before[k]);
                        }
                    }
                    done = done.push(item);
                }
            },
        }
        rest = tail;
    }
    proof {
        assert(start.take(done.len() as int) =~= start);
        assert(fin =~= done);
    }
    out
}

/// A handle on each block of the cells of a row.
pub fn row_handles(row: &mut Row) -> (r: Vec<&mut Block>)
    ensures
        block_muts_view(r@) == row_blocks(old(row)@),
        row_blocks(final(row)@).len() == r@.len(),
        forall|k: int|
            0 <= k < r@.len() ==> (#[trigger] row_blocks(final(row)@)[k]) == (*final(r@[k]))@,
        blank_row(final(row)@) == blank_row(old(row)@),
{
    cells_handles(&mut row.cells)
}

/// A handle on each block of the cells of some rows, row after row.
pub fn rows_handles(items: &mut Vec<Row>) -> (r: Vec<&mut Block>)
    ensures
        block_muts_view(r@) == rows_blocks(rows_view(old(items)@)),
        rows_blocks(rows_view(final(items)@)).len() == r@.len(),
        forall|k: int|
            0 <= k < r@.len() ==> (#[trigger] rows_blocks(rows_view(final(items)@))[k]) == (*final(r@[k]))@,
        blank_rows(rows_view(final(items)@)) == blank_rows(rows_view(old(items)@)),
{
    let ghost fin = final(items)@;
    let ghost start = old(items)@;
    let ghost mut done: Seq<Row> = fin.take(0);
    let mut out: Vec<&mut Block> = Vec::new();
    let mut rest: &mut [Row] = items.as_mut_slice();
    proof {
        assert(done =~= Seq::empty());
        assert(start.take(0) =~= Seq::empty());
        assert(rows_view(done) =~= Seq::empty());
        assert(rows_view(start.take(0)) =~= Seq::empty());
        assert(block_muts_view(out@) =~= Seq::empty());
        assert(rows_blocks(rows_view(done)) =~= Seq::empty());
        assert(blank_rows(rows_view(done)) =~= blank_rows(rows_view(start.take(0))));
        assert(fin =~= done + final(rest)@);
    }
    loop
        invariant
            done.len() + rest@.len() == start.len(),
            forall|k: int| 0 <= k < rest@.len() ==> rest@[k] == start[done.len() + k],
            fin == done + final(rest)@,
            block_muts_view(out@) == rows_blocks(rows_view(start.take(done.len() as int))),
            rows_blocks(rows_view(done)).len() == out@.len(),
            forall|k: int|
                0 <= k < out@.len() ==> (#[trigger] rows_blocks(rows_view(done))[k]) == (*final(out@[k]))@,
            blank_rows(rows_view(done)) == blank_rows(rows_view(start.take(done.len() as int))),
        ensures
            rest@.len() == 0,
        decreases rest@.len(),
    {
        if rest.len() == 0 {
            break ;
        }
        let ghost n = done.len() as int;
        let (head, tail) = rest.split_at_mut(1);
        match head.first_mut() {
            None => {},
            Some(h) => {
                let ghost before = out@;
                let ghost item = *final(h);
                let ghost was = *h;
                let mut hs = row_handles(h);
                let ghost hs0 = hs@;
                out.append(&mut hs);
                proof {
                    let dv = rows_view(done);
                    let sv = rows_view(start.take(n));
                    assert(rows_view(done.push(item)) =~= dv.push(item@));
                    assert(start.take(n + 1) =~= start.take(n).push(was));
                    assert(rows_view(start.take(n + 1)) =~= sv.push(was@));
                    lemma_rows_push(dv, item@);
                    lemma_rows_push(sv, was@);
                    assert(block_muts_view(out@) =~= block_muts_view(before) + block_muts_view(hs0));
                    assert forall|k: int| 0 <= k < out@.len() implies (#[trigger] rows_blocks(
                        rows_view(done.push(item)),
                    )[k]) == (*final(out@[k]))@ by {
                        if k >= before.len() {
                            assert(out@[k] == hs0[k - before.len()]);
                        } else {
                            assert(out@[k] == before[k]);
                        }
                    }
                    done = done.push(item);
                }
            },
        }
        rest = tail;
    }
    proof {
        assert(start.take(done.len() as int) =~= start);
        assert(fin =~= done);
    }
    out
}

/// A handle on each block of a table body: those of its head rows, then
/// those of its body rows.
pub fn body_handles(b: &mut TableBody) -> (r: Vec<&mut Block>)
    ensures
        block_muts_view(r@) == body_blocks(old(b)@),
        body_blocks(final(b)@).len() == r@.len(),
        forall|k: int|
            0 <= k < r@.len() ==> (#[trigger] body_blocks(final(b)@)[k]) == (*final(r@[k]))@,
        blank_body(final(b)@) == blank_body(old(b)@),
{
    let ghost fin = *final(b);
    let mut out = rows_handles(&mut b.head);
    let ghost first = out@;
    let mut more = rows_handles(&mut b.body);
    let ghost second = more@;
    out.append(&mut more);
    proof {
        assert(block_muts_view(out@) =~= block_muts_view(first) + block_muts_view(second));
        assert forall|k: int| 0 <= k < out@.len() implies (#[trigger] body_blocks(fin@)[k]) == (
        *final(out@[k]))@ by {
            if k >= first.len() {
                assert(out@[k] == second[k - first.len()]);
                assert(body_blocks(fin@)[k] == rows_blocks(rows_view(fin.body@))[k - first.len()]);
            } else {
                assert(out@[k] == first[k]);
                assert(body_blocks(fin@)[k] == rows_blocks(rows_view(fin.head@))[k]);
            }
        }
    }
    out
}

/// A handle on each block of some table bodies, body after body.
pub fn bodies_handles(items: &mut Vec<TableBody>) -> (r: Vec<&mut Block>)
    ensures
        block_muts_view(r@) == bodies_blocks(table_bodies_view(old(items)@)),
        bodies_blocks(table_bodies_view(final(items)@)).len() == r@.len(),
        forall|k: int|
            0 <= k < r@.len() ==> (#[trigger] bodies_blocks(table_bodies_view(final(items)@))[k]) == (*final(r@[k]))@,
        blank_bodies(table_bodies_view(final(items)@)) == blank_bodies(table_bodies_view(old(items)@)),
{
    let ghost fin = final(items)@;
    let ghost start = old(items)@;
    let ghost mut done: Seq<TableBody> = fin.take(0);
    let mut out: Vec<&mut Block> = Vec::new();
    let mut rest: &mut [TableBody] = items.as_mut_slice();
    proof {
        assert(done =~= Seq::empty());
        assert(start.take(0) =~= Seq::empty());
        assert(table_bodies_view(done) =~= Seq::empty());
        assert(table_bodies_view(start.take(0)) =~= Seq::empty());
        assert(block_muts_view(out@) =~= Seq::empty());
        assert(bodies_blocks(table_bodies_view(done)) =~= Seq::empty());
        assert(blank_bodies(table_bodies_view(done)) =~= blank_bodies(table_bodies_view(start.take(0))));
        assert(fin =~= done + final(rest)@);
    }
    loop
        invariant
            done.len() + rest@.len() == start.len(),
            forall|k: int| 0 <= k < rest@.len() ==> rest@[k] == start[done.len() + k],
            fin == done + final(rest)@,
            block_muts_view(out@) == bodies_blocks(table_bodies_view(start.take(done.len() as int))),
            bodies_blocks(table_bodies_view(done)).len() == out@.len(),
            forall|k: int|
                0 <= k < out@.len() ==> (#[trigger] bodies_blocks(table_bodies_view(done))[k])
                    == (*final(out@[k]))@,
            blank_bodies(table_bodies_view(done))
                == blank_bodies(table_bodies_view(start.take(done.len() as int))),
        ensures
            rest@.len() == 0,
        decreases rest@.len(),
    {
        if rest.len() == 0 {
            break ;
        }
        let ghost n = done.len() as int;
        let (head, tail) = rest.split_at_mut(1);
        match head.first_mut() {
            None => {},
            Some(h) => {
                let ghost before = out@;
                let ghost item = *final(h);
                let ghost was = *h;
                let mut hs = body_handles(h);
                let ghost hs0 = hs@;
                out.append(&mut hs);
                proof {
                    let dv = table_bodies_view(done);
                    let sv = table_bodies_view(start.take(n));
                    assert(table_bodies_view(done.push(item)) =~= dv.push(item@));
                    assert(start.take(n + 1) =~= start.take(n).push(was));
                    assert(table_bodies_view(start.take(n + 1)) =~= sv.push(was@));
                    lemma_bodies_push(dv, item@);
                    lemma_bodies_push(sv, was@);
                    assert(block_muts_view(out@) =~= block_muts_view(before) + block_muts_view(hs0));
                    assert forall|k: int| 0 <= k < out@.len() implies (#[trigger] bodies_blocks(
                        table_bodies_view(done.push(item)),
                    )[k]) == (*final(out@[k]))@ by {
                        if k >= before.len() {
                            assert(out@[k] == hs0[k - before.len()]);
                        } else {
                            assert(out@[k] == before[k]);
                        }
                    }
                    done = done.push(item);
                }
            },
        }
        rest = tail;
    }
    proof {
        assert(start.take(done.len() as int) =~= start);
        assert(fin =~= done);
    }
    out
}

/// A handle on each inline of a term.
pub fn term_handles(d: &mut (Vec<Inline>, Vec<Vec<Block>>)) -> (r: Vec<&mut Inline>)
    ensures
        inline_muts_view(r@) == inlines_view(old(d).0@),
        inlines_view(final(d).0@).len() == r@.len(),
        forall|k: int|
            0 <= k < r@.len() ==> (#[trigger] inlines_view(final(d).0@)[k]) == (*final(r@[k]))@,
        final(d).0@.len() == old(d).0@.len(),
        final(d).1 == old(d).1,
{
    inline_handles(&mut d.0)
}

/// A handle on each inline of the terms of a definition list.
pub fn terms_handles(items: &mut Vec<(Vec<Inline>, Vec<Vec<Block>>)>) -> (r: Vec<&mut Inline>)
    ensures
        inline_muts_view(r@) == definitions_inlines(definitions_view(old(items)@)),
        definitions_inlines(definitions_view(final(items)@)).len() == r@.len(),
        forall|k: int|
            0 <= k < r@.len() ==> (#[trigger] definitions_inlines(definitions_view(final(items)@))[k]) == (*final(r@[k]))@,
        blank_terms(definitions_view(final(items)@)) == blank_terms(definitions_view(old(items)@)),
{
    let ghost fin = final(items)@;
    let ghost start = old(items)@;
    let ghost mut done: Seq<(Vec<Inline>, Vec<Vec<Block>>)> = fin.take(0);
    let mut out: Vec<&mut Inline> = Vec::new();
    let mut rest: &mut [(Vec<Inline>, Vec<Vec<Block>>)] = items.as_mut_slice();
    proof {
        assert(done =~= Seq::empty());
        assert(start.take(0) =~= Seq::empty());
        assert(definitions_view(done) =~= Seq::empty());
        assert(definitions_view(start.take(0)) =~= Seq::empty());
        assert(inline_muts_view(out@) =~= Seq::empty());
        assert(definitions_inlines(definitions_view(done)) =~= Seq::empty());
        assert(blank_terms(definitions_view(done)) =~= blank_terms(definitions_view(start.take(0))));
        assert(fin =~= done + final(rest)@);
    }
    loop
        invariant
            done.len() + rest@.len() == start.len(),
            forall|k: int| 0 <= k < rest@.len() ==> rest@[k] == start[done.len() + k],
            fin == done + final(rest)@,
            inline_muts_view(out@) == definitions_inlines(definitions_view(start.take(done.len() as int))),
            definitions_inlines(definitions_view(done)).len() == out@.len(),
            forall|k: int|
                0 <= k < out@.len() ==> (#[trigger] definitions_inlines(definitions_view(done))[k]) == (*final(out@[k]))@,
            blank_terms(definitions_view(done))
                == blank_terms(definitions_view(start.take(done.len() as int))),
        ensures
            rest@.len() == 0,
        decreases rest@.len(),
    {
        if rest.len() == 0 {
            break ;
        }
        let ghost n = done.len() as int;
        let (head, tail) = rest.split_at_mut(1);
        match head.first_mut() {
            None => {},
            Some(h) => {
                let ghost before = out@;
                let ghost item = *final(h);
                let ghost was = *h;
                let mut hs = term_handles(h);
                let ghost hs0 = hs@;
                out.append(&mut hs);
                proof {
                    let dv = definitions_view(done);
                    let sv = definitions_view(start.take(n));
                    assert(definitions_view(done.push(item))
                        =~= dv.push((inlines_view(item.0@), block_lists_view(item.1@))));
                    assert(start.take(n + 1) =~= start.take(n).push(was));
                    assert(definitions_view(start.take(n + 1))
                        =~= sv.push((inlines_view(was.0@), block_lists_view(was.1@))));
                    lemma_definitions_push(dv, (inlines_view(item.0@), block_lists_view(item.1@)));
                    lemma_definitions_push(sv, (inlines_view(was.0@), block_lists_view(was.1@)));
                    assert(inline_muts_view(out@) =~= inline_muts_view(before) + inline_muts_view(hs0));
                    assert forall|k: int| 0 <= k < out@.len() implies (#[trigger] definitions_inlines(
                        definitions_view(done.push(item)),
                    )[k]) == (*final(out@[k]))@ by {
                        if k >= before.len() {
                            assert(out@[k] == hs0[k - before.len()]);
                        } else {
                            assert(out@[k] == before[k]);
                        }
                    }
                    done = done.push(item);
                }
            },
        }
        rest = tail;
    }
    proof {
        assert(start.take(done.len() as int) =~= start);
        assert(fin =~= done);
    }
    out
}

} // verus!
