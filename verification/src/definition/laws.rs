//! The laws of the model: of traversal, and of the equality of metadata.
//!
//! A node is determined by its children together with what it is apart
//! from them. So what the mutable traversal promises settles the whole node:
//! a child changes only through its own handle, and nothing else changes.
//!
//! Metadata mappings are compared as mappings. Among mappings without
//! repeated keys that comparison is an equivalence.

use crate::definition::children::blank_block_lists;
use crate::definition::children::blank_bodies;
use crate::definition::children::blank_body;
use crate::definition::children::blank_cell;
use crate::definition::children::blank_cells;
use crate::definition::children::blank_definitions;
use crate::definition::children::blank_row;
use crate::definition::children::blank_rows;
use crate::definition::children::blank_terms;
use crate::definition::children::bodies_blocks;
use crate::definition::children::body_blocks;
use crate::definition::children::cells_blocks;
use crate::definition::children::concat;
use crate::definition::children::definitions_blocks;
use crate::definition::children::definitions_inlines;
use crate::definition::children::null_blocks;
use crate::definition::children::row_blocks;
use crate::definition::children::rows_blocks;
use crate::definition::children::space_inlines;
use crate::definition::view::has_key;
use crate::definition::view::key_index;
use crate::definition::view::keys_distinct;
use crate::definition::view::meta_same;
use crate::definition::view::meta_value_same;
use crate::definition::view::BlockView;
use crate::definition::view::CellView;
use crate::definition::view::InlineView;
use crate::definition::view::MetaValueView;
use crate::definition::view::MetaView;
use crate::definition::view::PandocView;
use crate::definition::view::RowView;
use crate::definition::view::TableBodyView;
use crate::definition::view::TableView;
use vstd::prelude::*;
use vstd::relations::injective_on;
use vstd::set_lib::lemma_int_range;
use vstd::set_lib::lemma_map_size;
use vstd::set_lib::lemma_subset_equality;
use vstd::set_lib::set_int_range;

verus! {

/// Lists of the same lengths are as long together.
pub proof fn lemma_concat_len<T>(x: Seq<Seq<T>>, y: Seq<Seq<T>>)
    requires
        x.len() == y.len(),
        forall|k: int| 0 <= k < x.len() ==> (#[trigger] x[k]).len() == y[k].len(),
    ensures
        concat(x).len() == concat(y).len(),
    decreases x.len(),
{
    if x.len() > 0 {
        lemma_concat_len(x.drop_last(), y.drop_last());
    }
}

/// Lists of the same lengths that are equal when joined are equal one by
/// one.
pub proof fn lemma_concat_injective<T>(x: Seq<Seq<T>>, y: Seq<Seq<T>>)
    requires
        x.len() == y.len(),
        forall|k: int| 0 <= k < x.len() ==> (#[trigger] x[k]).len() == y[k].len(),
        concat(x) == concat(y),
    ensures
        x == y,
    decreases x.len(),
{
    if x.len() > 0 {
        let xf = x.drop_last();
        let yf = y.drop_last();
        lemma_concat_len(xf, yf);
        let n = concat(xf).len() as int;
        assert(concat(x).subrange(0, n) =~= concat(xf));
        assert(concat(y).subrange(0, n) =~= concat(yf));
        assert(concat(x).subrange(n, concat(x).len() as int) =~= x.last());
        assert(concat(y).subrange(n, concat(y).len() as int) =~= y.last());
        lemma_concat_injective(xf, yf);
        assert(x =~= xf.push(x.last()));
        assert(y =~= yf.push(y.last()));
    } else {
        assert(x =~= y);
    }
}

/// Two lists that are equal when each is followed by another, and that are
/// equally long, are equal, and so is what follows them.
pub proof fn lemma_append_injective<T>(a: Seq<T>, b: Seq<T>, c: Seq<T>, d: Seq<T>)
    requires
        a.len() == c.len(),
        a + b == c + d,
    ensures
        a == c,
        b == d,
{
    let n = a.len() as int;
    assert((a + b).subrange(0, n) =~= a);
    assert((c + d).subrange(0, n) =~= c);
    assert((a + b).subrange(n, (a + b).len() as int) =~= b);
    assert((c + d).subrange(n, (c + d).len() as int) =~= d);
}

/// As many null blocks are as many.
proof fn lemma_null_blocks(n: nat, m: nat)
    ensures
        null_blocks(n) == null_blocks(m) ==> n == m,
{
    assert(null_blocks(n).len() == n);
    assert(null_blocks(m).len() == m);
}

/// As many spaces are as many.
proof fn lemma_space_inlines(n: nat, m: nat)
    ensures
        space_inlines(n) == space_inlines(m) ==> n == m,
{
    assert(space_inlines(n).len() == n);
    assert(space_inlines(m).len() == m);
}

/// Lists of blocks that are alike apart from their blocks have the same
/// lengths.
proof fn lemma_block_lists_shape(x: Seq<Seq<BlockView>>, y: Seq<Seq<BlockView>>)
    requires
        blank_block_lists(x) == blank_block_lists(y),
    ensures
        x.len() == y.len(),
        forall|k: int| 0 <= k < x.len() ==> (#[trigger] x[k]).len() == y[k].len(),
        concat(x).len() == concat(y).len(),
{
    assert(blank_block_lists(x).len() == x.len());
    assert(blank_block_lists(y).len() == y.len());
    assert forall|k: int| 0 <= k < x.len() implies (#[trigger] x[k]).len() == y[k].len() by {
        assert(blank_block_lists(x)[k] == blank_block_lists(y)[k]);
        lemma_null_blocks(x[k].len(), y[k].len());
    }
    lemma_concat_len(x, y);
}

/// Lists of blocks are determined by their blocks and their lengths.
pub proof fn law_block_lists_determined(x: Seq<Seq<BlockView>>, y: Seq<Seq<BlockView>>)
    requires
        blank_block_lists(x) == blank_block_lists(y),
        concat(x) == concat(y),
    ensures
        x == y,
{
    lemma_block_lists_shape(x, y);
    lemma_concat_injective(x, y);
}

/// The definitions of a definition list are determined by their blocks and
/// by what they are apart from them.
pub proof fn law_definitions_determined(
    x: Seq<(Seq<InlineView>, Seq<Seq<BlockView>>)>,
    y: Seq<(Seq<InlineView>, Seq<Seq<BlockView>>)>,
)
    requires
        blank_definitions(x) == blank_definitions(y),
        definitions_blocks(x) == definitions_blocks(y),
    ensures
        x == y,
{
    let a = Seq::new(x.len(), |k: int| concat(x[k].1));
    let b = Seq::new(y.len(), |k: int| concat(y[k].1));
    assert(blank_definitions(x).len() == x.len());
    assert(blank_definitions(y).len() == y.len());
    assert forall|k: int| 0 <= k < x.len() implies (#[trigger] a[k]).len() == b[k].len() && x[k].0
        == y[k].0 && blank_block_lists(x[k].1) == blank_block_lists(y[k].1) by {
        assert(blank_definitions(x)[k] == blank_definitions(y)[k]);
        lemma_block_lists_shape(x[k].1, y[k].1);
    }
    lemma_concat_injective(a, b);
    assert forall|k: int| 0 <= k < x.len() implies x[k] == y[k] by {
        assert(a[k] == b[k]);
        law_block_lists_determined(x[k].1, y[k].1);
    }
    assert(x =~= y);
}

/// The terms of a definition list are determined by their inlines and by
/// what the list is apart from them.
pub proof fn law_terms_determined(
    x: Seq<(Seq<InlineView>, Seq<Seq<BlockView>>)>,
    y: Seq<(Seq<InlineView>, Seq<Seq<BlockView>>)>,
)
    requires
        blank_terms(x) == blank_terms(y),
        definitions_inlines(x) == definitions_inlines(y),
    ensures
        x == y,
{
    let a = Seq::new(x.len(), |k: int| x[k].0);
    let b = Seq::new(y.len(), |k: int| y[k].0);
    assert(blank_terms(x).len() == x.len());
    assert(blank_terms(y).len() == y.len());
    assert forall|k: int| 0 <= k < x.len() implies (#[trigger] a[k]).len() == b[k].len() && x[k].1
        == y[k].1 by {
        assert(blank_terms(x)[k] == blank_terms(y)[k]);
        lemma_space_inlines(x[k].0.len(), y[k].0.len());
    }
    lemma_concat_injective(a, b);
    assert forall|k: int| 0 <= k < x.len() implies x[k] == y[k] by {
        assert(a[k] == b[k]);
    }
    assert(x =~= y);
}

/// Cells that are alike apart from their blocks have as many blocks.
proof fn lemma_cells_shape(x: Seq<CellView>, y: Seq<CellView>)
    requires
        blank_cells(x) == blank_cells(y),
    ensures
        x.len() == y.len(),
        forall|k: int|
            0 <= k < x.len() ==> (#[trigger] x[k]).content.len() == y[k].content.len()
                && blank_cell(x[k]) == blank_cell(y[k]),
        cells_blocks(x).len() == cells_blocks(y).len(),
{
    assert(blank_cells(x).len() == x.len());
    assert(blank_cells(y).len() == y.len());
    assert forall|k: int| 0 <= k < x.len() implies (#[trigger] x[k]).content.len()
        == y[k].content.len() && blank_cell(x[k]) == blank_cell(y[k]) by {
        assert(blank_cells(x)[k] == blank_cell(x[k]));
        assert(blank_cells(y)[k] == blank_cell(y[k]));
        assert(blank_cell(x[k]).content == blank_cell(y[k]).content);
        lemma_null_blocks(x[k].content.len(), y[k].content.len());
    }
    lemma_concat_len(
        Seq::new(x.len(), |k: int| x[k].content),
        Seq::new(y.len(), |k: int| y[k].content),
    );
}

/// Cells are determined by their blocks and by what they are apart from
/// them.
pub proof fn law_cells_determined(x: Seq<CellView>, y: Seq<CellView>)
    requires
        blank_cells(x) == blank_cells(y),
        cells_blocks(x) == cells_blocks(y),
    ensures
        x == y,
{
    lemma_cells_shape(x, y);
    let a = Seq::new(x.len(), |k: int| x[k].content);
    let b = Seq::new(y.len(), |k: int| y[k].content);
    lemma_concat_injective(a, b);
    assert forall|k: int| 0 <= k < x.len() implies x[k] == y[k] by {
        assert(a[k] == b[k]);
        assert(blank_cell(x[k]) == blank_cell(y[k]));
    }
    assert(x =~= y);
}

/// Rows that are alike apart from their blocks have as many blocks.
proof fn lemma_rows_shape(x: Seq<RowView>, y: Seq<RowView>)
    requires
        blank_rows(x) == blank_rows(y),
    ensures
        x.len() == y.len(),
        forall|k: int|
            0 <= k < x.len() ==> row_blocks(#[trigger] x[k]).len() == row_blocks(y[k]).len()
                && blank_row(x[k]) == blank_row(y[k]),
        rows_blocks(x).len() == rows_blocks(y).len(),
{
    assert(blank_rows(x).len() == x.len());
    assert(blank_rows(y).len() == y.len());
    assert forall|k: int| 0 <= k < x.len() implies row_blocks(#[trigger] x[k]).len() == row_blocks(
        y[k],
    ).len() && blank_row(x[k]) == blank_row(y[k]) by {
        assert(blank_rows(x)[k] == blank_row(x[k]));
        assert(blank_rows(y)[k] == blank_row(y[k]));
        assert(blank_row(x[k]).cells == blank_row(y[k]).cells);
        lemma_cells_shape(x[k].cells, y[k].cells);
    }
    lemma_concat_len(
        Seq::new(x.len(), |k: int| row_blocks(x[k])),
        Seq::new(y.len(), |k: int| row_blocks(y[k])),
    );
}

/// Rows are determined by their blocks and by what they are apart from
/// them.
pub proof fn law_rows_determined(x: Seq<RowView>, y: Seq<RowView>)
    requires
        blank_rows(x) == blank_rows(y),
        rows_blocks(x) == rows_blocks(y),
    ensures
        x == y,
{
    lemma_rows_shape(x, y);
    let a = Seq::new(x.len(), |k: int| row_blocks(x[k]));
    let b = Seq::new(y.len(), |k: int| row_blocks(y[k]));
    lemma_concat_injective(a, b);
    assert forall|k: int| 0 <= k < x.len() implies x[k] == y[k] by {
        assert(a[k] == b[k]);
        assert(blank_row(x[k]) == blank_row(y[k]));
        law_cells_determined(x[k].cells, y[k].cells);
    }
    assert(x =~= y);
}

/// Table bodies that are alike apart from their blocks have as many
/// blocks.
proof fn lemma_bodies_shape(x: Seq<TableBodyView>, y: Seq<TableBodyView>)
    requires
        blank_bodies(x) == blank_bodies(y),
    ensures
        x.len() == y.len(),
        forall|k: int|
            0 <= k < x.len() ==> body_blocks(#[trigger] x[k]).len() == body_blocks(y[k]).len()
                && blank_body(x[k]) == blank_body(y[k]),
        bodies_blocks(x).len() == bodies_blocks(y).len(),
{
    assert(blank_bodies(x).len() == x.len());
    assert(blank_bodies(y).len() == y.len());
    assert forall|k: int| 0 <= k < x.len() implies body_blocks(#[trigger] x[k]).len()
        == body_blocks(y[k]).len() && blank_body(x[k]) == blank_body(y[k]) by {
        assert(blank_bodies(x)[k] == blank_body(x[k]));
        assert(blank_bodies(y)[k] == blank_body(y[k]));
        assert(blank_body(x[k]).head == blank_body(y[k]).head);
        assert(blank_body(x[k]).body == blank_body(y[k]).body);
        lemma_rows_shape(x[k].head, y[k].head);
        lemma_rows_shape(x[k].body, y[k].body);
    }
    lemma_concat_len(
        Seq::new(x.len(), |k: int| body_blocks(x[k])),
        Seq::new(y.len(), |k: int| body_blocks(y[k])),
    );
}

/// Table bodies are determined by their blocks and by what they are apart
/// from them.
pub proof fn law_bodies_determined(x: Seq<TableBodyView>, y: Seq<TableBodyView>)
    requires
        blank_bodies(x) == blank_bodies(y),
        bodies_blocks(x) == bodies_blocks(y),
    ensures
        x == y,
{
    lemma_bodies_shape(x, y);
    let a = Seq::new(x.len(), |k: int| body_blocks(x[k]));
    let b = Seq::new(y.len(), |k: int| body_blocks(y[k]));
    lemma_concat_injective(a, b);
    assert forall|k: int| 0 <= k < x.len() implies x[k] == y[k] by {
        assert(a[k] == b[k]);
        assert(blank_body(x[k]) == blank_body(y[k]));
        lemma_rows_shape(x[k].head, y[k].head);
        lemma_append_injective(
            rows_blocks(x[k].head),
            rows_blocks(x[k].body),
            rows_blocks(y[k].head),
            rows_blocks(y[k].body),
        );
        law_rows_determined(x[k].head, y[k].head);
        law_rows_determined(x[k].body, y[k].body);
    }
    assert(x =~= y);
}

/// A table is determined by its child blocks and by what it is apart from
/// them.
pub proof fn law_table_blocks_determined(x: TableView, y: TableView)
    requires
        x.blank_blocks() == y.blank_blocks(),
        x.child_blocks() == y.child_blocks(),
    ensures
        x == y,
{
    lemma_null_blocks(x.caption.long.len(), y.caption.long.len());
    lemma_rows_shape(x.head.rows, y.head.rows);
    lemma_bodies_shape(x.bodies, y.bodies);
    lemma_rows_shape(x.foot.rows, y.foot.rows);
    let x0 = x.caption.long;
    let x1 = rows_blocks(x.head.rows);
    let x2 = bodies_blocks(x.bodies);
    let x3 = rows_blocks(x.foot.rows);
    let y0 = y.caption.long;
    let y1 = rows_blocks(y.head.rows);
    let y2 = bodies_blocks(y.bodies);
    let y3 = rows_blocks(y.foot.rows);
    lemma_append_injective(x0 + x1 + x2, x3, y0 + y1 + y2, y3);
    lemma_append_injective(x0 + x1, x2, y0 + y1, y2);
    lemma_append_injective(x0, x1, y0, y1);
    law_rows_determined(x.head.rows, y.head.rows);
    law_bodies_determined(x.bodies, y.bodies);
    law_rows_determined(x.foot.rows, y.foot.rows);
}

/// A block is determined by its child blocks and by what it is apart from
/// them. So a block whose handles were given back is settled by what the
/// handles held: a child that was not changed through its handle is as it
/// was, and so is everything in the block that is no child block.
pub proof fn law_block_blocks_determined(x: BlockView, y: BlockView)
    requires
        x.blank_blocks() == y.blank_blocks(),
        x.child_blocks() == y.child_blocks(),
    ensures
        x == y,
{
    match x {
        BlockView::BulletList(a) => {
            law_block_lists_determined(a, y->BulletList_0);
        },
        BlockView::OrderedList(_, a) => {
            law_block_lists_determined(a, y->OrderedList_1);
        },
        BlockView::DefinitionList(a) => {
            law_definitions_determined(a, y->DefinitionList_0);
        },
        BlockView::Table(t) => {
            law_table_blocks_determined(t, y->Table_0);
        },
        _ => {},
    }
}

/// A block is determined by its child inlines and by what it is apart
/// from them.
pub proof fn law_block_inlines_determined(x: BlockView, y: BlockView)
    requires
        x.blank_inlines() == y.blank_inlines(),
        x.child_inlines() == y.child_inlines(),
    ensures
        x == y,
{
    match x {
        BlockView::DefinitionList(a) => {
            law_terms_determined(a, y->DefinitionList_0);
        },
        BlockView::Table(t) => {
            let u = y->Table_0;
            assert(t.blank_inlines() == u.blank_inlines());
            assert(t.caption.short is Some == u.caption.short is Some);
            assert(t.caption == u.caption);
        },
        _ => {},
    }
}

/// An inline is determined by its child blocks and by what it is apart
/// from them.
pub proof fn law_inline_blocks_determined(x: InlineView, y: InlineView)
    requires
        x.blank_blocks() == y.blank_blocks(),
        x.child_blocks() == y.child_blocks(),
    ensures
        x == y,
{
}

/// An inline is determined by its child inlines and by what it is apart
/// from them.
pub proof fn law_inline_inlines_determined(x: InlineView, y: InlineView)
    requires
        x.blank_inlines() == y.blank_inlines(),
        x.child_inlines() == y.child_inlines(),
    ensures
        x == y,
{
}

/// A document is determined by its blocks and its metadata.
pub proof fn law_pandoc_blocks_determined(x: PandocView, y: PandocView)
    requires
        x.blank_blocks() == y.blank_blocks(),
        x.child_blocks() == y.child_blocks(),
    ensures
        x == y,
{
}

/// Mutation isolation: where one child block was changed through its
/// handle and the others were not, the block after the change has the new
/// child in the place of the old one, every other child as it was, and is
/// otherwise what it was. Any block of which that holds is the same block.
pub proof fn law_mutation_isolation(
    before: BlockView,
    after: BlockView,
    other: BlockView,
    k: int,
    child: BlockView,
)
    requires
        0 <= k < before.child_blocks().len(),
        after.blank_blocks() == before.blank_blocks(),
        after.child_blocks() == before.child_blocks().update(k, child),
        other.blank_blocks() == before.blank_blocks(),
        other.child_blocks() == before.child_blocks().update(k, child),
    ensures
        after == other,
        after.child_blocks().len() == before.child_blocks().len(),
        forall|j: int|
            0 <= j < before.child_blocks().len() && j != k ==> after.child_blocks()[j]
                == before.child_blocks()[j],
        after.child_blocks()[k] == child,
{
    law_block_blocks_determined(after, other);
}

/// Whether `f` takes the value `j` on one of the first `n` numbers.
pub open spec fn takes(f: spec_fn(int) -> int, n: nat, j: int) -> bool {
    exists|k: int| 0 <= k < n && #[trigger] f(k) == j
}

/// A function from the first `n` numbers into them that takes no value
/// twice takes every one of them.
proof fn lemma_injective_is_onto(n: nat, f: spec_fn(int) -> int)
    requires
        forall|k: int| 0 <= k < n ==> 0 <= #[trigger] f(k) < n,
        forall|a: int, b: int| 0 <= a < n && 0 <= b < n && #[trigger] f(a) == #[trigger] f(b) ==> a == b,
    ensures
        forall|j: int| 0 <= j < n ==> #[trigger] takes(f, n, j),
{
    let x = set_int_range(0, n as int);
    let y = x.map(f);
    lemma_int_range(0, n as int);
    assert(injective_on(f, x));
    lemma_map_size(x, y, f);
    assert(y.subset_of(x)) by {
        assert forall|j: int| y.contains(j) implies x.contains(j) by {
            let k = choose|k: int| x.contains(k) && f(k) == j;
            assert(0 <= f(k) < n);
        }
    }
    lemma_subset_equality(y, x);
    assert forall|j: int| 0 <= j < n implies #[trigger] takes(f, n, j) by {
        assert(x.contains(j));
        assert(y.contains(j));
        let k = choose|k: int| x.contains(k) && f(k) == j;
        assert(0 <= k < n && f(k) == j);
    }
}

/// Whether `i` is the place of the first entry with the key.
pub open spec fn is_first(entries: Seq<(Seq<char>, MetaValueView)>, key: Seq<char>, i: int) -> bool {
    0 <= i < entries.len() && (#[trigger] entries[i]).0 == key && forall|k: int|
        0 <= k < i ==> (#[trigger] entries[k]).0 != key
}

/// Before an entry with the key there is a first entry with it.
proof fn lemma_first_exists(entries: Seq<(Seq<char>, MetaValueView)>, key: Seq<char>, w: int)
    requires
        0 <= w < entries.len(),
        entries[w].0 == key,
    ensures
        exists|i: int| is_first(entries, key, i),
    decreases w,
{
    if exists|x: int| 0 <= x < w && (#[trigger] entries[x]).0 == key {
        let x = choose|x: int| 0 <= x < w && (#[trigger] entries[x]).0 == key;
        lemma_first_exists(entries, key, x);
    } else {
        assert(is_first(entries, key, w));
    }
}

/// Where some entry has the key, [`key_index`] is the place of the first
/// entry with it.
pub proof fn lemma_key_index(entries: Seq<(Seq<char>, MetaValueView)>, key: Seq<char>)
    requires
        has_key(entries, key),
    ensures
        is_first(entries, key, key_index(entries, key)),
{
    let w = choose|i: int| 0 <= i < entries.len() && (#[trigger] entries[i]).0 == key;
    lemma_first_exists(entries, key, w);
    let i = choose|i: int| is_first(entries, key, i);
    assert(0 <= i < entries.len() && (#[trigger] entries[i]).0 == key && forall|k: int|
        0 <= k < i ==> (#[trigger] entries[k]).0 != key);
}

/// In entries without a repeated key, the place of an entry's key is the
/// place of the entry.
pub proof fn lemma_key_index_distinct(entries: Seq<(Seq<char>, MetaValueView)>, k: int)
    requires
        keys_distinct(entries),
        0 <= k < entries.len(),
    ensures
        has_key(entries, entries[k].0),
        key_index(entries, entries[k].0) == k,
{
    let key = entries[k].0;
    assert(has_key(entries, key));
    let i = key_index(entries, key);
    assert(entries[k].0 == key && forall|x: int| 0 <= x < k ==> (#[trigger] entries[x]).0 != key);
    assert(0 <= i < entries.len() && entries[i].0 == key);
    if i < k {
        assert(entries[i].0 != entries[k].0);
    } else if k < i {
        assert(entries[k].0 != entries[i].0);
    }
}

/// A metadata value without repeated keys is the same as itself.
pub proof fn law_meta_value_same_reflexive(x: MetaValueView)
    requires
        x.wf(),
    ensures
        meta_value_same(x, x),
    decreases x,
{
    match x {
        MetaValueView::MetaMap(m) => {
            law_meta_same_reflexive(m);
        },
        MetaValueView::MetaList(l) => {
            assert forall|k: int| 0 <= k < l.len() implies meta_value_same(
                #[trigger] l[k],
                x->MetaList_0[k],
            ) by {
                law_meta_value_same_reflexive(l[k]);
            }
        },
        _ => {},
    }
}

/// A metadata mapping without repeated keys is the same as itself. So
/// mappings with the same entries in the same order are the same mapping.
pub proof fn law_meta_same_reflexive(a: MetaView)
    requires
        a.wf(),
    ensures
        meta_same(a, a),
    decreases a,
{
    assert forall|k: int| 0 <= k < a.entries.len() implies has_key(
        a.entries,
        (#[trigger] a.entries[k]).0,
    ) && meta_value_same(a.entries[k].1, a.entries[key_index(a.entries, a.entries[k].0)].1) by {
        lemma_key_index_distinct(a.entries, k);
        law_meta_value_same_reflexive(a.entries[k].1);
    }
}

/// Sameness of metadata values without repeated keys goes both ways.
pub proof fn law_meta_value_same_symmetric(x: MetaValueView, y: MetaValueView)
    requires
        x.wf(),
        y.wf(),
        meta_value_same(x, y),
    ensures
        meta_value_same(y, x),
    decreases x,
{
    match x {
        MetaValueView::MetaMap(m) => {
            law_meta_same_symmetric(m, y->MetaMap_0);
        },
        MetaValueView::MetaList(l) => {
            let r = y->MetaList_0;
            assert forall|k: int| 0 <= k < r.len() implies meta_value_same(
                #[trigger] r[k],
                x->MetaList_0[k],
            ) by {
                assert(meta_value_same(l[k], r[k]));
                law_meta_value_same_symmetric(l[k], r[k]);
            }
        },
        _ => {},
    }
}

/// Sameness of metadata mappings without repeated keys goes both ways.
pub proof fn law_meta_same_symmetric(a: MetaView, b: MetaView)
    requires
        a.wf(),
        b.wf(),
        meta_same(a, b),
    ensures
        meta_same(b, a),
    decreases a,
{
    let n = a.entries.len();
    let f = |k: int| key_index(b.entries, a.entries[k].0);
    assert forall|k: int| 0 <= k < n implies 0 <= #[trigger] f(k) < n && b.entries[f(k)].0
        == a.entries[k].0 by {
        assert(has_key(b.entries, a.entries[k].0));
    }
    assert forall|x: int, y: int| 0 <= x < n && 0 <= y < n && #[trigger] f(x) == #[trigger] f(
        y,
    ) implies x == y by {
        assert(b.entries[f(x)].0 == a.entries[x].0);
        assert(b.entries[f(y)].0 == a.entries[y].0);
        if x < y {
            assert(a.entries[x].0 != a.entries[y].0);
        } else if y < x {
            assert(a.entries[y].0 != a.entries[x].0);
        }
    }
    lemma_injective_is_onto(n, f);
    assert forall|j: int| 0 <= j < b.entries.len() implies has_key(
        a.entries,
        (#[trigger] b.entries[j]).0,
    ) && meta_value_same(b.entries[j].1, a.entries[key_index(a.entries, b.entries[j].0)].1) by {
        assert(takes(f, n, j));
        let k = choose|k: int| 0 <= k < n && #[trigger] f(k) == j;
        assert(b.entries[f(k)].0 == a.entries[k].0);
        lemma_key_index_distinct(a.entries, k);
        assert(meta_value_same(a.entries[k].1, b.entries[f(k)].1));
        law_meta_value_same_symmetric(a.entries[k].1, b.entries[j].1);
    }
}

/// Metadata values that are both the same as a third are the same.
pub proof fn law_meta_value_same_transitive(x: MetaValueView, y: MetaValueView, z: MetaValueView)
    requires
        meta_value_same(x, y),
        meta_value_same(y, z),
    ensures
        meta_value_same(x, z),
    decreases x,
{
    match x {
        MetaValueView::MetaMap(m) => {
            law_meta_same_transitive(m, y->MetaMap_0, z->MetaMap_0);
        },
        MetaValueView::MetaList(l) => {
            let r = y->MetaList_0;
            let t = z->MetaList_0;
            assert forall|k: int| 0 <= k < l.len() implies meta_value_same(
                #[trigger] l[k],
                z->MetaList_0[k],
            ) by {
                assert(meta_value_same(l[k], r[k]));
                assert(meta_value_same(r[k], t[k]));
                law_meta_value_same_transitive(l[k], r[k], t[k]);
            }
        },
        _ => {},
    }
}

/// Metadata mappings that are both the same as a third are the same.
pub proof fn law_meta_same_transitive(a: MetaView, b: MetaView, c: MetaView)
    requires
        meta_same(a, b),
        meta_same(b, c),
    ensures
        meta_same(a, c),
    decreases a,
{
    assert forall|k: int| 0 <= k < a.entries.len() implies has_key(
        c.entries,
        (#[trigger] a.entries[k]).0,
    ) && meta_value_same(a.entries[k].1, c.entries[key_index(c.entries, a.entries[k].0)].1) by {
        let key = a.entries[k].0;
        assert(has_key(b.entries, key));
        lemma_key_index(b.entries, key);
        let j = key_index(b.entries, key);
        assert(b.entries[j].0 == key);
        assert(has_key(c.entries, b.entries[j].0));
        let i = key_index(c.entries, key);
        assert(meta_value_same(a.entries[k].1, b.entries[j].1));
        assert(meta_value_same(b.entries[j].1, c.entries[i].1));
        law_meta_value_same_transitive(a.entries[k].1, b.entries[j].1, c.entries[i].1);
    }
}

} // verus!
