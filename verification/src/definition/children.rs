//! What the children of a node are, stated over the models.
//!
//! A node's child blocks are the blocks one level below it, and its child
//! inlines the inlines one level below it, each in document order. Lists of
//! lists are flattened: the child blocks of a bullet list are the blocks of
//! its first item, then those of its second, and so on.

use crate::definition::view::BlockView;
use crate::definition::view::CaptionView;
use crate::definition::view::CellView;
use crate::definition::view::InlineView;
use crate::definition::view::PandocView;
use crate::definition::view::RowView;
use crate::definition::view::TableBodyView;
use crate::definition::view::TableFootView;
use crate::definition::view::TableHeadView;
use crate::definition::view::TableView;
use vstd::prelude::*;

verus! {

/// The lists joined end to end.
pub open spec fn concat<T>(lists: Seq<Seq<T>>) -> Seq<T>
    decreases lists.len(),
{
    if lists.len() == 0 {
        Seq::empty()
    } else {
        concat(lists.drop_last()) + lists.last()
    }
}

/// The blocks of some cells, cell after cell.
pub open spec fn cells_blocks(cells: Seq<CellView>) -> Seq<BlockView> {
    concat(Seq::new(cells.len(), |k: int| cells[k].content))
}

/// The blocks of the cells of a row, cell after cell.
pub open spec fn row_blocks(r: RowView) -> Seq<BlockView> {
    cells_blocks(r.cells)
}

/// The blocks of the cells of some rows, row after row.
pub open spec fn rows_blocks(rows: Seq<RowView>) -> Seq<BlockView> {
    concat(Seq::new(rows.len(), |k: int| row_blocks(rows[k])))
}

/// The blocks of a table body: those of its head rows, then those of its
/// body rows.
pub open spec fn body_blocks(b: TableBodyView) -> Seq<BlockView> {
    rows_blocks(b.head) + rows_blocks(b.body)
}

/// The blocks of some table bodies, body after body.
pub open spec fn bodies_blocks(bodies: Seq<TableBodyView>) -> Seq<BlockView> {
    concat(Seq::new(bodies.len(), |k: int| body_blocks(bodies[k])))
}

/// The blocks of the definitions of some terms, term after term and
/// definition after definition.
pub open spec fn definitions_blocks(d: Seq<(Seq<InlineView>, Seq<Seq<BlockView>>)>) -> Seq<
    BlockView,
> {
    concat(Seq::new(d.len(), |k: int| concat(d[k].1)))
}

/// The inlines of the terms, term after term.
pub open spec fn definitions_inlines(d: Seq<(Seq<InlineView>, Seq<Seq<BlockView>>)>) -> Seq<
    InlineView,
> {
    concat(Seq::new(d.len(), |k: int| d[k].0))
}

impl TableView {
    /// The long caption, then the cells of the head, of each body and of
    /// the foot.
    pub open spec fn child_blocks(self) -> Seq<BlockView> {
        self.caption.long + rows_blocks(self.head.rows) + bodies_blocks(self.bodies) + rows_blocks(
            self.foot.rows,
        )
    }

    /// The short caption, where there is one.
    pub open spec fn child_inlines(self) -> Seq<InlineView> {
        match self.caption.short {
            Some(v) => v,
            None => Seq::empty(),
        }
    }
}

impl BlockView {
    /// The blocks one level below this block.
    pub open spec fn child_blocks(self) -> Seq<BlockView> {
        match self {
            BlockView::BlockQuote(v) => v,
            BlockView::Figure(_, _, v) => v,
            BlockView::Div(_, v) => v,
            BlockView::BulletList(items) => concat(items),
            BlockView::OrderedList(_, items) => concat(items),
            BlockView::DefinitionList(d) => definitions_blocks(d),
            BlockView::Table(t) => t.child_blocks(),
            _ => Seq::empty(),
        }
    }

    /// The inlines one level below this block: the terms of a definition
    /// list, the short caption of a table, the text of a header. The text
    /// of a paragraph, of a plain block and of a line block is not among
    /// them.
    pub open spec fn child_inlines(self) -> Seq<InlineView> {
        match self {
            BlockView::DefinitionList(d) => definitions_inlines(d),
            BlockView::Header(_, _, v) => v,
            BlockView::Table(t) => t.child_inlines(),
            _ => Seq::empty(),
        }
    }
}

impl InlineView {
    /// The blocks one level below this inline: those of a note.
    pub open spec fn child_blocks(self) -> Seq<BlockView> {
        match self {
            InlineView::Note(v) => v,
            _ => Seq::empty(),
        }
    }

    /// The inlines one level below this inline.
    pub open spec fn child_inlines(self) -> Seq<InlineView> {
        match self {
            InlineView::Emph(v) => v,
            InlineView::Underline(v) => v,
            InlineView::Strong(v) => v,
            InlineView::Strikeout(v) => v,
            InlineView::Superscript(v) => v,
            InlineView::Subscript(v) => v,
            InlineView::SmallCaps(v) => v,
            InlineView::Quoted(_, v) => v,
            InlineView::Cite(_, v) => v,
            InlineView::Link(_, v, _) => v,
            InlineView::Image(_, v, _) => v,
            InlineView::Span(_, v) => v,
            _ => Seq::empty(),
        }
    }
}

impl PandocView {
    /// The blocks of the document.
    pub open spec fn child_blocks(self) -> Seq<BlockView> {
        self.blocks
    }
}

/// Joining one more list at the end.
pub proof fn lemma_concat_push<T>(lists: Seq<Seq<T>>, last: Seq<T>)
    ensures
        concat(lists.push(last)) == concat(lists) + last,
{
    assert(lists.push(last).drop_last() =~= lists);
}

/// As many null blocks as asked for. They stand in for the child blocks
/// of a node where only the rest of the node is looked at.
pub open spec fn null_blocks(n: nat) -> Seq<BlockView> {
    Seq::new(n, |k: int| BlockView::Null)
}

/// As many spaces as asked for. They stand in for the child inlines of a
/// node where only the rest of the node is looked at.
pub open spec fn space_inlines(n: nat) -> Seq<InlineView> {
    Seq::new(n, |k: int| InlineView::Space)
}

/// Lists of the same lengths, with null blocks in them.
pub open spec fn blank_block_lists(lists: Seq<Seq<BlockView>>) -> Seq<Seq<BlockView>> {
    Seq::new(lists.len(), |k: int| null_blocks(lists[k].len()))
}

/// A term as it is, with definitions of the same lengths with null blocks
/// in them.
pub open spec fn blank_definition(d: (Seq<InlineView>, Seq<Seq<BlockView>>)) -> (
    Seq<InlineView>,
    Seq<Seq<BlockView>>,
) {
    (d.0, blank_block_lists(d.1))
}

/// Each term as it is, each with blank definitions.
pub open spec fn blank_definitions(d: Seq<(Seq<InlineView>, Seq<Seq<BlockView>>)>) -> Seq<
    (Seq<InlineView>, Seq<Seq<BlockView>>),
> {
    Seq::new(d.len(), |k: int| blank_definition(d[k]))
}

/// A term of the same length made of spaces, with its definitions as they
/// are.
pub open spec fn blank_term(d: (Seq<InlineView>, Seq<Seq<BlockView>>)) -> (
    Seq<InlineView>,
    Seq<Seq<BlockView>>,
) {
    (space_inlines(d.0.len()), d.1)
}

/// Each term blank, each with its definitions as they are.
pub open spec fn blank_terms(d: Seq<(Seq<InlineView>, Seq<Seq<BlockView>>)>) -> Seq<
    (Seq<InlineView>, Seq<Seq<BlockView>>),
> {
    Seq::new(d.len(), |k: int| blank_term(d[k]))
}

/// The cell with null blocks for its content.
pub open spec fn blank_cell(c: CellView) -> CellView {
    CellView {
        attr: c.attr,
        align: c.align,
        row_span: c.row_span,
        col_span: c.col_span,
        content: null_blocks(c.content.len()),
    }
}

/// Each cell with null blocks for its content.
pub open spec fn blank_cells(cells: Seq<CellView>) -> Seq<CellView> {
    Seq::new(cells.len(), |k: int| blank_cell(cells[k]))
}

/// The row with blank cells.
pub open spec fn blank_row(r: RowView) -> RowView {
    RowView { attr: r.attr, cells: blank_cells(r.cells) }
}

/// Each row with blank cells.
pub open spec fn blank_rows(rows: Seq<RowView>) -> Seq<RowView> {
    Seq::new(rows.len(), |k: int| blank_row(rows[k]))
}

/// The table body with blank rows.
pub open spec fn blank_body(b: TableBodyView) -> TableBodyView {
    TableBodyView {
        attr: b.attr,
        row_head_columns: b.row_head_columns,
        head: blank_rows(b.head),
        body: blank_rows(b.body),
    }
}

/// Each table body with blank rows.
pub open spec fn blank_bodies(bodies: Seq<TableBodyView>) -> Seq<TableBodyView> {
    Seq::new(bodies.len(), |k: int| blank_body(bodies[k]))
}

impl TableView {
    /// The table with a null block in place of each child block.
    pub open spec fn blank_blocks(self) -> TableView {
        TableView {
            attr: self.attr,
            caption: CaptionView {
                short: self.caption.short,
                long: null_blocks(self.caption.long.len()),
            },
            colspecs: self.colspecs,
            head: TableHeadView { attr: self.head.attr, rows: blank_rows(self.head.rows) },
            bodies: blank_bodies(self.bodies),
            foot: TableFootView { attr: self.foot.attr, rows: blank_rows(self.foot.rows) },
        }
    }

    /// The table with a space in place of each child inline.
    pub open spec fn blank_inlines(self) -> TableView {
        TableView {
            attr: self.attr,
            caption: CaptionView {
                short: match self.caption.short {
                    Some(v) => Some(space_inlines(v.len())),
                    None => None,
                },
                long: self.caption.long,
            },
            colspecs: self.colspecs,
            head: self.head,
            bodies: self.bodies,
            foot: self.foot,
        }
    }
}

impl BlockView {
    /// The block with a null block in place of each child block: what the
    /// block is apart from its child blocks.
    pub open spec fn blank_blocks(self) -> BlockView {
        match self {
            BlockView::BlockQuote(v) => BlockView::BlockQuote(null_blocks(v.len())),
            BlockView::Figure(a, c, v) => BlockView::Figure(a, c, null_blocks(v.len())),
            BlockView::Div(a, v) => BlockView::Div(a, null_blocks(v.len())),
            BlockView::BulletList(items) => BlockView::BulletList(blank_block_lists(items)),
            BlockView::OrderedList(l, items) => BlockView::OrderedList(
                l,
                blank_block_lists(items),
            ),
            BlockView::DefinitionList(d) => BlockView::DefinitionList(blank_definitions(d)),
            BlockView::Table(t) => BlockView::Table(t.blank_blocks()),
            _ => self,
        }
    }

    /// The block with a space in place of each child inline: what the block
    /// is apart from its child inlines.
    pub open spec fn blank_inlines(self) -> BlockView {
        match self {
            BlockView::DefinitionList(d) => BlockView::DefinitionList(blank_terms(d)),
            BlockView::Header(n, a, v) => BlockView::Header(n, a, space_inlines(v.len())),
            BlockView::Table(t) => BlockView::Table(t.blank_inlines()),
            _ => self,
        }
    }
}

impl InlineView {
    /// The inline with a null block in place of each child block.
    pub open spec fn blank_blocks(self) -> InlineView {
        match self {
            InlineView::Note(v) => InlineView::Note(null_blocks(v.len())),
            _ => self,
        }
    }

    /// The inline with a space in place of each child inline.
    pub open spec fn blank_inlines(self) -> InlineView {
        match self {
            InlineView::Emph(v) => InlineView::Emph(space_inlines(v.len())),
            InlineView::Underline(v) => InlineView::Underline(space_inlines(v.len())),
            InlineView::Strong(v) => InlineView::Strong(space_inlines(v.len())),
            InlineView::Strikeout(v) => InlineView::Strikeout(space_inlines(v.len())),
            InlineView::Superscript(v) => InlineView::Superscript(space_inlines(v.len())),
            InlineView::Subscript(v) => InlineView::Subscript(space_inlines(v.len())),
            InlineView::SmallCaps(v) => InlineView::SmallCaps(space_inlines(v.len())),
            InlineView::Quoted(q, v) => InlineView::Quoted(q, space_inlines(v.len())),
            InlineView::Cite(c, v) => InlineView::Cite(c, space_inlines(v.len())),
            InlineView::Link(a, v, t) => InlineView::Link(a, space_inlines(v.len()), t),
            InlineView::Image(a, v, t) => InlineView::Image(a, space_inlines(v.len()), t),
            InlineView::Span(a, v) => InlineView::Span(a, space_inlines(v.len())),
            _ => self,
        }
    }
}

impl PandocView {
    /// The document with a null block in place of each of its blocks.
    pub open spec fn blank_blocks(self) -> PandocView {
        PandocView { blocks: null_blocks(self.blocks.len()), meta: self.meta }
    }
}

/// One more list of blocks at the end of some lists.
pub proof fn lemma_block_lists_push(lists: Seq<Seq<BlockView>>, x: Seq<BlockView>)
    ensures
        concat(lists.push(x)) == concat(lists) + x,
        blank_block_lists(lists.push(x)) == blank_block_lists(lists).push(null_blocks(x.len())),
{
    lemma_concat_push(lists, x);
    assert(blank_block_lists(lists.push(x)) =~= blank_block_lists(lists).push(
        null_blocks(x.len()),
    ));
}

/// One more term with its definitions at the end of a definition list.
pub proof fn lemma_definitions_push(
    d: Seq<(Seq<InlineView>, Seq<Seq<BlockView>>)>,
    x: (Seq<InlineView>, Seq<Seq<BlockView>>),
)
    ensures
        definitions_blocks(d.push(x)) == definitions_blocks(d) + concat(x.1),
        definitions_inlines(d.push(x)) == definitions_inlines(d) + x.0,
        blank_definitions(d.push(x)) == blank_definitions(d).push(blank_definition(x)),
        blank_terms(d.push(x)) == blank_terms(d).push(blank_term(x)),
{
    let a = Seq::new(d.len(), |k: int| concat(d[k].1));
    let a2 = Seq::new(d.push(x).len(), |k: int| concat(d.push(x)[k].1));
    assert(a2 =~= a.push(concat(x.1)));
    lemma_concat_push(a, concat(x.1));
    let b = Seq::new(d.len(), |k: int| d[k].0);
    let b2 = Seq::new(d.push(x).len(), |k: int| d.push(x)[k].0);
    assert(b2 =~= b.push(x.0));
    lemma_concat_push(b, x.0);
    assert(blank_definitions(d.push(x)) =~= blank_definitions(d).push(blank_definition(x)));
    assert(blank_terms(d.push(x)) =~= blank_terms(d).push(blank_term(x)));
}

/// One more cell at the end of some cells.
pub proof fn lemma_cells_push(cells: Seq<CellView>, x: CellView)
    ensures
        cells_blocks(cells.push(x)) == cells_blocks(cells) + x.content,
        blank_cells(cells.push(x)) == blank_cells(cells).push(blank_cell(x)),
{
    let a = Seq::new(cells.len(), |k: int| cells[k].content);
    let a2 = Seq::new(cells.push(x).len(), |k: int| cells.push(x)[k].content);
    assert(a2 =~= a.push(x.content));
    lemma_concat_push(a, x.content);
    assert(blank_cells(cells.push(x)) =~= blank_cells(cells).push(blank_cell(x)));
}

/// One more row at the end of some rows.
pub proof fn lemma_rows_push(rows: Seq<RowView>, x: RowView)
    ensures
        rows_blocks(rows.push(x)) == rows_blocks(rows) + row_blocks(x),
        blank_rows(rows.push(x)) == blank_rows(rows).push(blank_row(x)),
{
    let a = Seq::new(rows.len(), |k: int| row_blocks(rows[k]));
    let a2 = Seq::new(rows.push(x).len(), |k: int| row_blocks(rows.push(x)[k]));
    assert(a2 =~= a.push(row_blocks(x)));
    lemma_concat_push(a, row_blocks(x));
    assert(blank_rows(rows.push(x)) =~= blank_rows(rows).push(blank_row(x)));
}

/// One more body at the end of some table bodies.
pub proof fn lemma_bodies_push(bodies: Seq<TableBodyView>, x: TableBodyView)
    ensures
        bodies_blocks(bodies.push(x)) == bodies_blocks(bodies) + body_blocks(x),
        blank_bodies(bodies.push(x)) == blank_bodies(bodies).push(blank_body(x)),
{
    let a = Seq::new(bodies.len(), |k: int| body_blocks(bodies[k]));
    let a2 = Seq::new(bodies.push(x).len(), |k: int| body_blocks(bodies.push(x)[k]));
    assert(a2 =~= a.push(body_blocks(x)));
    lemma_concat_push(a, body_blocks(x));
    assert(blank_bodies(bodies.push(x)) =~= blank_bodies(bodies).push(blank_body(x)));
}

} // verus!
