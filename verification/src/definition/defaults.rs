//! The default value of each type that has one.
//!
//! The defaults are the values that stand for "nothing was said": empty
//! attributes, a span of one row and one column, default alignment and
//! width, a list that counts from one in the default style.

use crate::definition::view::AttrView;
use crate::definition::view::CaptionView;
use crate::definition::view::CellView;
use crate::definition::view::MetaView;
use crate::definition::view::PandocView;
use crate::definition::view::TableBodyView;
use crate::definition::view::TableFootView;
use crate::definition::view::TableHeadView;
use crate::definition::view::TableView;
use crate::definition::Alignment;
use crate::definition::Attr;
use crate::definition::Caption;
use crate::definition::Cell;
use crate::definition::ColSpec;
use crate::definition::ColWidth;
use crate::definition::ListAttributes;
use crate::definition::ListNumberDelim;
use crate::definition::ListNumberStyle;
use crate::definition::Meta;
use crate::definition::Pandoc;
use crate::definition::Table;
use crate::definition::TableBody;
use crate::definition::TableFoot;
use crate::definition::TableHead;
use vstd::prelude::*;

verus! {

impl AttrView {
    /// No identifier, no classes, no attribute pairs.
    pub open spec fn empty() -> AttrView {
        AttrView { identifier: Seq::empty(), classes: Seq::empty(), attributes: Seq::empty() }
    }
}

impl CaptionView {
    /// No short caption and an empty long caption.
    pub open spec fn empty() -> CaptionView {
        CaptionView { short: None, long: Seq::empty() }
    }
}

impl CellView {
    /// An empty cell that spans one row and one column.
    pub open spec fn empty() -> CellView {
        CellView {
            attr: AttrView::empty(),
            align: Alignment::AlignDefault,
            row_span: 1,
            col_span: 1,
            content: Seq::empty(),
        }
    }
}

impl TableView {
    /// A table without columns or rows.
    pub open spec fn empty() -> TableView {
        TableView {
            attr: AttrView::empty(),
            caption: CaptionView::empty(),
            colspecs: Seq::empty(),
            head: TableHeadView { attr: AttrView::empty(), rows: Seq::empty() },
            bodies: Seq::empty(),
            foot: TableFootView { attr: AttrView::empty(), rows: Seq::empty() },
        }
    }
}

impl Attr {
    /// The attributes with nothing in them.
    pub fn null() -> (r: Attr)
        ensures
            r@ == AttrView::empty(),
    {
        let r = Attr { identifier: String::new(), classes: Vec::new(), attributes: Vec::new() };
        proof {
            assert(r@.classes =~= Seq::empty());
            assert(r@.attributes =~= Seq::empty());
        }
        r
    }
}

impl Default for Attr {
    fn default() -> (r: Attr)
        ensures
            r@ == AttrView::empty(),
    {
        Attr::null()
    }
}

impl Default for Alignment {
    fn default() -> (r: Alignment)
        ensures
            r == Alignment::AlignDefault,
    {
        Alignment::AlignDefault
    }
}

impl Default for ColWidth {
    fn default() -> (r: ColWidth)
        ensures
            r == ColWidth::ColWidthDefault,
    {
        ColWidth::ColWidthDefault
    }
}

impl Default for ColSpec {
    fn default() -> (r: ColSpec)
        ensures
            r == ColSpec(Alignment::AlignDefault, ColWidth::ColWidthDefault),
    {
        ColSpec(Alignment::AlignDefault, ColWidth::ColWidthDefault)
    }
}

impl Default for ListNumberStyle {
    fn default() -> (r: ListNumberStyle)
        ensures
            r == ListNumberStyle::DefaultStyle,
    {
        ListNumberStyle::DefaultStyle
    }
}

impl Default for ListNumberDelim {
    fn default() -> (r: ListNumberDelim)
        ensures
            r == ListNumberDelim::DefaultDelim,
    {
        ListNumberDelim::DefaultDelim
    }
}

impl Default for ListAttributes {
    fn default() -> (r: ListAttributes)
        ensures
            r == (ListAttributes {
                start_number: 1,
                style: ListNumberStyle::DefaultStyle,
                delim: ListNumberDelim::DefaultDelim,
            }),
    {
        ListAttributes {
            start_number: 1,
            style: ListNumberStyle::DefaultStyle,
            delim: ListNumberDelim::DefaultDelim,
        }
    }
}

impl Default for Caption {
    fn default() -> (r: Caption)
        ensures
            r@ == CaptionView::empty(),
    {
        let r = Caption { short: None, long: Vec::new() };
        proof {
            assert(r@.long =~= Seq::empty());
        }
        r
    }
}

impl Default for Cell {
    fn default() -> (r: Cell)
        ensures
            r@ == CellView::empty(),
    {
        let r = Cell {
            attr: Attr::null(),
            align: Alignment::AlignDefault,
            row_span: 1,
            col_span: 1,
            content: Vec::new(),
        };
        proof {
            assert(r@.content =~= Seq::empty());
        }
        r
    }
}

impl Default for TableHead {
    fn default() -> (r: TableHead)
        ensures
            r@ == (TableHeadView { attr: AttrView::empty(), rows: Seq::empty() }),
    {
        let r = TableHead { attr: Attr::null(), rows: Vec::new() };
        proof {
            assert(r@.rows =~= Seq::empty());
        }
        r
    }
}

impl Default for TableBody {
    fn default() -> (r: TableBody)
        ensures
            r@ == (TableBodyView {
                attr: AttrView::empty(),
                row_head_columns: 0,
                head: Seq::empty(),
                body: Seq::empty(),
            }),
    {
        let r = TableBody {
            attr: Attr::null(),
            row_head_columns: 0,
            head: Vec::new(),
            body: Vec::new(),
        };
        proof {
            assert(r@.head =~= Seq::empty());
            assert(r@.body =~= Seq::empty());
        }
        r
    }
}

impl Default for TableFoot {
    fn default() -> (r: TableFoot)
        ensures
            r@ == (TableFootView { attr: AttrView::empty(), rows: Seq::empty() }),
    {
        let r = TableFoot { attr: Attr::null(), rows: Vec::new() };
        proof {
            assert(r@.rows =~= Seq::empty());
        }
        r
    }
}

impl Default for Table {
    fn default() -> (r: Table)
        ensures
            r@ == TableView::empty(),
    {
        let r = Table {
            attr: Attr::null(),
            caption: Caption::default(),
            colspecs: Vec::new(),
            head: TableHead::default(),
            bodies: Vec::new(),
            foot: TableFoot::default(),
        };
        proof {
            assert(r@.bodies =~= Seq::empty());
        }
        r
    }
}

impl Default for Meta {
    fn default() -> (r: Meta)
        ensures
            r@ == (MetaView { entries: Seq::empty() }),
    {
        Meta::new()
    }
}

impl Default for Pandoc {
    fn default() -> (r: Pandoc)
        ensures
            r@ == (PandocView { blocks: Seq::empty(), meta: MetaView { entries: Seq::empty() } }),
            r@.wf(),
    {
        let r = Pandoc { blocks: Vec::new(), meta: Meta::new() };
        proof {
            assert(r@.blocks =~= Seq::empty());
        }
        r
    }
}

} // verus!
