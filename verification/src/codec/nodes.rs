//! The wire form of inlines, blocks and tables, stated over the models.

use crate::codec::error::DecodeErrorView;
use crate::codec::error::Family;
use crate::codec::error::Key;
use crate::codec::wire::and2;
use crate::codec::wire::and3;
use crate::codec::wire::and4;
use crate::codec::wire::and5;
use crate::codec::wire::and6;
use crate::codec::wire::array_items;
use crate::codec::wire::collect;
use crate::codec::wire::decode_alignment;
use crate::codec::wire::decode_attr;
use crate::codec::wire::decode_citation_mode;
use crate::codec::wire::decode_col_specs;
use crate::codec::wire::decode_i32;
use crate::codec::wire::decode_list_attributes;
use crate::codec::wire::decode_math_type;
use crate::codec::wire::decode_quote_type;
use crate::codec::wire::decode_string;
use crate::codec::wire::decode_target;
use crate::codec::wire::encode_alignment;
use crate::codec::wire::encode_attr;
use crate::codec::wire::encode_citation_mode;
use crate::codec::wire::encode_col_specs;
use crate::codec::wire::encode_i32;
use crate::codec::wire::encode_list_attributes;
use crate::codec::wire::encode_math_type;
use crate::codec::wire::encode_quote_type;
use crate::codec::wire::encode_string;
use crate::codec::wire::encode_target;
use crate::codec::wire::field;
use crate::codec::wire::lemma_field_decreases;
use crate::codec::wire::lemma_untag_decreases;
use crate::codec::wire::map_ok;
use crate::codec::wire::no_payload;
use crate::codec::wire::object_members;
use crate::codec::wire::one_payload;
use crate::codec::wire::payload;
use crate::codec::wire::tagged;
use crate::codec::wire::tagged_unit;
use crate::codec::wire::tuple_items;
use crate::codec::wire::untag;
use crate::codec::wire::Decoded;
use crate::definition::extra::BlockType;
use crate::definition::extra::InlineType;
use crate::definition::view::AttrView;
use crate::definition::view::BlockView;
use crate::definition::view::CaptionView;
use crate::definition::view::CellView;
use crate::definition::view::CitationView;
use crate::definition::view::InlineView;
use crate::definition::view::RowView;
use crate::definition::view::TableBodyView;
use crate::definition::view::TableFootView;
use crate::definition::view::TableHeadView;
use crate::definition::view::TableView;
use crate::definition::view::TargetView;
use crate::definition::Alignment;
use crate::definition::CitationMode;
use crate::definition::ColSpec;
use crate::definition::ListAttributes;
use crate::definition::MathType;
use crate::definition::QuoteType;
use crate::json::JsonView;
use vstd::prelude::*;

verus! {

/// The wire form of an inline.
pub open spec fn encode_inline(i: InlineView) -> JsonView
    decreases i,
{
    match i {
        InlineView::Str(s) => tagged(InlineType::Str.spec_name(), encode_string(s)),
        InlineView::Emph(v) => tagged(InlineType::Emph.spec_name(), encode_inlines(v)),
        InlineView::Underline(v) => tagged(InlineType::Underline.spec_name(), encode_inlines(v)),
        InlineView::Strong(v) => tagged(InlineType::Strong.spec_name(), encode_inlines(v)),
        InlineView::Strikeout(v) => tagged(InlineType::Strikeout.spec_name(), encode_inlines(v)),
        InlineView::Superscript(v) => tagged(
            InlineType::Superscript.spec_name(),
            encode_inlines(v),
        ),
        InlineView::Subscript(v) => tagged(InlineType::Subscript.spec_name(), encode_inlines(v)),
        InlineView::SmallCaps(v) => tagged(InlineType::SmallCaps.spec_name(), encode_inlines(v)),
        InlineView::Quoted(q, v) => tagged(
            InlineType::Quoted.spec_name(),
            JsonView::Array(seq![encode_quote_type(q), encode_inlines(v)]),
        ),
        InlineView::Cite(c, v) => tagged(
            InlineType::Cite.spec_name(),
            JsonView::Array(seq![encode_citations(c), encode_inlines(v)]),
        ),
        InlineView::Code(a, s) => tagged(
            InlineType::Code.spec_name(),
            JsonView::Array(seq![encode_attr(a), encode_string(s)]),
        ),
        InlineView::Space => tagged_unit(InlineType::Space.spec_name()),
        InlineView::SoftBreak => tagged_unit(InlineType::SoftBreak.spec_name()),
        InlineView::LineBreak => tagged_unit(InlineType::LineBreak.spec_name()),
        InlineView::Math(m, s) => tagged(
            InlineType::Math.spec_name(),
            JsonView::Array(seq![encode_math_type(m), encode_string(s)]),
        ),
        InlineView::RawInline(f, s) => tagged(
            InlineType::RawInline.spec_name(),
            JsonView::Array(seq![encode_string(f), encode_string(s)]),
        ),
        InlineView::Link(a, v, t) => tagged(
            InlineType::Link.spec_name(),
            JsonView::Array(seq![encode_attr(a), encode_inlines(v), encode_target(t)]),
        ),
        InlineView::Image(a, v, t) => tagged(
            InlineType::Image.spec_name(),
            JsonView::Array(seq![encode_attr(a), encode_inlines(v), encode_target(t)]),
        ),
        InlineView::Note(b) => tagged(InlineType::Note.spec_name(), encode_blocks(b)),
        InlineView::Span(a, v) => tagged(
            InlineType::Span.spec_name(),
            JsonView::Array(seq![encode_attr(a), encode_inlines(v)]),
        ),
    }
}

/// The wire form of a list of inlines.
pub open spec fn encode_inlines(s: Seq<InlineView>) -> JsonView
    decreases s,
{
    JsonView::Array(
        Seq::new(
            s.len(),
            |k: int|
                if 0 <= k < s.len() {
                    encode_inline(s[k])
                } else {
                    arbitrary()
                },
        ),
    )
}

/// The wire form of a list of lists of inlines.
pub open spec fn encode_inline_lists(s: Seq<Seq<InlineView>>) -> JsonView
    decreases s,
{
    JsonView::Array(
        Seq::new(
            s.len(),
            |k: int|
                if 0 <= k < s.len() {
                    encode_inlines(s[k])
                } else {
                    arbitrary()
                },
        ),
    )
}

/// The wire form of a citation.
pub open spec fn encode_citation(c: CitationView) -> JsonView
    decreases c,
{
    JsonView::Object(
        seq![
            (Key::CitationId.spec_name(), encode_string(c.citation_id)),
            (Key::CitationPrefix.spec_name(), encode_inlines(c.citation_prefix)),
            (Key::CitationSuffix.spec_name(), encode_inlines(c.citation_suffix)),
            (Key::CitationMode.spec_name(), encode_citation_mode(c.citation_mode)),
            (Key::CitationNoteNum.spec_name(), encode_i32(c.citation_note_num)),
            (Key::CitationHash.spec_name(), encode_i32(c.citation_hash)),
        ],
    )
}

/// The wire form of a list of citations.
pub open spec fn encode_citations(s: Seq<CitationView>) -> JsonView
    decreases s,
{
    JsonView::Array(
        Seq::new(
            s.len(),
            |k: int|
                if 0 <= k < s.len() {
                    encode_citation(s[k])
                } else {
                    arbitrary()
                },
        ),
    )
}

/// The wire form of a block.
pub open spec fn encode_block(b: BlockView) -> JsonView
    decreases b,
{
    match b {
        BlockView::Plain(v) => tagged(BlockType::Plain.spec_name(), encode_inlines(v)),
        BlockView::Para(v) => tagged(BlockType::Para.spec_name(), encode_inlines(v)),
        BlockView::LineBlock(l) => tagged(BlockType::LineBlock.spec_name(), encode_inline_lists(l)),
        BlockView::CodeBlock(a, s) => tagged(
            BlockType::CodeBlock.spec_name(),
            JsonView::Array(seq![encode_attr(a), encode_string(s)]),
        ),
        BlockView::RawBlock(f, s) => tagged(
            BlockType::RawBlock.spec_name(),
            JsonView::Array(seq![encode_string(f), encode_string(s)]),
        ),
        BlockView::BlockQuote(v) => tagged(BlockType::BlockQuote.spec_name(), encode_blocks(v)),
        BlockView::OrderedList(l, items) => tagged(
            BlockType::OrderedList.spec_name(),
            JsonView::Array(seq![encode_list_attributes(l), encode_block_lists(items)]),
        ),
        BlockView::BulletList(items) => tagged(
            BlockType::BulletList.spec_name(),
            encode_block_lists(items),
        ),
        BlockView::DefinitionList(d) => tagged(
            BlockType::DefinitionList.spec_name(),
            encode_definitions(d),
        ),
        BlockView::Header(n, a, v) => tagged(
            BlockType::Header.spec_name(),
            JsonView::Array(seq![encode_i32(n), encode_attr(a), encode_inlines(v)]),
        ),
        BlockView::HorizontalRule => tagged_unit(BlockType::HorizontalRule.spec_name()),
        BlockView::Table(t) => tagged(BlockType::Table.spec_name(), encode_table(t)),
        BlockView::Figure(a, c, v) => tagged(
            BlockType::Figure.spec_name(),
            JsonView::Array(seq![encode_attr(a), encode_caption(c), encode_blocks(v)]),
        ),
        BlockView::Div(a, v) => tagged(
            BlockType::Div.spec_name(),
            JsonView::Array(seq![encode_attr(a), encode_blocks(v)]),
        ),
        BlockView::Null => tagged_unit(BlockType::Null.spec_name()),
    }
}

/// The wire form of a list of blocks.
pub open spec fn encode_blocks(s: Seq<BlockView>) -> JsonView
    decreases s,
{
    JsonView::Array(
        Seq::new(
            s.len(),
            |k: int|
                if 0 <= k < s.len() {
                    encode_block(s[k])
                } else {
                    arbitrary()
                },
        ),
    )
}

/// The wire form of a list of lists of blocks.
pub open spec fn encode_block_lists(s: Seq<Seq<BlockView>>) -> JsonView
    decreases s,
{
    JsonView::Array(
        Seq::new(
            s.len(),
            |k: int|
                if 0 <= k < s.len() {
                    encode_blocks(s[k])
                } else {
                    arbitrary()
                },
        ),
    )
}

/// The wire form of a term with its definitions.
pub open spec fn encode_definition(d: (Seq<InlineView>, Seq<Seq<BlockView>>)) -> JsonView
    decreases d,
{
    JsonView::Array(seq![encode_inlines(d.0), encode_block_lists(d.1)])
}

/// The wire form of a list of terms with their definitions.
pub open spec fn encode_definitions(s: Seq<(Seq<InlineView>, Seq<Seq<BlockView>>)>) -> JsonView
    decreases s,
{
    JsonView::Array(
        Seq::new(
            s.len(),
            |k: int|
                if 0 <= k < s.len() {
                    encode_definition(s[k])
                } else {
                    arbitrary()
                },
        ),
    )
}

/// The wire form of a short caption.
pub open spec fn encode_short_caption(s: Option<Seq<InlineView>>) -> JsonView
    decreases s,
{
    match s {
        None => JsonView::Null,
        Some(v) => encode_inlines(v),
    }
}

/// The wire form of a caption.
pub open spec fn encode_caption(c: CaptionView) -> JsonView
    decreases c,
{
    JsonView::Array(seq![encode_short_caption(c.short), encode_blocks(c.long)])
}

/// The wire form of a cell.
pub open spec fn encode_cell(c: CellView) -> JsonView
    decreases c,
{
    JsonView::Array(
        seq![
            encode_attr(c.attr),
            encode_alignment(c.align),
            encode_i32(c.row_span),
            encode_i32(c.col_span),
            encode_blocks(c.content),
        ],
    )
}

/// The wire form of a list of cells.
pub open spec fn encode_cells(s: Seq<CellView>) -> JsonView
    decreases s,
{
    JsonView::Array(
        Seq::new(
            s.len(),
            |k: int|
                if 0 <= k < s.len() {
                    encode_cell(s[k])
                } else {
                    arbitrary()
                },
        ),
    )
}

/// The wire form of a row.
pub open spec fn encode_row(r: RowView) -> JsonView
    decreases r,
{
    JsonView::Array(seq![encode_attr(r.attr), encode_cells(r.cells)])
}

/// The wire form of a list of rows.
pub open spec fn encode_rows(s: Seq<RowView>) -> JsonView
    decreases s,
{
    JsonView::Array(
        Seq::new(
            s.len(),
            |k: int|
                if 0 <= k < s.len() {
                    encode_row(s[k])
                } else {
                    arbitrary()
                },
        ),
    )
}

/// The wire form of a table head.
pub open spec fn encode_table_head(h: TableHeadView) -> JsonView
    decreases h,
{
    JsonView::Array(seq![encode_attr(h.attr), encode_rows(h.rows)])
}

/// The wire form of a table body.
pub open spec fn encode_table_body(b: TableBodyView) -> JsonView
    decreases b,
{
    JsonView::Array(
        seq![
            encode_attr(b.attr),
            encode_i32(b.row_head_columns),
            encode_rows(b.head),
            encode_rows(b.body),
        ],
    )
}

/// The wire form of a list of table bodies.
pub open spec fn encode_table_bodies(s: Seq<TableBodyView>) -> JsonView
    decreases s,
{
    JsonView::Array(
        Seq::new(
            s.len(),
            |k: int|
                if 0 <= k < s.len() {
                    encode_table_body(s[k])
                } else {
                    arbitrary()
                },
        ),
    )
}

/// The wire form of a table foot.
pub open spec fn encode_table_foot(f: TableFootView) -> JsonView
    decreases f,
{
    JsonView::Array(seq![encode_attr(f.attr), encode_rows(f.rows)])
}

/// The wire form of a table.
pub open spec fn encode_table(t: TableView) -> JsonView
    decreases t,
{
    JsonView::Array(
        seq![
            encode_attr(t.attr),
            encode_caption(t.caption),
            encode_col_specs(t.colspecs),
            encode_table_head(t.head),
            encode_table_bodies(t.bodies),
            encode_table_foot(t.foot),
        ],
    )
}

/// What a JSON value stands for, read as an inline: the model, or why there
/// is none.
pub open spec fn decode_inline(j: JsonView) -> Decoded<InlineView>
    decreases j,
{
    match untag(j) {
        Err(e) => Err(e),
        Ok(t) => {
            proof {
                lemma_untag_decreases(j);
            }
            let one = one_payload(t.contents);
            let two = payload(t.contents, 2);
            let three = payload(t.contents, 3);
            let none = no_payload(t.contents);
            match InlineType::spec_from_name(t.tag) {
                None => Err(DecodeErrorView::UnknownTag { family: Family::Inline, tag: t.tag }),
                Some(InlineType::Str) => match one {
                    Err(e) => Err(e),
                    Ok(c) => map_ok(decode_string(c), |s: Seq<char>| InlineView::Str(s)),
                },
                Some(InlineType::Emph) => match one {
                    Err(e) => Err(e),
                    Ok(c) => map_ok(decode_inlines(c), |v: Seq<InlineView>| InlineView::Emph(v)),
                },
                Some(InlineType::Underline) => match one {
                    Err(e) => Err(e),
                    Ok(c) => map_ok(
                        decode_inlines(c),
                        |v: Seq<InlineView>| InlineView::Underline(v),
                    ),
                },
                Some(InlineType::Strong) => match one {
                    Err(e) => Err(e),
                    Ok(c) => map_ok(decode_inlines(c), |v: Seq<InlineView>| InlineView::Strong(v)),
                },
                Some(InlineType::Strikeout) => match one {
                    Err(e) => Err(e),
                    Ok(c) => map_ok(
                        decode_inlines(c),
                        |v: Seq<InlineView>| InlineView::Strikeout(v),
                    ),
                },
                Some(InlineType::Superscript) => match one {
                    Err(e) => Err(e),
                    Ok(c) => map_ok(
                        decode_inlines(c),
                        |v: Seq<InlineView>| InlineView::Superscript(v),
                    ),
                },
                Some(InlineType::Subscript) => match one {
                    Err(e) => Err(e),
                    Ok(c) => map_ok(
                        decode_inlines(c),
                        |v: Seq<InlineView>| InlineView::Subscript(v),
                    ),
                },
                Some(InlineType::SmallCaps) => match one {
                    Err(e) => Err(e),
                    Ok(c) => map_ok(
                        decode_inlines(c),
                        |v: Seq<InlineView>| InlineView::SmallCaps(v),
                    ),
                },
                Some(InlineType::Quoted) => match two {
                    Err(e) => Err(e),
                    Ok(items) => map_ok(
                        and2(decode_quote_type(items[0]), decode_inlines(items[1])),
                        |p: (QuoteType, Seq<InlineView>)| InlineView::Quoted(p.0, p.1),
                    ),
                },
                Some(InlineType::Cite) => match two {
                    Err(e) => Err(e),
                    Ok(items) => map_ok(
                        and2(decode_citations(items[0]), decode_inlines(items[1])),
                        |p: (Seq<CitationView>, Seq<InlineView>)| InlineView::Cite(p.0, p.1),
                    ),
                },
                Some(InlineType::Code) => match two {
                    Err(e) => Err(e),
                    Ok(items) => map_ok(
                        and2(decode_attr(items[0]), decode_string(items[1])),
                        |p: (AttrView, Seq<char>)| InlineView::Code(p.0, p.1),
                    ),
                },
                Some(InlineType::Space) => map_ok(none, |u: ()| InlineView::Space),
                Some(InlineType::SoftBreak) => map_ok(none, |u: ()| InlineView::SoftBreak),
                Some(InlineType::LineBreak) => map_ok(none, |u: ()| InlineView::LineBreak),
                Some(InlineType::Math) => match two {
                    Err(e) => Err(e),
                    Ok(items) => map_ok(
                        and2(decode_math_type(items[0]), decode_string(items[1])),
                        |p: (MathType, Seq<char>)| InlineView::Math(p.0, p.1),
                    ),
                },
                Some(InlineType::RawInline) => match two {
                    Err(e) => Err(e),
                    Ok(items) => map_ok(
                        and2(decode_string(items[0]), decode_string(items[1])),
                        |p: (Seq<char>, Seq<char>)| InlineView::RawInline(p.0, p.1),
                    ),
                },
                Some(InlineType::Link) => match three {
                    Err(e) => Err(e),
                    Ok(items) => map_ok(
                        and3(
                            decode_attr(items[0]),
                            decode_inlines(items[1]),
                            decode_target(items[2]),
                        ),
                        |p: (AttrView, Seq<InlineView>, TargetView)|
                            InlineView::Link(p.0, p.1, p.2),
                    ),
                },
                Some(InlineType::Image) => match three {
                    Err(e) => Err(e),
                    Ok(items) => map_ok(
                        and3(
                            decode_attr(items[0]),
                            decode_inlines(items[1]),
                            decode_target(items[2]),
                        ),
                        |p: (AttrView, Seq<InlineView>, TargetView)|
                            InlineView::Image(p.0, p.1, p.2),
                    ),
                },
                Some(InlineType::Note) => match one {
                    Err(e) => Err(e),
                    Ok(c) => map_ok(decode_blocks(c), |v: Seq<BlockView>| InlineView::Note(v)),
                },
                Some(InlineType::Span) => match two {
                    Err(e) => Err(e),
                    Ok(items) => map_ok(
                        and2(decode_attr(items[0]), decode_inlines(items[1])),
                        |p: (AttrView, Seq<InlineView>)| InlineView::Span(p.0, p.1),
                    ),
                },
            }
        },
    }
}

/// What each item stands for, read as an inline.
pub open spec fn decode_inline_items(items: Seq<JsonView>) -> Seq<Decoded<InlineView>>
    decreases items,
{
    Seq::new(
        items.len(),
        |k: int|
            if 0 <= k < items.len() {
                decode_inline(items[k])
            } else {
                arbitrary()
            },
    )
}

/// What a JSON value stands for, read as a list of inlines: the model, or why
/// there is none.
pub open spec fn decode_inlines(j: JsonView) -> Decoded<Seq<InlineView>>
    decreases j,
{
    match array_items(j) {
        Err(e) => Err(e),
        Ok(items) => collect(decode_inline_items(items)),
    }
}

/// What each item stands for, read as a list of inlines.
pub open spec fn decode_inline_list_items(items: Seq<JsonView>) -> Seq<Decoded<Seq<InlineView>>>
    decreases items,
{
    Seq::new(
        items.len(),
        |k: int|
            if 0 <= k < items.len() {
                decode_inlines(items[k])
            } else {
                arbitrary()
            },
    )
}

/// What a JSON value stands for, read as a list of lists of inlines: the
/// model, or why there is none.
pub open spec fn decode_inline_lists(j: JsonView) -> Decoded<Seq<Seq<InlineView>>>
    decreases j,
{
    match array_items(j) {
        Err(e) => Err(e),
        Ok(items) => collect(decode_inline_list_items(items)),
    }
}

/// What a JSON value stands for, read as a citation: the model, or why there
/// is none.
pub open spec fn decode_citation(j: JsonView) -> Decoded<CitationView>
    decreases j,
{
    match object_members(j) {
        Err(e) => Err(e),
        Ok(members) => {
            proof {
                lemma_field_decreases(j, Key::CitationPrefix);
                lemma_field_decreases(j, Key::CitationSuffix);
            }
            let id = match field(members, Key::CitationId) {
                Err(e) => Err(e),
                Ok(v) => decode_string(v),
            };
            let prefix = match field(members, Key::CitationPrefix) {
                Err(e) => Err(e),
                Ok(v) => decode_inlines(v),
            };
            let suffix = match field(members, Key::CitationSuffix) {
                Err(e) => Err(e),
                Ok(v) => decode_inlines(v),
            };
            let mode = match field(members, Key::CitationMode) {
                Err(e) => Err(e),
                Ok(v) => decode_citation_mode(v),
            };
            let note_num = match field(members, Key::CitationNoteNum) {
                Err(e) => Err(e),
                Ok(v) => decode_i32(v),
            };
            let hash = match field(members, Key::CitationHash) {
                Err(e) => Err(e),
                Ok(v) => decode_i32(v),
            };
            map_ok(
                and6(id, prefix, suffix, mode, note_num, hash),
                |p: (Seq<char>, Seq<InlineView>, Seq<InlineView>, CitationMode, i32, i32)|
                    CitationView {
                        citation_id: p.0,
                        citation_prefix: p.1,
                        citation_suffix: p.2,
                        citation_mode: p.3,
                        citation_note_num: p.4,
                        citation_hash: p.5,
                    },
            )
        },
    }
}

/// What each item stands for, read as a citation.
pub open spec fn decode_citation_items(items: Seq<JsonView>) -> Seq<Decoded<CitationView>>
    decreases items,
{
    Seq::new(
        items.len(),
        |k: int|
            if 0 <= k < items.len() {
                decode_citation(items[k])
            } else {
                arbitrary()
            },
    )
}

/// What a JSON value stands for, read as a list of citations: the model, or
/// why there is none.
pub open spec fn decode_citations(j: JsonView) -> Decoded<Seq<CitationView>>
    decreases j,
{
    match array_items(j) {
        Err(e) => Err(e),
        Ok(items) => collect(decode_citation_items(items)),
    }
}

/// What a JSON value stands for, read as a block: the model, or why there is
/// none.
pub open spec fn decode_block(j: JsonView) -> Decoded<BlockView>
    decreases j,
{
    match untag(j) {
        Err(e) => Err(e),
        Ok(t) => {
            proof {
                lemma_untag_decreases(j);
            }
            let one = one_payload(t.contents);
            let two = payload(t.contents, 2);
            let three = payload(t.contents, 3);
            let none = no_payload(t.contents);
            match BlockType::spec_from_name(t.tag) {
                None => Err(DecodeErrorView::UnknownTag { family: Family::Block, tag: t.tag }),
                Some(BlockType::Plain) => match one {
                    Err(e) => Err(e),
                    Ok(c) => map_ok(decode_inlines(c), |v: Seq<InlineView>| BlockView::Plain(v)),
                },
                Some(BlockType::Para) => match one {
                    Err(e) => Err(e),
                    Ok(c) => map_ok(decode_inlines(c), |v: Seq<InlineView>| BlockView::Para(v)),
                },
                Some(BlockType::LineBlock) => match one {
                    Err(e) => Err(e),
                    Ok(c) => map_ok(
                        decode_inline_lists(c),
                        |l: Seq<Seq<InlineView>>| BlockView::LineBlock(l),
                    ),
                },
                Some(BlockType::CodeBlock) => match two {
                    Err(e) => Err(e),
                    Ok(items) => map_ok(
                        and2(decode_attr(items[0]), decode_string(items[1])),
                        |p: (AttrView, Seq<char>)| BlockView::CodeBlock(p.0, p.1),
                    ),
                },
                Some(BlockType::RawBlock) => match two {
                    Err(e) => Err(e),
                    Ok(items) => map_ok(
                        and2(decode_string(items[0]), decode_string(items[1])),
                        |p: (Seq<char>, Seq<char>)| BlockView::RawBlock(p.0, p.1),
                    ),
                },
                Some(BlockType::BlockQuote) => match one {
                    Err(e) => Err(e),
                    Ok(c) => map_ok(decode_blocks(c), |v: Seq<BlockView>| BlockView::BlockQuote(v)),
                },
                Some(BlockType::OrderedList) => match two {
                    Err(e) => Err(e),
                    Ok(items) => map_ok(
                        and2(decode_list_attributes(items[0]), decode_block_lists(items[1])),
                        |p: (ListAttributes, Seq<Seq<BlockView>>)| BlockView::OrderedList(p.0, p.1),
                    ),
                },
                Some(BlockType::BulletList) => match one {
                    Err(e) => Err(e),
                    Ok(c) => map_ok(
                        decode_block_lists(c),
                        |l: Seq<Seq<BlockView>>| BlockView::BulletList(l),
                    ),
                },
                Some(BlockType::DefinitionList) => match one {
                    Err(e) => Err(e),
                    Ok(c) => map_ok(
                        decode_definitions(c),
                        |d: Seq<(Seq<InlineView>, Seq<Seq<BlockView>>)>|
                            BlockView::DefinitionList(d),
                    ),
                },
                Some(BlockType::Header) => match three {
                    Err(e) => Err(e),
                    Ok(items) => map_ok(
                        and3(
                            decode_i32(items[0]),
                            decode_attr(items[1]),
                            decode_inlines(items[2]),
                        ),
                        |p: (i32, AttrView, Seq<InlineView>)| BlockView::Header(p.0, p.1, p.2),
                    ),
                },
                Some(BlockType::HorizontalRule) => map_ok(
                    none,
                    |u: ()| BlockView::HorizontalRule,
                ),
                Some(BlockType::Table) => match one {
                    Err(e) => Err(e),
                    Ok(c) => map_ok(decode_table(c), |t: TableView| BlockView::Table(t)),
                },
                Some(BlockType::Figure) => match three {
                    Err(e) => Err(e),
                    Ok(items) => map_ok(
                        and3(
                            decode_attr(items[0]),
                            decode_caption(items[1]),
                            decode_blocks(items[2]),
                        ),
                        |p: (AttrView, CaptionView, Seq<BlockView>)|
                            BlockView::Figure(p.0, p.1, p.2),
                    ),
                },
                Some(BlockType::Div) => match two {
                    Err(e) => Err(e),
                    Ok(items) => map_ok(
                        and2(decode_attr(items[0]), decode_blocks(items[1])),
                        |p: (AttrView, Seq<BlockView>)| BlockView::Div(p.0, p.1),
                    ),
                },
                Some(BlockType::Null) => map_ok(none, |u: ()| BlockView::Null),
            }
        },
    }
}

/// What each item stands for, read as a block.
pub open spec fn decode_block_items(items: Seq<JsonView>) -> Seq<Decoded<BlockView>>
    decreases items,
{
    Seq::new(
        items.len(),
        |k: int|
            if 0 <= k < items.len() {
                decode_block(items[k])
            } else {
                arbitrary()
            },
    )
}

/// What a JSON value stands for, read as a list of blocks: the model, or why
/// there is none.
pub open spec fn decode_blocks(j: JsonView) -> Decoded<Seq<BlockView>>
    decreases j,
{
    match array_items(j) {
        Err(e) => Err(e),
        Ok(items) => collect(decode_block_items(items)),
    }
}

/// What each item stands for, read as a list of blocks.
pub open spec fn decode_block_list_items(items: Seq<JsonView>) -> Seq<Decoded<Seq<BlockView>>>
    decreases items,
{
    Seq::new(
        items.len(),
        |k: int|
            if 0 <= k < items.len() {
                decode_blocks(items[k])
            } else {
                arbitrary()
            },
    )
}

/// What a JSON value stands for, read as a list of lists of blocks: the
/// model, or why there is none.
pub open spec fn decode_block_lists(j: JsonView) -> Decoded<Seq<Seq<BlockView>>>
    decreases j,
{
    match array_items(j) {
        Err(e) => Err(e),
        Ok(items) => collect(decode_block_list_items(items)),
    }
}

/// What a JSON value stands for, read as a term with its definitions: the
/// model, or why there is none.
pub open spec fn decode_definition(j: JsonView) -> Decoded<(Seq<InlineView>, Seq<Seq<BlockView>>)>
    decreases j,
{
    match tuple_items(j, 2) {
        Err(e) => Err(e),
        Ok(items) => and2(decode_inlines(items[0]), decode_block_lists(items[1])),
    }
}

/// What each item stands for, read as a term with its definitions.
pub open spec fn decode_definition_items(items: Seq<JsonView>) -> Seq<
    Decoded<(Seq<InlineView>, Seq<Seq<BlockView>>)>,
>
    decreases items,
{
    Seq::new(
        items.len(),
        |k: int|
            if 0 <= k < items.len() {
                decode_definition(items[k])
            } else {
                arbitrary()
            },
    )
}

/// What a JSON value stands for, read as a list of terms with their
/// definitions: the model, or why there is none.
pub open spec fn decode_definitions(j: JsonView) -> Decoded<
    Seq<(Seq<InlineView>, Seq<Seq<BlockView>>)>,
>
    decreases j,
{
    match array_items(j) {
        Err(e) => Err(e),
        Ok(items) => collect(decode_definition_items(items)),
    }
}

/// What a JSON value stands for, read as a caption: the model, or why there
/// is none.
pub open spec fn decode_caption(j: JsonView) -> Decoded<CaptionView>
    decreases j,
{
    match tuple_items(j, 2) {
        Err(e) => Err(e),
        Ok(items) => map_ok(
            and2(
                match items[0] {
                    JsonView::Null => Ok(None),
                    _ => map_ok(decode_inlines(items[0]), |v: Seq<InlineView>| Some(v)),
                },
                decode_blocks(items[1]),
            ),
            |p: (Option<Seq<InlineView>>, Seq<BlockView>)| CaptionView { short: p.0, long: p.1 },
        ),
    }
}

/// What a JSON value stands for, read as a cell: the model, or why there is
/// none.
pub open spec fn decode_cell(j: JsonView) -> Decoded<CellView>
    decreases j,
{
    match tuple_items(j, 5) {
        Err(e) => Err(e),
        Ok(items) => map_ok(
            and5(
                decode_attr(items[0]),
                decode_alignment(items[1]),
                decode_i32(items[2]),
                decode_i32(items[3]),
                decode_blocks(items[4]),
            ),
            |p: (AttrView, Alignment, i32, i32, Seq<BlockView>)|
                CellView { attr: p.0, align: p.1, row_span: p.2, col_span: p.3, content: p.4 },
        ),
    }
}

/// What each item stands for, read as a cell.
pub open spec fn decode_cell_items(items: Seq<JsonView>) -> Seq<Decoded<CellView>>
    decreases items,
{
    Seq::new(
        items.len(),
        |k: int|
            if 0 <= k < items.len() {
                decode_cell(items[k])
            } else {
                arbitrary()
            },
    )
}

/// What a JSON value stands for, read as a list of cells: the model, or why
/// there is none.
pub open spec fn decode_cells(j: JsonView) -> Decoded<Seq<CellView>>
    decreases j,
{
    match array_items(j) {
        Err(e) => Err(e),
        Ok(items) => collect(decode_cell_items(items)),
    }
}

/// What a JSON value stands for, read as a row: the model, or why there is
/// none.
pub open spec fn decode_row(j: JsonView) -> Decoded<RowView>
    decreases j,
{
    match tuple_items(j, 2) {
        Err(e) => Err(e),
        Ok(items) => map_ok(
            and2(decode_attr(items[0]), decode_cells(items[1])),
            |p: (AttrView, Seq<CellView>)| RowView { attr: p.0, cells: p.1 },
        ),
    }
}

/// What each item stands for, read as a row.
pub open spec fn decode_row_items(items: Seq<JsonView>) -> Seq<Decoded<RowView>>
    decreases items,
{
    Seq::new(
        items.len(),
        |k: int|
            if 0 <= k < items.len() {
                decode_row(items[k])
            } else {
                arbitrary()
            },
    )
}

/// What a JSON value stands for, read as a list of rows: the model, or why
/// there is none.
pub open spec fn decode_rows(j: JsonView) -> Decoded<Seq<RowView>>
    decreases j,
{
    match array_items(j) {
        Err(e) => Err(e),
        Ok(items) => collect(decode_row_items(items)),
    }
}

/// What a JSON value stands for, read as a table head: the model, or why
/// there is none.
pub open spec fn decode_table_head(j: JsonView) -> Decoded<TableHeadView>
    decreases j,
{
    match tuple_items(j, 2) {
        Err(e) => Err(e),
        Ok(items) => map_ok(
            and2(decode_attr(items[0]), decode_rows(items[1])),
            |p: (AttrView, Seq<RowView>)| TableHeadView { attr: p.0, rows: p.1 },
        ),
    }
}

/// What a JSON value stands for, read as a table body: the model, or why
/// there is none.
pub open spec fn decode_table_body(j: JsonView) -> Decoded<TableBodyView>
    decreases j,
{
    match tuple_items(j, 4) {
        Err(e) => Err(e),
        Ok(items) => map_ok(
            and4(
                decode_attr(items[0]),
                decode_i32(items[1]),
                decode_rows(items[2]),
                decode_rows(items[3]),
            ),
            |p: (AttrView, i32, Seq<RowView>, Seq<RowView>)|
                TableBodyView { attr: p.0, row_head_columns: p.1, head: p.2, body: p.3 },
        ),
    }
}

/// What each item stands for, read as a table body.
pub open spec fn decode_table_body_items(items: Seq<JsonView>) -> Seq<Decoded<TableBodyView>>
    decreases items,
{
    Seq::new(
        items.len(),
        |k: int|
            if 0 <= k < items.len() {
                decode_table_body(items[k])
            } else {
                arbitrary()
            },
    )
}

/// What a JSON value stands for, read as a list of table bodies: the model,
/// or why there is none.
pub open spec fn decode_table_bodies(j: JsonView) -> Decoded<Seq<TableBodyView>>
    decreases j,
{
    match array_items(j) {
        Err(e) => Err(e),
        Ok(items) => collect(decode_table_body_items(items)),
    }
}

/// What a JSON value stands for, read as a table foot: the model, or why
/// there is none.
pub open spec fn decode_table_foot(j: JsonView) -> Decoded<TableFootView>
    decreases j,
{
    match tuple_items(j, 2) {
        Err(e) => Err(e),
        Ok(items) => map_ok(
            and2(decode_attr(items[0]), decode_rows(items[1])),
            |p: (AttrView, Seq<RowView>)| TableFootView { attr: p.0, rows: p.1 },
        ),
    }
}

/// What a JSON value stands for, read as a table: the model, or why there is
/// none.
pub open spec fn decode_table(j: JsonView) -> Decoded<TableView>
    decreases j,
{
    match tuple_items(j, 6) {
        Err(e) => Err(e),
        Ok(items) => map_ok(
            and6(
                decode_attr(items[0]),
                decode_caption(items[1]),
                decode_col_specs(items[2]),
                decode_table_head(items[3]),
                decode_table_bodies(items[4]),
                decode_table_foot(items[5]),
            ),
            |p: (
                AttrView,
                CaptionView,
                Seq<ColSpec>,
                TableHeadView,
                Seq<TableBodyView>,
                TableFootView,
            )|
                TableView {
                    attr: p.0,
                    caption: p.1,
                    colspecs: p.2,
                    head: p.3,
                    bodies: p.4,
                    foot: p.5,
                },
        ),
    }
}

} // verus!
