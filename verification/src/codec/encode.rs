//! Encoding: from a document to the JSON value that stands for it.
//!
//! Every function here returns the value that the wire form gives for the
//! model of its argument. None of them can fail.

use crate::codec::document::api_version;
use crate::codec::document::encode_meta;
use crate::codec::document::encode_meta_value;
use crate::codec::document::encode_meta_values;
use crate::codec::document::decode_pandoc;
use crate::codec::document::encode_pandoc;
use crate::codec::document::encode_version;
use crate::codec::error::DecodeErrorView;
use crate::codec::error::Key;
use crate::codec::laws::law_round_trip;
use crate::codec::nodes::encode_block;
use crate::codec::nodes::encode_block_lists;
use crate::codec::nodes::encode_blocks;
use crate::codec::nodes::encode_caption;
use crate::codec::nodes::encode_cell;
use crate::codec::nodes::encode_cells;
use crate::codec::nodes::encode_citation;
use crate::codec::nodes::encode_citations;
use crate::codec::nodes::encode_definition;
use crate::codec::nodes::encode_definitions;
use crate::codec::nodes::encode_inline;
use crate::codec::nodes::encode_inline_lists;
use crate::codec::nodes::encode_inlines;
use crate::codec::nodes::encode_row;
use crate::codec::nodes::encode_rows;
use crate::codec::nodes::encode_table;
use crate::codec::nodes::encode_table_bodies;
use crate::codec::nodes::encode_table_body;
use crate::codec::nodes::encode_table_foot;
use crate::codec::nodes::encode_table_head;
use crate::codec::wire::encode_alignment;
use crate::codec::wire::encode_attr;
use crate::codec::wire::encode_citation_mode;
use crate::codec::wire::encode_col_spec;
use crate::codec::wire::encode_col_specs;
use crate::codec::wire::encode_col_width;
use crate::codec::wire::encode_i32;
use crate::codec::wire::encode_list_attributes;
use crate::codec::wire::encode_list_number_delim;
use crate::codec::wire::encode_list_number_style;
use crate::codec::wire::encode_math_type;
use crate::codec::wire::encode_quote_type;
use crate::codec::wire::encode_string;
use crate::codec::wire::encode_string_pair;
use crate::codec::wire::encode_string_pairs;
use crate::codec::wire::encode_strings;
use crate::codec::wire::encode_target;
use crate::codec::wire::tagged;
use crate::codec::wire::tagged_unit;
use crate::definition::extra::BlockType;
use crate::definition::extra::InlineType;
use crate::definition::view::block_lists_view;
use crate::definition::view::blocks_view;
use crate::definition::view::cells_view;
use crate::definition::view::citations_view;
use crate::definition::view::definitions_view;
use crate::definition::view::inline_lists_view;
use crate::definition::view::inlines_view;
use crate::definition::view::meta_entries_view;
use crate::definition::view::meta_values_view;
use crate::definition::view::pairs_view;
use crate::definition::view::rows_view;
use crate::definition::view::strings_view;
use crate::definition::view::table_bodies_view;
use crate::definition::view::PandocView;
use crate::definition::Alignment;
use crate::definition::Attr;
use crate::definition::Block;
use crate::definition::Caption;
use crate::definition::Cell;
use crate::definition::Citation;
use crate::definition::CitationMode;
use crate::definition::ColSpec;
use crate::definition::ColWidth;
use crate::definition::Format;
use crate::definition::Inline;
use crate::definition::ListAttributes;
use crate::definition::ListNumberDelim;
use crate::definition::ListNumberStyle;
use crate::definition::MathType;
use crate::definition::Meta;
use crate::definition::MetaValue;
use crate::definition::Pandoc;
use crate::definition::QuoteType;
use crate::definition::Row;
use crate::definition::Table;
use crate::definition::TableBody;
use crate::definition::TableFoot;
use crate::definition::TableHead;
use crate::definition::Target;
use crate::definition::PANDOC_API_MAJOR;
use crate::definition::PANDOC_API_MINOR;
use crate::json::json_members_view;
use crate::json::json_seq_view;
use crate::json::Json;
use crate::json::JsonView;
use crate::json::Number;
use vstd::prelude::*;
use vstd::string::StringExecFns;

verus! {

/// A string as a JSON string.
pub fn string_json(s: &str) -> (j: Json)
    ensures
        j@ == encode_string(s@),
{
    Json::String(String::from_str(s))
}

/// An integer as a JSON number.
pub fn i32_json(n: i32) -> (j: Json)
    ensures
        j@ == encode_i32(n),
{
    Json::Number(Number::Int(n as i128))
}

/// The array of two values.
pub fn array2(a: Json, b: Json) -> (j: Json)
    ensures
        j@ == JsonView::Array(seq![a@, b@]),
{
    let mut items: Vec<Json> = Vec::new();
    items.push(a);
    items.push(b);
    proof {
        assert(json_seq_view(items@) =~= seq![a@, b@]);
    }
    Json::Array(items)
}

/// The array of three values.
pub fn array3(a: Json, b: Json, c: Json) -> (j: Json)
    ensures
        j@ == JsonView::Array(seq![a@, b@, c@]),
{
    let mut items: Vec<Json> = Vec::new();
    items.push(a);
    items.push(b);
    items.push(c);
    proof {
        assert(json_seq_view(items@) =~= seq![a@, b@, c@]);
    }
    Json::Array(items)
}

/// The array of four values.
pub fn array4(a: Json, b: Json, c: Json, d: Json) -> (j: Json)
    ensures
        j@ == JsonView::Array(seq![a@, b@, c@, d@]),
{
    let mut items: Vec<Json> = Vec::new();
    items.push(a);
    items.push(b);
    items.push(c);
    items.push(d);
    proof {
        assert(json_seq_view(items@) =~= seq![a@, b@, c@, d@]);
    }
    Json::Array(items)
}

/// The array of five values.
pub fn array5(a: Json, b: Json, c: Json, d: Json, e: Json) -> (j: Json)
    ensures
        j@ == JsonView::Array(seq![a@, b@, c@, d@, e@]),
{
    let mut items: Vec<Json> = Vec::new();
    items.push(a);
    items.push(b);
    items.push(c);
    items.push(d);
    items.push(e);
    proof {
        assert(json_seq_view(items@) =~= seq![a@, b@, c@, d@, e@]);
    }
    Json::Array(items)
}

/// The array of six values.
pub fn array6(a: Json, b: Json, c: Json, d: Json, e: Json, f: Json) -> (j: Json)
    ensures
        j@ == JsonView::Array(seq![a@, b@, c@, d@, e@, f@]),
{
    let mut items: Vec<Json> = Vec::new();
    items.push(a);
    items.push(b);
    items.push(c);
    items.push(d);
    items.push(e);
    items.push(f);
    proof {
        assert(json_seq_view(items@) =~= seq![a@, b@, c@, d@, e@, f@]);
    }
    Json::Array(items)
}

/// A tag with its contents.
pub fn tagged_json(tag: &str, contents: Json) -> (j: Json)
    ensures
        j@ == tagged(tag@, contents@),
{
    let mut members: Vec<(String, Json)> = Vec::new();
    members.push((String::from_str(Key::Tag.name()), string_json(tag)));
    members.push((String::from_str(Key::Contents.name()), contents));
    proof {
        assert(json_members_view(members@) =~= tagged(tag@, contents@)->Object_0);
    }
    Json::Object(members)
}

/// A tag that stands alone.
pub fn unit_json(tag: &str) -> (j: Json)
    ensures
        j@ == tagged_unit(tag@),
{
    let mut members: Vec<(String, Json)> = Vec::new();
    members.push((String::from_str(Key::Tag.name()), string_json(tag)));
    proof {
        assert(json_members_view(members@) =~= tagged_unit(tag@)->Object_0);
    }
    Json::Object(members)
}

/// A list of strings as an array of strings.
pub fn serialize_strings(v: &Vec<String>) -> (j: Json)
    ensures
        j@ == encode_strings(strings_view(v@)),
{
    let mut out: Vec<Json> = Vec::new();
    let mut i: usize = 0;
    while i < v.len()
        invariant
            i <= v.len(),
            out@.len() == i,
            forall|k: int|
                0 <= k < i ==> (#[trigger] out@[k])@ == encode_string(strings_view(v@)[k]),
        decreases v.len() - i,
    {
        let item = string_json(v[i].as_str());
        out.push(item);
        i += 1;
    }
    proof {
        assert(json_seq_view(out@) =~= encode_strings(strings_view(v@))->Array_0);
    }
    Json::Array(out)
}

/// A pair of strings as an array of two strings.
pub fn serialize_string_pair(p: &(String, String)) -> (j: Json)
    ensures
        j@ == encode_string_pair((p.0@, p.1@)),
{
    array2(string_json(p.0.as_str()), string_json(p.1.as_str()))
}

/// A list of pairs of strings as an array of arrays.
pub fn serialize_string_pairs(v: &Vec<(String, String)>) -> (j: Json)
    ensures
        j@ == encode_string_pairs(pairs_view(v@)),
{
    let mut out: Vec<Json> = Vec::new();
    let mut i: usize = 0;
    while i < v.len()
        invariant
            i <= v.len(),
            out@.len() == i,
            forall|k: int|
                0 <= k < i ==> (#[trigger] out@[k])@ == encode_string_pair(pairs_view(v@)[k]),
        decreases v.len() - i,
    {
        let item = serialize_string_pair(&v[i]);
        out.push(item);
        i += 1;
    }
    proof {
        assert(json_seq_view(out@) =~= encode_string_pairs(pairs_view(v@))->Array_0);
    }
    Json::Array(out)
}

impl Alignment {
    /// The tag of the variant, standing alone.
    pub fn serialize(&self) -> (j: Json)
        ensures
            j@ == encode_alignment(*self),
    {
        unit_json(self.name())
    }
}

impl ListNumberStyle {
    /// The tag of the variant, standing alone.
    pub fn serialize(&self) -> (j: Json)
        ensures
            j@ == encode_list_number_style(*self),
    {
        unit_json(self.name())
    }
}

impl ListNumberDelim {
    /// The tag of the variant, standing alone.
    pub fn serialize(&self) -> (j: Json)
        ensures
            j@ == encode_list_number_delim(*self),
    {
        unit_json(self.name())
    }
}

impl QuoteType {
    /// The tag of the variant, standing alone.
    pub fn serialize(&self) -> (j: Json)
        ensures
            j@ == encode_quote_type(*self),
    {
        unit_json(self.name())
    }
}

impl MathType {
    /// The tag of the variant, standing alone.
    pub fn serialize(&self) -> (j: Json)
        ensures
            j@ == encode_math_type(*self),
    {
        unit_json(self.name())
    }
}

impl CitationMode {
    /// The tag of the variant, standing alone.
    pub fn serialize(&self) -> (j: Json)
        ensures
            j@ == encode_citation_mode(*self),
    {
        unit_json(self.name())
    }
}

impl ColWidth {
    /// A width under the tag `ColWidth`, or the tag `ColWidthDefault` alone.
    pub fn serialize(&self) -> (j: Json)
        ensures
            j@ == encode_col_width(*self),
    {
        match self {
            ColWidth::ColWidth(n) => tagged_json("ColWidth", Json::Number(*n)),
            ColWidth::ColWidthDefault => unit_json("ColWidthDefault"),
        }
    }
}

impl ColSpec {
    /// The array of the alignment and the width.
    pub fn serialize(&self) -> (j: Json)
        ensures
            j@ == encode_col_spec(*self),
    {
        array2(self.0.serialize(), self.1.serialize())
    }
}

/// A list of column specifications as an array.
pub fn serialize_col_specs(v: &Vec<ColSpec>) -> (j: Json)
    ensures
        j@ == encode_col_specs(v@),
{
    let mut out: Vec<Json> = Vec::new();
    let mut i: usize = 0;
    while i < v.len()
        invariant
            i <= v.len(),
            out@.len() == i,
            forall|k: int|
                0 <= k < i ==> (#[trigger] out@[k])@ == encode_col_spec(v@[k]),
        decreases v.len() - i,
    {
        let item = v[i].serialize();
        out.push(item);
        i += 1;
    }
    proof {
        assert(json_seq_view(out@) =~= encode_col_specs(v@)->Array_0);
    }
    Json::Array(out)
}

impl ListAttributes {
    /// The array of the start number, the style and the delimiter.
    pub fn serialize(&self) -> (j: Json)
        ensures
            j@ == encode_list_attributes(*self),
    {
        array3(i32_json(self.start_number), self.style.serialize(), self.delim.serialize())
    }
}

impl Format {
    /// The name of the format as a string.
    pub fn serialize(&self) -> (j: Json)
        ensures
            j@ == encode_string(self@),
    {
        string_json(self.0.as_str())
    }
}

impl Attr {
    /// The array of the identifier, the classes and the attribute pairs.
    pub fn serialize(&self) -> (j: Json)
        ensures
            j@ == encode_attr(self@),
    {
        array3(
            string_json(self.identifier.as_str()),
            serialize_strings(&self.classes),
            serialize_string_pairs(&self.attributes),
        )
    }
}

impl Target {
    /// The array of the address and the title.
    pub fn serialize(&self) -> (j: Json)
        ensures
            j@ == encode_target(self@),
    {
        array2(string_json(self.url.as_str()), string_json(self.title.as_str()))
    }
}

impl Inline {
    /// The tag of the inline with its fields as contents.
    pub fn serialize(&self) -> (j: Json)
        ensures
            j@ == encode_inline(self@),
        decreases self,
    {
        match self {
            Inline::Str(s) => tagged_json(InlineType::Str.name(), string_json(s.as_str())),
            Inline::Emph(v) => tagged_json(InlineType::Emph.name(), serialize_inlines(v)),
            Inline::Underline(v) => tagged_json(InlineType::Underline.name(), serialize_inlines(v)),
            Inline::Strong(v) => tagged_json(InlineType::Strong.name(), serialize_inlines(v)),
            Inline::Strikeout(v) => tagged_json(InlineType::Strikeout.name(), serialize_inlines(v)),
            Inline::Superscript(v) => tagged_json(
                InlineType::Superscript.name(),
                serialize_inlines(v),
            ),
            Inline::Subscript(v) => tagged_json(InlineType::Subscript.name(), serialize_inlines(v)),
            Inline::SmallCaps(v) => tagged_json(InlineType::SmallCaps.name(), serialize_inlines(v)),
            Inline::Quoted(q, v) => tagged_json(
                InlineType::Quoted.name(),
                array2(q.serialize(), serialize_inlines(v)),
            ),
            Inline::Cite(c, v) => tagged_json(
                InlineType::Cite.name(),
                array2(serialize_citations(c), serialize_inlines(v)),
            ),
            Inline::Code(a, s) => tagged_json(
                InlineType::Code.name(),
                array2(a.serialize(), string_json(s.as_str())),
            ),
            Inline::Space => unit_json(InlineType::Space.name()),
            Inline::SoftBreak => unit_json(InlineType::SoftBreak.name()),
            Inline::LineBreak => unit_json(InlineType::LineBreak.name()),
            Inline::Math(m, s) => tagged_json(
                InlineType::Math.name(),
                array2(m.serialize(), string_json(s.as_str())),
            ),
            Inline::RawInline(f, s) => tagged_json(
                InlineType::RawInline.name(),
                array2(f.serialize(), string_json(s.as_str())),
            ),
            Inline::Link(a, v, t) => tagged_json(
                InlineType::Link.name(),
                array3(a.serialize(), serialize_inlines(v), t.serialize()),
            ),
            Inline::Image(a, v, t) => tagged_json(
                InlineType::Image.name(),
                array3(a.serialize(), serialize_inlines(v), t.serialize()),
            ),
            Inline::Note(b) => tagged_json(InlineType::Note.name(), serialize_blocks(b)),
            Inline::Span(a, v) => tagged_json(
                InlineType::Span.name(),
                array2(a.serialize(), serialize_inlines(v)),
            ),
        }
    }
}

/// A list of inlines as an array.
pub fn serialize_inlines(v: &Vec<Inline>) -> (j: Json)
    ensures
        j@ == encode_inlines(inlines_view(v@)),
    decreases v,
{
    let mut out: Vec<Json> = Vec::new();
    let mut i: usize = 0;
    while i < v.len()
        invariant
            i <= v.len(),
            out@.len() == i,
            forall|k: int|
                0 <= k < i ==> (#[trigger] out@[k])@ == encode_inline(inlines_view(v@)[k]),
        decreases v.len() - i,
    {
        let item = v[i].serialize();
        out.push(item);
        i += 1;
    }
    proof {
        assert(json_seq_view(out@) =~= encode_inlines(inlines_view(v@))->Array_0);
    }
    Json::Array(out)
}

/// A list of lists of inlines as an array of arrays.
pub fn serialize_inline_lists(v: &Vec<Vec<Inline>>) -> (j: Json)
    ensures
        j@ == encode_inline_lists(inline_lists_view(v@)),
    decreases v,
{
    let mut out: Vec<Json> = Vec::new();
    let mut i: usize = 0;
    while i < v.len()
        invariant
            i <= v.len(),
            out@.len() == i,
            forall|k: int|
                0 <= k < i ==> (#[trigger] out@[k])@ == encode_inlines(inline_lists_view(v@)[k]),
        decreases v.len() - i,
    {
        let item = serialize_inlines(&v[i]);
        out.push(item);
        i += 1;
    }
    proof {
        assert(json_seq_view(out@) =~= encode_inline_lists(inline_lists_view(v@))->Array_0);
    }
    Json::Array(out)
}

impl Citation {
    /// The object with one member for each field, under its wire key.
    pub fn serialize(&self) -> (j: Json)
        ensures
            j@ == encode_citation(self@),
        decreases self,
    {
        let mut members: Vec<(String, Json)> = Vec::new();
        members.push(
            (String::from_str(Key::CitationId.name()), string_json(self.citation_id.as_str())),
        );
        members.push(
            (String::from_str(Key::CitationPrefix.name()), serialize_inlines(&self.citation_prefix)),
        );
        members.push(
            (String::from_str(Key::CitationSuffix.name()), serialize_inlines(&self.citation_suffix)),
        );
        members.push((String::from_str(Key::CitationMode.name()), self.citation_mode.serialize()));
        members.push(
            (String::from_str(Key::CitationNoteNum.name()), i32_json(self.citation_note_num)),
        );
        members.push((String::from_str(Key::CitationHash.name()), i32_json(self.citation_hash)));
        proof {
            assert(json_members_view(members@) =~= encode_citation(self@)->Object_0);
        }
        Json::Object(members)
    }
}

/// A list of citations as an array.
pub fn serialize_citations(v: &Vec<Citation>) -> (j: Json)
    ensures
        j@ == encode_citations(citations_view(v@)),
    decreases v,
{
    let mut out: Vec<Json> = Vec::new();
    let mut i: usize = 0;
    while i < v.len()
        invariant
            i <= v.len(),
            out@.len() == i,
            forall|k: int|
                0 <= k < i ==> (#[trigger] out@[k])@ == encode_citation(citations_view(v@)[k]),
        decreases v.len() - i,
    {
        let item = v[i].serialize();
        out.push(item);
        i += 1;
    }
    proof {
        assert(json_seq_view(out@) =~= encode_citations(citations_view(v@))->Array_0);
    }
    Json::Array(out)
}

impl Block {
    /// The tag of the block with its fields as contents.
    pub fn serialize(&self) -> (j: Json)
        ensures
            j@ == encode_block(self@),
        decreases self,
    {
        match self {
            Block::Plain(v) => tagged_json(BlockType::Plain.name(), serialize_inlines(v)),
            Block::Para(v) => tagged_json(BlockType::Para.name(), serialize_inlines(v)),
            Block::LineBlock(l) => tagged_json(
                BlockType::LineBlock.name(),
                serialize_inline_lists(l),
            ),
            Block::CodeBlock(a, s) => tagged_json(
                BlockType::CodeBlock.name(),
                array2(a.serialize(), string_json(s.as_str())),
            ),
            Block::RawBlock(f, s) => tagged_json(
                BlockType::RawBlock.name(),
                array2(f.serialize(), string_json(s.as_str())),
            ),
            Block::BlockQuote(v) => tagged_json(BlockType::BlockQuote.name(), serialize_blocks(v)),
            Block::OrderedList(l, items) => tagged_json(
                BlockType::OrderedList.name(),
                array2(l.serialize(), serialize_block_lists(items)),
            ),
            Block::BulletList(items) => tagged_json(
                BlockType::BulletList.name(),
                serialize_block_lists(items),
            ),
            Block::DefinitionList(d) => tagged_json(
                BlockType::DefinitionList.name(),
                serialize_definitions(d),
            ),
            Block::Header(n, a, v) => tagged_json(
                BlockType::Header.name(),
                array3(i32_json(*n), a.serialize(), serialize_inlines(v)),
            ),
            Block::HorizontalRule => unit_json(BlockType::HorizontalRule.name()),
            Block::Table(t) => tagged_json(BlockType::Table.name(), t.serialize()),
            Block::Figure(a, c, v) => tagged_json(
                BlockType::Figure.name(),
                array3(a.serialize(), c.serialize(), serialize_blocks(v)),
            ),
            Block::Div(a, v) => tagged_json(
                BlockType::Div.name(),
                array2(a.serialize(), serialize_blocks(v)),
            ),
            Block::Null => unit_json(BlockType::Null.name()),
        }
    }
}

/// A list of blocks as an array.
pub fn serialize_blocks(v: &Vec<Block>) -> (j: Json)
    ensures
        j@ == encode_blocks(blocks_view(v@)),
    decreases v,
{
    let mut out: Vec<Json> = Vec::new();
    let mut i: usize = 0;
    while i < v.len()
        invariant
            i <= v.len(),
            out@.len() == i,
            forall|k: int|
                0 <= k < i ==> (#[trigger] out@[k])@ == encode_block(blocks_view(v@)[k]),
        decreases v.len() - i,
    {
        let item = v[i].serialize();
        out.push(item);
        i += 1;
    }
    proof {
        assert(json_seq_view(out@) =~= encode_blocks(blocks_view(v@))->Array_0);
    }
    Json::Array(out)
}

/// A list of lists of blocks as an array of arrays.
pub fn serialize_block_lists(v: &Vec<Vec<Block>>) -> (j: Json)
    ensures
        j@ == encode_block_lists(block_lists_view(v@)),
    decreases v,
{
    let mut out: Vec<Json> = Vec::new();
    let mut i: usize = 0;
    while i < v.len()
        invariant
            i <= v.len(),
            out@.len() == i,
            forall|k: int|
                0 <= k < i ==> (#[trigger] out@[k])@ == encode_blocks(block_lists_view(v@)[k]),
        decreases v.len() - i,
    {
        let item = serialize_blocks(&v[i]);
        out.push(item);
        i += 1;
    }
    proof {
        assert(json_seq_view(out@) =~= encode_block_lists(block_lists_view(v@))->Array_0);
    }
    Json::Array(out)
}

/// A term with its definitions as an array of the two.
pub fn serialize_definition(d: &(Vec<Inline>, Vec<Vec<Block>>)) -> (j: Json)
    ensures
        j@ == encode_definition((inlines_view(d.0@), block_lists_view(d.1@))),
    decreases d,
{
    array2(serialize_inlines(&d.0), serialize_block_lists(&d.1))
}

/// A list of terms with their definitions as an array.
pub fn serialize_definitions(v: &Vec<(Vec<Inline>, Vec<Vec<Block>>)>) -> (j: Json)
    ensures
        j@ == encode_definitions(definitions_view(v@)),
    decreases v,
{
    let mut out: Vec<Json> = Vec::new();
    let mut i: usize = 0;
    while i < v.len()
        invariant
            i <= v.len(),
            out@.len() == i,
            forall|k: int|
                0 <= k < i ==> (#[trigger] out@[k])@ == encode_definition(definitions_view(v@)[k]),
        decreases v.len() - i,
    {
        let item = serialize_definition(&v[i]);
        out.push(item);
        i += 1;
    }
    proof {
        assert(json_seq_view(out@) =~= encode_definitions(definitions_view(v@))->Array_0);
    }
    Json::Array(out)
}

impl Caption {
    /// The array of the short caption, or `null` where there is none, and
    /// the long caption.
    pub fn serialize(&self) -> (j: Json)
        ensures
            j@ == encode_caption(self@),
        decreases self,
    {
        let short = match &self.short {
            None => Json::Null,
            Some(v) => serialize_inlines(v),
        };
        array2(short, serialize_blocks(&self.long))
    }
}

impl Cell {
    /// The array of the five fields in order: attributes, alignment, row
    /// span, column span, content.
    pub fn serialize(&self) -> (j: Json)
        ensures
            j@ == encode_cell(self@),
        decreases self,
    {
        array5(
            self.attr.serialize(),
            self.align.serialize(),
            i32_json(self.row_span),
            i32_json(self.col_span),
            serialize_blocks(&self.content),
        )
    }
}

/// A list of cells as an array.
pub fn serialize_cells(v: &Vec<Cell>) -> (j: Json)
    ensures
        j@ == encode_cells(cells_view(v@)),
    decreases v,
{
    let mut out: Vec<Json> = Vec::new();
    let mut i: usize = 0;
    while i < v.len()
        invariant
            i <= v.len(),
            out@.len() == i,
            forall|k: int|
                0 <= k < i ==> (#[trigger] out@[k])@ == encode_cell(cells_view(v@)[k]),
        decreases v.len() - i,
    {
        let item = v[i].serialize();
        out.push(item);
        i += 1;
    }
    proof {
        assert(json_seq_view(out@) =~= encode_cells(cells_view(v@))->Array_0);
    }
    Json::Array(out)
}

impl Row {
    /// The array of the attributes and the cells.
    pub fn serialize(&self) -> (j: Json)
        ensures
            j@ == encode_row(self@),
        decreases self,
    {
        array2(self.attr.serialize(), serialize_cells(&self.cells))
    }
}

/// A list of rows as an array.
pub fn serialize_rows(v: &Vec<Row>) -> (j: Json)
    ensures
        j@ == encode_rows(rows_view(v@)),
    decreases v,
{
    let mut out: Vec<Json> = Vec::new();
    let mut i: usize = 0;
    while i < v.len()
        invariant
            i <= v.len(),
            out@.len() == i,
            forall|k: int|
                0 <= k < i ==> (#[trigger] out@[k])@ == encode_row(rows_view(v@)[k]),
        decreases v.len() - i,
    {
        let item = v[i].serialize();
        out.push(item);
        i += 1;
    }
    proof {
        assert(json_seq_view(out@) =~= encode_rows(rows_view(v@))->Array_0);
    }
    Json::Array(out)
}

impl TableHead {
    /// The array of the attributes and the rows.
    pub fn serialize(&self) -> (j: Json)
        ensures
            j@ == encode_table_head(self@),
        decreases self,
    {
        array2(self.attr.serialize(), serialize_rows(&self.rows))
    }
}

impl TableBody {
    /// The array of the attributes, the number of row head columns, the
    /// head rows and the body rows.
    pub fn serialize(&self) -> (j: Json)
        ensures
            j@ == encode_table_body(self@),
        decreases self,
    {
        array4(
            self.attr.serialize(),
            i32_json(self.row_head_columns),
            serialize_rows(&self.head),
            serialize_rows(&self.body),
        )
    }
}

/// A list of table bodies as an array.
pub fn serialize_table_bodies(v: &Vec<TableBody>) -> (j: Json)
    ensures
        j@ == encode_table_bodies(table_bodies_view(v@)),
    decreases v,
{
    let mut out: Vec<Json> = Vec::new();
    let mut i: usize = 0;
    while i < v.len()
        invariant
            i <= v.len(),
            out@.len() == i,
            forall|k: int|
                0 <= k < i ==> (#[trigger] out@[k])@ == encode_table_body(table_bodies_view(v@)[k]),
        decreases v.len() - i,
    {
        let item = v[i].serialize();
        out.push(item);
        i += 1;
    }
    proof {
        assert(json_seq_view(out@) =~= encode_table_bodies(table_bodies_view(v@))->Array_0);
    }
    Json::Array(out)
}

impl TableFoot {
    /// The array of the attributes and the rows.
    pub fn serialize(&self) -> (j: Json)
        ensures
            j@ == encode_table_foot(self@),
        decreases self,
    {
        array2(self.attr.serialize(), serialize_rows(&self.rows))
    }
}

impl Table {
    /// The array of the six fields in order: attributes, caption, column
    /// specifications, head, bodies, foot.
    pub fn serialize(&self) -> (j: Json)
        ensures
            j@ == encode_table(self@),
        decreases self,
    {
        array6(
            self.attr.serialize(),
            self.caption.serialize(),
            serialize_col_specs(&self.colspecs),
            self.head.serialize(),
            serialize_table_bodies(&self.bodies),
            self.foot.serialize(),
        )
    }
}

impl MetaValue {
    /// The tag of the metadata value with what it holds as contents.
    pub fn serialize(&self) -> (j: Json)
        ensures
            j@ == encode_meta_value(self@),
        decreases self,
    {
        match self {
            MetaValue::MetaMap(m) => tagged_json("MetaMap", m.serialize()),
            MetaValue::MetaList(l) => tagged_json("MetaList", serialize_meta_values(l)),
            MetaValue::MetaBool(b) => tagged_json("MetaBool", Json::Bool(*b)),
            MetaValue::MetaString(s) => tagged_json("MetaString", string_json(s.as_str())),
            MetaValue::MetaInlines(v) => tagged_json("MetaInlines", serialize_inlines(v)),
            MetaValue::MetaBlocks(v) => tagged_json("MetaBlocks", serialize_blocks(v)),
        }
    }
}

/// A list of metadata values as an array.
pub fn serialize_meta_values(v: &Vec<MetaValue>) -> (j: Json)
    ensures
        j@ == encode_meta_values(meta_values_view(v@)),
    decreases v,
{
    let mut out: Vec<Json> = Vec::new();
    let mut i: usize = 0;
    while i < v.len()
        invariant
            i <= v.len(),
            out@.len() == i,
            forall|k: int|
                0 <= k < i ==> (#[trigger] out@[k])@ == encode_meta_value(meta_values_view(v@)[k]),
        decreases v.len() - i,
    {
        let item = v[i].serialize();
        out.push(item);
        i += 1;
    }
    proof {
        assert(json_seq_view(out@) =~= encode_meta_values(meta_values_view(v@))->Array_0);
    }
    Json::Array(out)
}

impl Meta {
    /// The object with one member for each entry, in the order of the
    /// entries.
    pub fn serialize(&self) -> (j: Json)
        ensures
            j@ == encode_meta(self@),
        decreases self,
    {
        let mut out: Vec<(String, Json)> = Vec::new();
        let mut i: usize = 0;
        while i < self.entries.len()
            invariant
                i <= self.entries.len(),
                out@.len() == i,
                forall|k: int|
                    0 <= k < i ==> (#[trigger] out@[k]).0@ == self.entries@[k].0@ && out@[k].1@
                        == encode_meta_value(meta_entries_view(self.entries@)[k].1),
            decreases self.entries.len() - i,
        {
            let key = self.entries[i].0.clone();
            let value = self.entries[i].1.serialize();
            out.push((key, value));
            i += 1;
        }
        proof {
            assert(json_members_view(out@) =~= encode_meta(self@)->Object_0);
        }
        Json::Object(out)
    }
}

impl Pandoc {
    /// The object of the version, the metadata and the blocks. The version
    /// is the one that this library reads, whatever the document came from.
    /// What is written of a well-formed document is read again as that
    /// document.
    pub fn serialize(&self) -> (j: Json)
        ensures
            j@ == encode_pandoc(self@),
            self@.wf() ==> decode_pandoc(j@) == Ok::<PandocView, DecodeErrorView>(self@),
    {
        proof {
            if self@.wf() {
                law_round_trip(self@);
            }
        }
        let version = array2(i32_json(PANDOC_API_MAJOR), i32_json(PANDOC_API_MINOR));
        proof {
            assert(version@->Array_0 =~= encode_version(api_version())->Array_0);
        }
        let mut members: Vec<(String, Json)> = Vec::new();
        members.push((String::from_str(Key::ApiVersion.name()), version));
        members.push((String::from_str(Key::Meta.name()), self.meta.serialize()));
        members.push((String::from_str(Key::Blocks.name()), serialize_blocks(&self.blocks)));
        proof {
            assert(json_members_view(members@) =~= encode_pandoc(self@)->Object_0);
        }
        Json::Object(members)
    }
}

} // verus!
