//! The laws of the wire codec.
//!
//! The chief law is that what is written is read again as it was: reading
//! the JSON value of a well-formed document gives that document. It holds
//! of every part of a document too, and is proved here part by part.

use crate::codec::document::api_version;
use crate::codec::document::decode_i32_items;
use crate::codec::document::decode_meta;
use crate::codec::document::decode_meta_members;
use crate::codec::document::decode_meta_value;
use crate::codec::document::decode_meta_value_items;
use crate::codec::document::decode_meta_values;
use crate::codec::document::decode_pandoc;
use crate::codec::document::decode_version;
use crate::codec::document::encode_meta;
use crate::codec::document::encode_meta_value;
use crate::codec::document::encode_meta_values;
use crate::codec::document::encode_pandoc;
use crate::codec::document::encode_version;
use crate::codec::document::member_keys;
use crate::codec::document::meta_build;
use crate::codec::document::version_accepted;
use crate::codec::error::lemma_key_names_differ;
use crate::codec::error::DecodeErrorView;
use crate::codec::error::Key;
use crate::codec::nodes::decode_block;
use crate::codec::nodes::decode_block_items;
use crate::codec::nodes::decode_block_list_items;
use crate::codec::nodes::decode_block_lists;
use crate::codec::nodes::decode_blocks;
use crate::codec::nodes::decode_caption;
use crate::codec::nodes::decode_cell;
use crate::codec::nodes::decode_cell_items;
use crate::codec::nodes::decode_cells;
use crate::codec::nodes::decode_citation;
use crate::codec::nodes::decode_citation_items;
use crate::codec::nodes::decode_citations;
use crate::codec::nodes::decode_definition;
use crate::codec::nodes::decode_definition_items;
use crate::codec::nodes::decode_definitions;
use crate::codec::nodes::decode_inline;
use crate::codec::nodes::decode_inline_items;
use crate::codec::nodes::decode_inline_list_items;
use crate::codec::nodes::decode_inline_lists;
use crate::codec::nodes::decode_inlines;
use crate::codec::nodes::decode_row;
use crate::codec::nodes::decode_row_items;
use crate::codec::nodes::decode_rows;
use crate::codec::nodes::decode_table;
use crate::codec::nodes::decode_table_bodies;
use crate::codec::nodes::decode_table_body;
use crate::codec::nodes::decode_table_body_items;
use crate::codec::nodes::decode_table_foot;
use crate::codec::nodes::decode_table_head;
use crate::codec::nodes::encode_block;
use crate::codec::nodes::encode_block_lists;
use crate::codec::nodes::encode_blocks;
use crate::codec::nodes::encode_caption;
use crate::codec::nodes::encode_cell;
use crate::codec::nodes::encode_cells;
use crate::codec::nodes::encode_citation;
use crate::codec::nodes::encode_citations;
use crate::codec::nodes::encode_definition;
use crate::codec::nodes::encode_definitions;
use crate::codec::nodes::encode_inline;
use crate::codec::nodes::encode_inline_lists;
use crate::codec::nodes::encode_inlines;
use crate::codec::nodes::encode_row;
use crate::codec::nodes::encode_rows;
use crate::codec::nodes::encode_table;
use crate::codec::nodes::encode_table_bodies;
use crate::codec::nodes::encode_table_body;
use crate::codec::nodes::encode_table_foot;
use crate::codec::nodes::encode_table_head;
use crate::codec::wire::collect;
use crate::codec::wire::decode_alignment;
use crate::codec::wire::decode_attr;
use crate::codec::wire::decode_citation_mode;
use crate::codec::wire::decode_col_spec;
use crate::codec::wire::decode_col_spec_items;
use crate::codec::wire::decode_col_specs;
use crate::codec::wire::decode_col_width;
use crate::codec::wire::decode_list_attributes;
use crate::codec::wire::decode_list_number_delim;
use crate::codec::wire::decode_list_number_style;
use crate::codec::wire::decode_math_type;
use crate::codec::wire::decode_quote_type;
use crate::codec::wire::decode_string_items;
use crate::codec::wire::decode_string_pair;
use crate::codec::wire::decode_string_pair_items;
use crate::codec::wire::decode_string_pairs;
use crate::codec::wire::decode_strings;
use crate::codec::wire::decode_target;
use crate::codec::wire::encode_alignment;
use crate::codec::wire::encode_attr;
use crate::codec::wire::encode_citation_mode;
use crate::codec::wire::encode_col_spec;
use crate::codec::wire::encode_col_specs;
use crate::codec::wire::encode_col_width;
use crate::codec::wire::encode_i32;
use crate::codec::wire::encode_list_attributes;
use crate::codec::wire::encode_list_number_delim;
use crate::codec::wire::encode_list_number_style;
use crate::codec::wire::encode_math_type;
use crate::codec::wire::encode_quote_type;
use crate::codec::wire::encode_string;
use crate::codec::wire::encode_string_pair;
use crate::codec::wire::encode_string_pairs;
use crate::codec::wire::encode_strings;
use crate::codec::wire::encode_target;
use crate::codec::wire::field;
use crate::codec::wire::lemma_collect_len;
use crate::codec::wire::lemma_collect_values;
use crate::codec::wire::lemma_untag_decreases;
use crate::codec::wire::tagged;
use crate::codec::wire::tagged_unit;
use crate::codec::wire::untag;
use crate::codec::wire::Tagged;
use crate::definition::extra::BlockType;
use crate::definition::extra::InlineType;
use crate::definition::meta::law_meta_insert;
use crate::definition::view::has_key;
use crate::definition::view::key_index;
use crate::definition::view::keys_distinct;
use crate::definition::view::meta_insert;
use crate::definition::view::AttrView;
use crate::definition::view::BlockView;
use crate::definition::view::CaptionView;
use crate::definition::view::CellView;
use crate::definition::view::CitationView;
use crate::definition::view::InlineView;
use crate::definition::view::MetaValueView;
use crate::definition::view::MetaView;
use crate::definition::view::PandocView;
use crate::definition::view::RowView;
use crate::definition::view::TableBodyView;
use crate::definition::view::TableFootView;
use crate::definition::view::TableHeadView;
use crate::definition::view::TableView;
use crate::definition::view::TargetView;
use crate::definition::Alignment;
use crate::definition::CitationMode;
use crate::definition::ColSpec;
use crate::definition::ColWidth;
use crate::definition::ListAttributes;
use crate::definition::ListNumberDelim;
use crate::definition::ListNumberStyle;
use crate::definition::MathType;
use crate::definition::QuoteType;
use crate::json::lemma_lookup_absent;
use crate::json::lemma_lookup_unique;
use crate::json::JsonView;
use vstd::prelude::*;

verus! {

/// A tag written with contents is read as that tag with those contents.
pub proof fn lemma_untag_tagged(tag: Seq<char>, contents: JsonView)
    ensures
        untag(tagged(tag, contents)) == Ok::<Tagged, DecodeErrorView>(
            Tagged { tag, contents: Some(contents) },
        ),
{
    let members = tagged(tag, contents)->Object_0;
    lemma_key_names_differ(Key::Tag, Key::Contents);
    lemma_lookup_unique(members, Key::Tag.spec_name(), 0);
    lemma_lookup_unique(members, Key::Contents.spec_name(), 1);
}

/// A tag written alone is read as that tag without contents.
pub proof fn lemma_untag_unit(tag: Seq<char>)
    ensures
        untag(tagged_unit(tag)) == Ok::<Tagged, DecodeErrorView>(Tagged { tag, contents: None }),
{
    let members = tagged_unit(tag)->Object_0;
    lemma_key_names_differ(Key::Tag, Key::Contents);
    lemma_lookup_unique(members, Key::Tag.spec_name(), 0);
    lemma_lookup_absent(members, Key::Contents.spec_name());
}

/// A list of strings that is written and read again is the same list.
pub proof fn law_strings(s: Seq<Seq<char>>)
    ensures
        decode_strings(encode_strings(s)) == Ok::<Seq<Seq<char>>, DecodeErrorView>(s),
{
    let results = decode_string_items(encode_strings(s)->Array_0);
    lemma_collect_values(results, s);
}

/// A list of pairs of strings that is written and read again is the same
/// list.
pub proof fn law_string_pairs(s: Seq<(Seq<char>, Seq<char>)>)
    ensures
        decode_string_pairs(encode_string_pairs(s)) == Ok::<
            Seq<(Seq<char>, Seq<char>)>,
            DecodeErrorView,
        >(s),
{
    let results = decode_string_pair_items(encode_string_pairs(s)->Array_0);
    assert forall|k: int| 0 <= k < results.len() implies results[k] == Ok::<
        (Seq<char>, Seq<char>),
        DecodeErrorView,
    >(s[k]) by {
        assert(decode_string_pair(encode_string_pair(s[k])) == Ok::<
            (Seq<char>, Seq<char>),
            DecodeErrorView,
        >(s[k]));
    }
    lemma_collect_values(results, s);
}

/// Attributes that is written and read again is the same.
pub proof fn law_attr(x: AttrView)
    ensures
        decode_attr(encode_attr(x)) == Ok::<AttrView, DecodeErrorView>(x),
{
    law_strings(x.classes);
    law_string_pairs(x.attributes);
}

/// A target that is written and read again is the same.
pub proof fn law_target(x: TargetView)
    ensures
        decode_target(encode_target(x)) == Ok::<TargetView, DecodeErrorView>(x),
{
}

/// A value of `Alignment` that is written and read again is the same.
pub proof fn law_alignment(x: Alignment)
    ensures
        decode_alignment(encode_alignment(x)) == Ok::<Alignment, DecodeErrorView>(x),
{
    x.lemma_names();
    lemma_untag_unit(x.spec_name());
}

/// A value of `ListNumberStyle` that is written and read again is the same.
pub proof fn law_list_number_style(x: ListNumberStyle)
    ensures
        decode_list_number_style(encode_list_number_style(x)) == Ok::<ListNumberStyle, DecodeErrorView>(x),
{
    x.lemma_names();
    lemma_untag_unit(x.spec_name());
}

/// A value of `ListNumberDelim` that is written and read again is the same.
pub proof fn law_list_number_delim(x: ListNumberDelim)
    ensures
        decode_list_number_delim(encode_list_number_delim(x)) == Ok::<ListNumberDelim, DecodeErrorView>(x),
{
    x.lemma_names();
    lemma_untag_unit(x.spec_name());
}

/// A value of `QuoteType` that is written and read again is the same.
pub proof fn law_quote_type(x: QuoteType)
    ensures
        decode_quote_type(encode_quote_type(x)) == Ok::<QuoteType, DecodeErrorView>(x),
{
    x.lemma_names();
    lemma_untag_unit(x.spec_name());
}

/// A value of `MathType` that is written and read again is the same.
pub proof fn law_math_type(x: MathType)
    ensures
        decode_math_type(encode_math_type(x)) == Ok::<MathType, DecodeErrorView>(x),
{
    x.lemma_names();
    lemma_untag_unit(x.spec_name());
}

/// A value of `CitationMode` that is written and read again is the same.
pub proof fn law_citation_mode(x: CitationMode)
    ensures
        decode_citation_mode(encode_citation_mode(x)) == Ok::<CitationMode, DecodeErrorView>(x),
{
    x.lemma_names();
    lemma_untag_unit(x.spec_name());
}

/// A column width that is written and read again is the same.
pub proof fn law_col_width(x: ColWidth)
    ensures
        decode_col_width(encode_col_width(x)) == Ok::<ColWidth, DecodeErrorView>(x),
{
    reveal_strlit("ColWidth");
    reveal_strlit("ColWidthDefault");
    assert("ColWidth"@.len() == 8 && "ColWidthDefault"@.len() == 15);
    match x {
        ColWidth::ColWidth(n) => {
            lemma_untag_tagged("ColWidth"@, JsonView::Number(n));
        },
        ColWidth::ColWidthDefault => {
            lemma_untag_unit("ColWidthDefault"@);
        },
    }
}

/// A column specification that is written and read again is the same.
pub proof fn law_col_spec(x: ColSpec)
    ensures
        decode_col_spec(encode_col_spec(x)) == Ok::<ColSpec, DecodeErrorView>(x),
{
    law_alignment(x.0);
    law_col_width(x.1);
}

/// A list of column specifications that is written and read again is the
/// same list.
pub proof fn law_col_specs(s: Seq<ColSpec>)
    ensures
        decode_col_specs(encode_col_specs(s)) == Ok::<Seq<ColSpec>, DecodeErrorView>(s),
{
    let results = decode_col_spec_items(encode_col_specs(s)->Array_0);
    assert forall|k: int| 0 <= k < results.len() implies results[k] == Ok::<
        ColSpec,
        DecodeErrorView,
    >(s[k]) by {
        law_col_spec(s[k]);
    }
    lemma_collect_values(results, s);
}

/// List attributes that is written and read again is the same.
pub proof fn law_list_attributes(x: ListAttributes)
    ensures
        decode_list_attributes(encode_list_attributes(x)) == Ok::<ListAttributes, DecodeErrorView>(x),
{
    law_list_number_style(x.style);
    law_list_number_delim(x.delim);
}

/// The round trip of the `Str` variant, given that of its fields.
proof fn lemma_inline_str(a: Seq<char>)
    ensures
        decode_inline(encode_inline(InlineView::Str(a))) == Ok::<InlineView, DecodeErrorView>(
            InlineView::Str(a),
        ),
{
    lemma_untag_tagged(InlineType::Str.spec_name(), encode_string(a));
    InlineType::Str.lemma_names();
}

/// The round trip of the `Emph` variant, given that of its fields.
proof fn lemma_inline_emph(a: Seq<InlineView>)
    requires
        decode_inlines(encode_inlines(a)) == Ok::<Seq<InlineView>, DecodeErrorView>(a),
    ensures
        decode_inline(encode_inline(InlineView::Emph(a))) == Ok::<InlineView, DecodeErrorView>(
            InlineView::Emph(a),
        ),
{
    lemma_untag_tagged(InlineType::Emph.spec_name(), encode_inlines(a));
    InlineType::Emph.lemma_names();
}

/// The round trip of the `Underline` variant, given that of its fields.
proof fn lemma_inline_underline(a: Seq<InlineView>)
    requires
        decode_inlines(encode_inlines(a)) == Ok::<Seq<InlineView>, DecodeErrorView>(a),
    ensures
        decode_inline(encode_inline(InlineView::Underline(a))) == Ok::<InlineView, DecodeErrorView>(
            InlineView::Underline(a),
        ),
{
    lemma_untag_tagged(InlineType::Underline.spec_name(), encode_inlines(a));
    InlineType::Underline.lemma_names();
}

/// The round trip of the `Strong` variant, given that of its fields.
proof fn lemma_inline_strong(a: Seq<InlineView>)
    requires
        decode_inlines(encode_inlines(a)) == Ok::<Seq<InlineView>, DecodeErrorView>(a),
    ensures
        decode_inline(encode_inline(InlineView::Strong(a))) == Ok::<InlineView, DecodeErrorView>(
            InlineView::Strong(a),
        ),
{
    lemma_untag_tagged(InlineType::Strong.spec_name(), encode_inlines(a));
    InlineType::Strong.lemma_names();
}

/// The round trip of the `Strikeout` variant, given that of its fields.
proof fn lemma_inline_strikeout(a: Seq<InlineView>)
    requires
        decode_inlines(encode_inlines(a)) == Ok::<Seq<InlineView>, DecodeErrorView>(a),
    ensures
        decode_inline(encode_inline(InlineView::Strikeout(a))) == Ok::<InlineView, DecodeErrorView>(
            InlineView::Strikeout(a),
        ),
{
    lemma_untag_tagged(InlineType::Strikeout.spec_name(), encode_inlines(a));
    InlineType::Strikeout.lemma_names();
}

/// The round trip of the `Superscript` variant, given that of its fields.
proof fn lemma_inline_superscript(a: Seq<InlineView>)
    requires
        decode_inlines(encode_inlines(a)) == Ok::<Seq<InlineView>, DecodeErrorView>(a),
    ensures
        decode_inline(encode_inline(InlineView::Superscript(a))) == Ok::<InlineView, DecodeErrorView>(
            InlineView::Superscript(a),
        ),
{
    lemma_untag_tagged(InlineType::Superscript.spec_name(), encode_inlines(a));
    InlineType::Superscript.lemma_names();
}

/// The round trip of the `Subscript` variant, given that of its fields.
proof fn lemma_inline_subscript(a: Seq<InlineView>)
    requires
        decode_inlines(encode_inlines(a)) == Ok::<Seq<InlineView>, DecodeErrorView>(a),
    ensures
        decode_inline(encode_inline(InlineView::Subscript(a))) == Ok::<InlineView, DecodeErrorView>(
            InlineView::Subscript(a),
        ),
{
    lemma_untag_tagged(InlineType::Subscript.spec_name(), encode_inlines(a));
    InlineType::Subscript.lemma_names();
}

/// The round trip of the `SmallCaps` variant, given that of its fields.
proof fn lemma_inline_small_caps(a: Seq<InlineView>)
    requires
        decode_inlines(encode_inlines(a)) == Ok::<Seq<InlineView>, DecodeErrorView>(a),
    ensures
        decode_inline(encode_inline(InlineView::SmallCaps(a))) == Ok::<InlineView, DecodeErrorView>(
            InlineView::SmallCaps(a),
        ),
{
    lemma_untag_tagged(InlineType::SmallCaps.spec_name(), encode_inlines(a));
    InlineType::SmallCaps.lemma_names();
}

/// The round trip of the `Quoted` variant, given that of its fields.
proof fn lemma_inline_quoted(a: QuoteType, b: Seq<InlineView>)
    requires
        decode_inlines(encode_inlines(b)) == Ok::<Seq<InlineView>, DecodeErrorView>(b),
    ensures
        decode_inline(encode_inline(InlineView::Quoted(a, b))) == Ok::<InlineView, DecodeErrorView>(
            InlineView::Quoted(a, b),
        ),
{
    law_quote_type(a);
    lemma_untag_tagged(InlineType::Quoted.spec_name(), JsonView::Array(seq![encode_quote_type(a),
        encode_inlines(b)]));
    InlineType::Quoted.lemma_names();
}

/// The round trip of the `Cite` variant, given that of its fields.
proof fn lemma_inline_cite(a: Seq<CitationView>, b: Seq<InlineView>)
    requires
        decode_citations(encode_citations(a)) == Ok::<Seq<CitationView>, DecodeErrorView>(a),
        decode_inlines(encode_inlines(b)) == Ok::<Seq<InlineView>, DecodeErrorView>(b),
    ensures
        decode_inline(encode_inline(InlineView::Cite(a, b))) == Ok::<InlineView, DecodeErrorView>(
            InlineView::Cite(a, b),
        ),
{
    lemma_untag_tagged(InlineType::Cite.spec_name(), JsonView::Array(seq![encode_citations(a),
        encode_inlines(b)]));
    InlineType::Cite.lemma_names();
}

/// The round trip of the `Code` variant, given that of its fields.
proof fn lemma_inline_code(a: AttrView, b: Seq<char>)
    ensures
        decode_inline(encode_inline(InlineView::Code(a, b))) == Ok::<InlineView, DecodeErrorView>(
            InlineView::Code(a, b),
        ),
{
    law_attr(a);
    lemma_untag_tagged(InlineType::Code.spec_name(), JsonView::Array(seq![encode_attr(a), encode_string(b)]));
    InlineType::Code.lemma_names();
}

/// The round trip of the `Space` variant, given that of its fields.
proof fn lemma_inline_space()
    ensures
        decode_inline(encode_inline(InlineView::Space)) == Ok::<InlineView, DecodeErrorView>(
            InlineView::Space,
        ),
{
    lemma_untag_unit(InlineType::Space.spec_name());
    InlineType::Space.lemma_names();
}

/// The round trip of the `SoftBreak` variant, given that of its fields.
proof fn lemma_inline_soft_break()
    ensures
        decode_inline(encode_inline(InlineView::SoftBreak)) == Ok::<InlineView, DecodeErrorView>(
            InlineView::SoftBreak,
        ),
{
    lemma_untag_unit(InlineType::SoftBreak.spec_name());
    InlineType::SoftBreak.lemma_names();
}

/// The round trip of the `LineBreak` variant, given that of its fields.
proof fn lemma_inline_line_break()
    ensures
        decode_inline(encode_inline(InlineView::LineBreak)) == Ok::<InlineView, DecodeErrorView>(
            InlineView::LineBreak,
        ),
{
    lemma_untag_unit(InlineType::LineBreak.spec_name());
    InlineType::LineBreak.lemma_names();
}

/// The round trip of the `Math` variant, given that of its fields.
proof fn lemma_inline_math(a: MathType, b: Seq<char>)
    ensures
        decode_inline(encode_inline(InlineView::Math(a, b))) == Ok::<InlineView, DecodeErrorView>(
            InlineView::Math(a, b),
        ),
{
    law_math_type(a);
    lemma_untag_tagged(InlineType::Math.spec_name(), JsonView::Array(seq![encode_math_type(a),
        encode_string(b)]));
    InlineType::Math.lemma_names();
}

/// The round trip of the `RawInline` variant, given that of its fields.
proof fn lemma_inline_raw_inline(a: Seq<char>, b: Seq<char>)
    ensures
        decode_inline(encode_inline(InlineView::RawInline(a, b))) == Ok::<InlineView, DecodeErrorView>(
            InlineView::RawInline(a, b),
        ),
{
    lemma_untag_tagged(InlineType::RawInline.spec_name(), JsonView::Array(seq![encode_string(a),
        encode_string(b)]));
    InlineType::RawInline.lemma_names();
}

/// The round trip of the `Link` variant, given that of its fields.
proof fn lemma_inline_link(a: AttrView, b: Seq<InlineView>, c: TargetView)
    requires
        decode_inlines(encode_inlines(b)) == Ok::<Seq<InlineView>, DecodeErrorView>(b),
    ensures
        decode_inline(encode_inline(InlineView::Link(a, b, c))) == Ok::<InlineView, DecodeErrorView>(
            InlineView::Link(a, b, c),
        ),
{
    law_attr(a);
    law_target(c);
    lemma_untag_tagged(InlineType::Link.spec_name(), JsonView::Array(seq![encode_attr(a),
        encode_inlines(b), encode_target(c)]));
    InlineType::Link.lemma_names();
}

/// The round trip of the `Image` variant, given that of its fields.
proof fn lemma_inline_image(a: AttrView, b: Seq<InlineView>, c: TargetView)
    requires
        decode_inlines(encode_inlines(b)) == Ok::<Seq<InlineView>, DecodeErrorView>(b),
    ensures
        decode_inline(encode_inline(InlineView::Image(a, b, c))) == Ok::<InlineView, DecodeErrorView>(
            InlineView::Image(a, b, c),
        ),
{
    law_attr(a);
    law_target(c);
    lemma_untag_tagged(InlineType::Image.spec_name(), JsonView::Array(seq![encode_attr(a),
        encode_inlines(b), encode_target(c)]));
    InlineType::Image.lemma_names();
}

/// The round trip of the `Note` variant, given that of its fields.
proof fn lemma_inline_note(a: Seq<BlockView>)
    requires
        decode_blocks(encode_blocks(a)) == Ok::<Seq<BlockView>, DecodeErrorView>(a),
    ensures
        decode_inline(encode_inline(InlineView::Note(a))) == Ok::<InlineView, DecodeErrorView>(
            InlineView::Note(a),
        ),
{
    lemma_untag_tagged(InlineType::Note.spec_name(), encode_blocks(a));
    InlineType::Note.lemma_names();
}

/// The round trip of the `Span` variant, given that of its fields.
proof fn lemma_inline_span(a: AttrView, b: Seq<InlineView>)
    requires
        decode_inlines(encode_inlines(b)) == Ok::<Seq<InlineView>, DecodeErrorView>(b),
    ensures
        decode_inline(encode_inline(InlineView::Span(a, b))) == Ok::<InlineView, DecodeErrorView>(
            InlineView::Span(a, b),
        ),
{
    law_attr(a);
    lemma_untag_tagged(InlineType::Span.spec_name(), JsonView::Array(seq![encode_attr(a),
        encode_inlines(b)]));
    InlineType::Span.lemma_names();
}

/// An inline that is written and read again is the same.
pub proof fn law_inline(x: InlineView)
    ensures
        decode_inline(encode_inline(x)) == Ok::<InlineView, DecodeErrorView>(x),
    decreases x,
{
    match x {
        InlineView::Str(a) => {
            lemma_inline_str(a);
        },
        InlineView::Emph(a) => {
            law_inlines(a);
            lemma_inline_emph(a);
        },
        InlineView::Underline(a) => {
            law_inlines(a);
            lemma_inline_underline(a);
        },
        InlineView::Strong(a) => {
            law_inlines(a);
            lemma_inline_strong(a);
        },
        InlineView::Strikeout(a) => {
            law_inlines(a);
            lemma_inline_strikeout(a);
        },
        InlineView::Superscript(a) => {
            law_inlines(a);
            lemma_inline_superscript(a);
        },
        InlineView::Subscript(a) => {
            law_inlines(a);
            lemma_inline_subscript(a);
        },
        InlineView::SmallCaps(a) => {
            law_inlines(a);
            lemma_inline_small_caps(a);
        },
        InlineView::Quoted(a, b) => {
            law_inlines(b);
            lemma_inline_quoted(a, b);
        },
        InlineView::Cite(a, b) => {
            law_citations(a);
            law_inlines(b);
            lemma_inline_cite(a, b);
        },
        InlineView::Code(a, b) => {
            lemma_inline_code(a, b);
        },
        InlineView::Space => {
            lemma_inline_space();
        },
        InlineView::SoftBreak => {
            lemma_inline_soft_break();
        },
        InlineView::LineBreak => {
            lemma_inline_line_break();
        },
        InlineView::Math(a, b) => {
            lemma_inline_math(a, b);
        },
        InlineView::RawInline(a, b) => {
            lemma_inline_raw_inline(a, b);
        },
        InlineView::Link(a, b, c) => {
            law_inlines(b);
            lemma_inline_link(a, b, c);
        },
        InlineView::Image(a, b, c) => {
            law_inlines(b);
            lemma_inline_image(a, b, c);
        },
        InlineView::Note(a) => {
            law_blocks(a);
            lemma_inline_note(a);
        },
        InlineView::Span(a, b) => {
            law_inlines(b);
            lemma_inline_span(a, b);
        },
    }
}

/// A list of inlines that is written and read again is the same list.
pub proof fn law_inlines(s: Seq<InlineView>)
    ensures
        decode_inlines(encode_inlines(s)) == Ok::<Seq<InlineView>, DecodeErrorView>(s),
    decreases s,
{
    let results = decode_inline_items(encode_inlines(s)->Array_0);
    assert forall|k: int| 0 <= k < results.len() implies results[k] == Ok::<
        InlineView,
        DecodeErrorView,
    >(s[k]) by {
        law_inline(s[k]);
    }
    lemma_collect_values(results, s);
}

/// A list of lists of inlines that is written and read again is the same list.
pub proof fn law_inline_lists(s: Seq<Seq<InlineView>>)
    ensures
        decode_inline_lists(encode_inline_lists(s)) == Ok::<Seq<Seq<InlineView>>, DecodeErrorView>(s),
    decreases s,
{
    let results = decode_inline_list_items(encode_inline_lists(s)->Array_0);
    assert forall|k: int| 0 <= k < results.len() implies results[k] == Ok::<
        Seq<InlineView>,
        DecodeErrorView,
    >(s[k]) by {
        law_inlines(s[k]);
    }
    lemma_collect_values(results, s);
}

/// Each member of a written citation is found under its key.
proof fn lemma_citation_members(x: CitationView)
    ensures
        ({
            let members = encode_citation(x)->Object_0;
            &&& field(members, Key::CitationId) == Ok::<JsonView, DecodeErrorView>(members[0].1)
            &&& field(members, Key::CitationPrefix) == Ok::<JsonView, DecodeErrorView>(
                members[1].1,
            )
            &&& field(members, Key::CitationSuffix) == Ok::<JsonView, DecodeErrorView>(
                members[2].1,
            )
            &&& field(members, Key::CitationMode) == Ok::<JsonView, DecodeErrorView>(members[3].1)
            &&& field(members, Key::CitationNoteNum) == Ok::<JsonView, DecodeErrorView>(
                members[4].1,
            )
            &&& field(members, Key::CitationHash) == Ok::<JsonView, DecodeErrorView>(members[5].1)
        }),
{
    let members = encode_citation(x)->Object_0;
    let keys = seq![
        Key::CitationId,
        Key::CitationPrefix,
        Key::CitationSuffix,
        Key::CitationMode,
        Key::CitationNoteNum,
        Key::CitationHash,
    ];
    assert forall|a: int, b: int| 0 <= a < 6 && 0 <= b < 6 && a != b implies keys[a].spec_name()
        != keys[b].spec_name() by {
        lemma_key_names_differ(keys[a], keys[b]);
    }
    assert forall|a: int| 0 <= a < 6 implies #[trigger] members[a].0 == keys[a].spec_name() by {}
    lemma_lookup_unique(members, Key::CitationId.spec_name(), 0);
    lemma_lookup_unique(members, Key::CitationPrefix.spec_name(), 1);
    lemma_lookup_unique(members, Key::CitationSuffix.spec_name(), 2);
    lemma_lookup_unique(members, Key::CitationMode.spec_name(), 3);
    lemma_lookup_unique(members, Key::CitationNoteNum.spec_name(), 4);
    lemma_lookup_unique(members, Key::CitationHash.spec_name(), 5);
}

/// A citation that is written and read again is the same.
pub proof fn law_citation(x: CitationView)
    ensures
        decode_citation(encode_citation(x)) == Ok::<CitationView, DecodeErrorView>(x),
    decreases x,
{
    let members = encode_citation(x)->Object_0;
    law_inlines(x.citation_prefix);
    law_inlines(x.citation_suffix);
    law_citation_mode(x.citation_mode);
    lemma_citation_members(x);
}

/// A list of citations that is written and read again is the same list.
pub proof fn law_citations(s: Seq<CitationView>)
    ensures
        decode_citations(encode_citations(s)) == Ok::<Seq<CitationView>, DecodeErrorView>(s),
    decreases s,
{
    let results = decode_citation_items(encode_citations(s)->Array_0);
    assert forall|k: int| 0 <= k < results.len() implies results[k] == Ok::<
        CitationView,
        DecodeErrorView,
    >(s[k]) by {
        law_citation(s[k]);
    }
    lemma_collect_values(results, s);
}

/// The round trip of the `Plain` variant, given that of its fields.
proof fn lemma_block_plain(a: Seq<InlineView>)
    requires
        decode_inlines(encode_inlines(a)) == Ok::<Seq<InlineView>, DecodeErrorView>(a),
    ensures
        decode_block(encode_block(BlockView::Plain(a))) == Ok::<BlockView, DecodeErrorView>(
            BlockView::Plain(a),
        ),
{
    lemma_untag_tagged(BlockType::Plain.spec_name(), encode_inlines(a));
    BlockType::Plain.lemma_names();
}

/// The round trip of the `Para` variant, given that of its fields.
proof fn lemma_block_para(a: Seq<InlineView>)
    requires
        decode_inlines(encode_inlines(a)) == Ok::<Seq<InlineView>, DecodeErrorView>(a),
    ensures
        decode_block(encode_block(BlockView::Para(a))) == Ok::<BlockView, DecodeErrorView>(
            BlockView::Para(a),
        ),
{
    lemma_untag_tagged(BlockType::Para.spec_name(), encode_inlines(a));
    BlockType::Para.lemma_names();
}

/// The round trip of the `LineBlock` variant, given that of its fields.
proof fn lemma_block_line_block(a: Seq<Seq<InlineView>>)
    requires
        decode_inline_lists(encode_inline_lists(a)) == Ok::<Seq<Seq<InlineView>>, DecodeErrorView>(a),
    ensures
        decode_block(encode_block(BlockView::LineBlock(a))) == Ok::<BlockView, DecodeErrorView>(
            BlockView::LineBlock(a),
        ),
{
    lemma_untag_tagged(BlockType::LineBlock.spec_name(), encode_inline_lists(a));
    BlockType::LineBlock.lemma_names();
}

/// The round trip of the `CodeBlock` variant, given that of its fields.
proof fn lemma_block_code_block(a: AttrView, b: Seq<char>)
    ensures
        decode_block(encode_block(BlockView::CodeBlock(a, b))) == Ok::<BlockView, DecodeErrorView>(
            BlockView::CodeBlock(a, b),
        ),
{
    law_attr(a);
    lemma_untag_tagged(BlockType::CodeBlock.spec_name(), JsonView::Array(seq![encode_attr(a),
        encode_string(b)]));
    BlockType::CodeBlock.lemma_names();
}

/// The round trip of the `RawBlock` variant, given that of its fields.
proof fn lemma_block_raw_block(a: Seq<char>, b: Seq<char>)
    ensures
        decode_block(encode_block(BlockView::RawBlock(a, b))) == Ok::<BlockView, DecodeErrorView>(
            BlockView::RawBlock(a, b),
        ),
{
    lemma_untag_tagged(BlockType::RawBlock.spec_name(), JsonView::Array(seq![encode_string(a),
        encode_string(b)]));
    BlockType::RawBlock.lemma_names();
}

/// The round trip of the `BlockQuote` variant, given that of its fields.
proof fn lemma_block_block_quote(a: Seq<BlockView>)
    requires
        decode_blocks(encode_blocks(a)) == Ok::<Seq<BlockView>, DecodeErrorView>(a),
    ensures
        decode_block(encode_block(BlockView::BlockQuote(a))) == Ok::<BlockView, DecodeErrorView>(
            BlockView::BlockQuote(a),
        ),
{
    lemma_untag_tagged(BlockType::BlockQuote.spec_name(), encode_blocks(a));
    BlockType::BlockQuote.lemma_names();
}

/// The round trip of the `OrderedList` variant, given that of its fields.
proof fn lemma_block_ordered_list(a: ListAttributes, b: Seq<Seq<BlockView>>)
    requires
        decode_block_lists(encode_block_lists(b)) == Ok::<Seq<Seq<BlockView>>, DecodeErrorView>(b),
    ensures
        decode_block(encode_block(BlockView::OrderedList(a, b))) == Ok::<BlockView, DecodeErrorView>(
            BlockView::OrderedList(a, b),
        ),
{
    law_list_attributes(a);
    lemma_untag_tagged(BlockType::OrderedList.spec_name(),
        JsonView::Array(seq![encode_list_attributes(a), encode_block_lists(b)]));
    BlockType::OrderedList.lemma_names();
}

/// The round trip of the `BulletList` variant, given that of its fields.
proof fn lemma_block_bullet_list(a: Seq<Seq<BlockView>>)
    requires
        decode_block_lists(encode_block_lists(a)) == Ok::<Seq<Seq<BlockView>>, DecodeErrorView>(a),
    ensures
        decode_block(encode_block(BlockView::BulletList(a))) == Ok::<BlockView, DecodeErrorView>(
            BlockView::BulletList(a),
        ),
{
    lemma_untag_tagged(BlockType::BulletList.spec_name(), encode_block_lists(a));
    BlockType::BulletList.lemma_names();
}

/// The round trip of the `DefinitionList` variant, given that of its fields.
proof fn lemma_block_definition_list(a: Seq<(Seq<InlineView>, Seq<Seq<BlockView>>)>)
    requires
        decode_definitions(encode_definitions(a))
            == Ok::<Seq<(Seq<InlineView>, Seq<Seq<BlockView>>)>, DecodeErrorView>(a),
    ensures
        decode_block(encode_block(BlockView::DefinitionList(a))) == Ok::<BlockView, DecodeErrorView>(
            BlockView::DefinitionList(a),
        ),
{
    lemma_untag_tagged(BlockType::DefinitionList.spec_name(), encode_definitions(a));
    BlockType::DefinitionList.lemma_names();
}

/// The round trip of the `Header` variant, given that of its fields.
proof fn lemma_block_header(a: i32, b: AttrView, c: Seq<InlineView>)
    requires
        decode_inlines(encode_inlines(c)) == Ok::<Seq<InlineView>, DecodeErrorView>(c),
    ensures
        decode_block(encode_block(BlockView::Header(a, b, c))) == Ok::<BlockView, DecodeErrorView>(
            BlockView::Header(a, b, c),
        ),
{
    law_attr(b);
    lemma_untag_tagged(BlockType::Header.spec_name(), JsonView::Array(seq![encode_i32(a),
        encode_attr(b), encode_inlines(c)]));
    BlockType::Header.lemma_names();
}

/// The round trip of the `HorizontalRule` variant, given that of its fields.
proof fn lemma_block_horizontal_rule()
    ensures
        decode_block(encode_block(BlockView::HorizontalRule)) == Ok::<BlockView, DecodeErrorView>(
            BlockView::HorizontalRule,
        ),
{
    lemma_untag_unit(BlockType::HorizontalRule.spec_name());
    BlockType::HorizontalRule.lemma_names();
}

/// The round trip of the `Table` variant, given that of its fields.
proof fn lemma_block_table(a: TableView)
    requires
        decode_table(encode_table(a)) == Ok::<TableView, DecodeErrorView>(a),
    ensures
        decode_block(encode_block(BlockView::Table(a))) == Ok::<BlockView, DecodeErrorView>(
            BlockView::Table(a),
        ),
{
    lemma_untag_tagged(BlockType::Table.spec_name(), encode_table(a));
    BlockType::Table.lemma_names();
}

/// The round trip of the `Figure` variant, given that of its fields.
proof fn lemma_block_figure(a: AttrView, b: CaptionView, c: Seq<BlockView>)
    requires
        decode_caption(encode_caption(b)) == Ok::<CaptionView, DecodeErrorView>(b),
        decode_blocks(encode_blocks(c)) == Ok::<Seq<BlockView>, DecodeErrorView>(c),
    ensures
        decode_block(encode_block(BlockView::Figure(a, b, c))) == Ok::<BlockView, DecodeErrorView>(
            BlockView::Figure(a, b, c),
        ),
{
    law_attr(a);
    lemma_untag_tagged(BlockType::Figure.spec_name(), JsonView::Array(seq![encode_attr(a),
        encode_caption(b), encode_blocks(c)]));
    BlockType::Figure.lemma_names();
}

/// The round trip of the `Div` variant, given that of its fields.
proof fn lemma_block_div(a: AttrView, b: Seq<BlockView>)
    requires
        decode_blocks(encode_blocks(b)) == Ok::<Seq<BlockView>, DecodeErrorView>(b),
    ensures
        decode_block(encode_block(BlockView::Div(a, b))) == Ok::<BlockView, DecodeErrorView>(
            BlockView::Div(a, b),
        ),
{
    law_attr(a);
    lemma_untag_tagged(BlockType::Div.spec_name(), JsonView::Array(seq![encode_attr(a), encode_blocks(b)]));
    BlockType::Div.lemma_names();
}

/// The round trip of the `Null` variant, given that of its fields.
proof fn lemma_block_null()
    ensures
        decode_block(encode_block(BlockView::Null)) == Ok::<BlockView, DecodeErrorView>(
            BlockView::Null,
        ),
{
    lemma_untag_unit(BlockType::Null.spec_name());
    BlockType::Null.lemma_names();
}

/// A block that is written and read again is the same.
pub proof fn law_block(x: BlockView)
    ensures
        decode_block(encode_block(x)) == Ok::<BlockView, DecodeErrorView>(x),
    decreases x,
{
    match x {
        BlockView::Plain(a) => {
            law_inlines(a);
            lemma_block_plain(a);
        },
        BlockView::Para(a) => {
            law_inlines(a);
            lemma_block_para(a);
        },
        BlockView::LineBlock(a) => {
            law_inline_lists(a);
            lemma_block_line_block(a);
        },
        BlockView::CodeBlock(a, b) => {
            lemma_block_code_block(a, b);
        },
        BlockView::RawBlock(a, b) => {
            lemma_block_raw_block(a, b);
        },
        BlockView::BlockQuote(a) => {
            law_blocks(a);
            lemma_block_block_quote(a);
        },
        BlockView::OrderedList(a, b) => {
            law_block_lists(b);
            lemma_block_ordered_list(a, b);
        },
        BlockView::BulletList(a) => {
            law_block_lists(a);
            lemma_block_bullet_list(a);
        },
        BlockView::DefinitionList(a) => {
            law_definitions(a);
            lemma_block_definition_list(a);
        },
        BlockView::Header(a, b, c) => {
            law_inlines(c);
            lemma_block_header(a, b, c);
        },
        BlockView::HorizontalRule => {
            lemma_block_horizontal_rule();
        },
        BlockView::Table(a) => {
            law_table(a);
            lemma_block_table(a);
        },
        BlockView::Figure(a, b, c) => {
            law_caption(b);
            law_blocks(c);
            lemma_block_figure(a, b, c);
        },
        BlockView::Div(a, b) => {
            law_blocks(b);
            lemma_block_div(a, b);
        },
        BlockView::Null => {
            lemma_block_null();
        },
    }
}

/// A list of blocks that is written and read again is the same list.
pub proof fn law_blocks(s: Seq<BlockView>)
    ensures
        decode_blocks(encode_blocks(s)) == Ok::<Seq<BlockView>, DecodeErrorView>(s),
    decreases s,
{
    let results = decode_block_items(encode_blocks(s)->Array_0);
    assert forall|k: int| 0 <= k < results.len() implies results[k] == Ok::<
        BlockView,
        DecodeErrorView,
    >(s[k]) by {
        law_block(s[k]);
    }
    lemma_collect_values(results, s);
}

/// A list of lists of blocks that is written and read again is the same list.
pub proof fn law_block_lists(s: Seq<Seq<BlockView>>)
    ensures
        decode_block_lists(encode_block_lists(s)) == Ok::<Seq<Seq<BlockView>>, DecodeErrorView>(s),
    decreases s,
{
    let results = decode_block_list_items(encode_block_lists(s)->Array_0);
    assert forall|k: int| 0 <= k < results.len() implies results[k] == Ok::<
        Seq<BlockView>,
        DecodeErrorView,
    >(s[k]) by {
        law_blocks(s[k]);
    }
    lemma_collect_values(results, s);
}

/// A term with its definitions that is written and read again is the same.
pub proof fn law_definition(x: (Seq<InlineView>, Seq<Seq<BlockView>>))
    ensures
        decode_definition(encode_definition(x))
            == Ok::<(Seq<InlineView>, Seq<Seq<BlockView>>), DecodeErrorView>(x),
    decreases x,
{
    law_inlines(x.0);
    law_block_lists(x.1);
}

/// A list of terms with their definitions that is written and read again is the same list.
pub proof fn law_definitions(s: Seq<(Seq<InlineView>, Seq<Seq<BlockView>>)>)
    ensures
        decode_definitions(encode_definitions(s))
            == Ok::<Seq<(Seq<InlineView>, Seq<Seq<BlockView>>)>, DecodeErrorView>(s),
    decreases s,
{
    let results = decode_definition_items(encode_definitions(s)->Array_0);
    assert forall|k: int| 0 <= k < results.len() implies results[k] == Ok::<
        (Seq<InlineView>, Seq<Seq<BlockView>>),
        DecodeErrorView,
    >(s[k]) by {
        law_definition(s[k]);
    }
    lemma_collect_values(results, s);
}

/// A caption that is written and read again is the same.
pub proof fn law_caption(x: CaptionView)
    ensures
        decode_caption(encode_caption(x)) == Ok::<CaptionView, DecodeErrorView>(x),
    decreases x,
{
    match x.short {
        Some(v) => {
            law_inlines(v);
        },
        None => {},
    }
    law_blocks(x.long);
}

/// A cell that is written and read again is the same.
pub proof fn law_cell(x: CellView)
    ensures
        decode_cell(encode_cell(x)) == Ok::<CellView, DecodeErrorView>(x),
    decreases x,
{
    law_attr(x.attr);
    law_alignment(x.align);
    law_blocks(x.content);
}

/// A list of cells that is written and read again is the same list.
pub proof fn law_cells(s: Seq<CellView>)
    ensures
        decode_cells(encode_cells(s)) == Ok::<Seq<CellView>, DecodeErrorView>(s),
    decreases s,
{
    let results = decode_cell_items(encode_cells(s)->Array_0);
    assert forall|k: int| 0 <= k < results.len() implies results[k] == Ok::<
        CellView,
        DecodeErrorView,
    >(s[k]) by {
        law_cell(s[k]);
    }
    lemma_collect_values(results, s);
}

/// A row that is written and read again is the same.
pub proof fn law_row(x: RowView)
    ensures
        decode_row(encode_row(x)) == Ok::<RowView, DecodeErrorView>(x),
    decreases x,
{
    law_attr(x.attr);
    law_cells(x.cells);
}

/// A list of rows that is written and read again is the same list.
pub proof fn law_rows(s: Seq<RowView>)
    ensures
        decode_rows(encode_rows(s)) == Ok::<Seq<RowView>, DecodeErrorView>(s),
    decreases s,
{
    let results = decode_row_items(encode_rows(s)->Array_0);
    assert forall|k: int| 0 <= k < results.len() implies results[k] == Ok::<
        RowView,
        DecodeErrorView,
    >(s[k]) by {
        law_row(s[k]);
    }
    lemma_collect_values(results, s);
}

/// A table head that is written and read again is the same.
pub proof fn law_table_head(x: TableHeadView)
    ensures
        decode_table_head(encode_table_head(x)) == Ok::<TableHeadView, DecodeErrorView>(x),
    decreases x,
{
    law_attr(x.attr);
    law_rows(x.rows);
}

/// A table body that is written and read again is the same.
pub proof fn law_table_body(x: TableBodyView)
    ensures
        decode_table_body(encode_table_body(x)) == Ok::<TableBodyView, DecodeErrorView>(x),
    decreases x,
{
    law_attr(x.attr);
    law_rows(x.head);
    law_rows(x.body);
}

/// A list of table bodies that is written and read again is the same list.
pub proof fn law_table_bodies(s: Seq<TableBodyView>)
    ensures
        decode_table_bodies(encode_table_bodies(s)) == Ok::<Seq<TableBodyView>, DecodeErrorView>(s),
    decreases s,
{
    let results = decode_table_body_items(encode_table_bodies(s)->Array_0);
    assert forall|k: int| 0 <= k < results.len() implies results[k] == Ok::<
        TableBodyView,
        DecodeErrorView,
    >(s[k]) by {
        law_table_body(s[k]);
    }
    lemma_collect_values(results, s);
}

/// A table foot that is written and read again is the same.
pub proof fn law_table_foot(x: TableFootView)
    ensures
        decode_table_foot(encode_table_foot(x)) == Ok::<TableFootView, DecodeErrorView>(x),
    decreases x,
{
    law_attr(x.attr);
    law_rows(x.rows);
}

/// A table that is written and read again is the same.
pub proof fn law_table(x: TableView)
    ensures
        decode_table(encode_table(x)) == Ok::<TableView, DecodeErrorView>(x),
    decreases x,
{
    law_attr(x.attr);
    law_caption(x.caption);
    law_col_specs(x.colspecs);
    law_table_head(x.head);
    law_table_bodies(x.bodies);
    law_table_foot(x.foot);
}

/// The tags of the metadata values differ from one another.
proof fn lemma_meta_tags()
    ensures
        "MetaMap"@ != "MetaList"@,
        "MetaMap"@ != "MetaBool"@,
        "MetaMap"@ != "MetaString"@,
        "MetaMap"@ != "MetaInlines"@,
        "MetaMap"@ != "MetaBlocks"@,
        "MetaList"@ != "MetaBool"@,
        "MetaList"@ != "MetaString"@,
        "MetaList"@ != "MetaInlines"@,
        "MetaList"@ != "MetaBlocks"@,
        "MetaBool"@ != "MetaString"@,
        "MetaBool"@ != "MetaInlines"@,
        "MetaBool"@ != "MetaBlocks"@,
        "MetaString"@ != "MetaInlines"@,
        "MetaString"@ != "MetaBlocks"@,
        "MetaInlines"@ != "MetaBlocks"@,
{
    reveal_strlit("MetaMap");
    reveal_strlit("MetaList");
    reveal_strlit("MetaBool");
    reveal_strlit("MetaString");
    reveal_strlit("MetaInlines");
    reveal_strlit("MetaBlocks");
    assert("MetaMap"@.len() == 7);
    assert("MetaList"@.len() == 8 && "MetaList"@[4] == 'L');
    assert("MetaBool"@.len() == 8 && "MetaBool"@[4] == 'B');
    assert("MetaString"@.len() == 10 && "MetaString"@[4] == 'S');
    assert("MetaInlines"@.len() == 11);
    assert("MetaBlocks"@.len() == 10 && "MetaBlocks"@[4] == 'B');
}

/// Entries without a repeated key come out of [`meta_build`] as they went
/// in.
pub proof fn lemma_meta_build_distinct(entries: Seq<(Seq<char>, MetaValueView)>)
    requires
        keys_distinct(entries),
    ensures
        meta_build(
            Seq::new(entries.len(), |k: int| entries[k].0),
            Seq::new(entries.len(), |k: int| entries[k].1),
        ) == entries,
    decreases entries.len(),
{
    let keys = Seq::new(entries.len(), |k: int| entries[k].0);
    let values = Seq::new(entries.len(), |k: int| entries[k].1);
    if entries.len() == 0 {
        assert(entries =~= Seq::empty());
    } else {
        let front = entries.drop_last();
        lemma_meta_build_distinct(front);
        assert(keys.drop_last() =~= Seq::new(front.len(), |k: int| front[k].0));
        assert(values.drop_last() =~= Seq::new(front.len(), |k: int| front[k].1));
        assert(!has_key(front, keys.last())) by {
            if has_key(front, keys.last()) {
                let i = choose|i: int| 0 <= i < front.len() && (#[trigger] front[i]).0 == keys.last();
                assert(entries[i].0 != entries[entries.len() - 1].0);
            }
        }
        assert(front.push((keys.last(), values.last())) =~= entries);
    }
}

/// A metadata value without repeated keys that is written and read again
/// is the same.
pub proof fn law_meta_value(x: MetaValueView)
    requires
        x.wf(),
    ensures
        decode_meta_value(encode_meta_value(x)) == Ok::<MetaValueView, DecodeErrorView>(x),
    decreases x,
{
    match x {
        MetaValueView::MetaMap(m) => {
            law_meta(m);
            lemma_meta_tags();
            lemma_untag_tagged("MetaMap"@, encode_meta(m));
        },
        MetaValueView::MetaList(l) => {
            law_meta_values(l);
            lemma_meta_tags();
            lemma_untag_tagged("MetaList"@, encode_meta_values(l));
        },
        MetaValueView::MetaBool(b) => {
            lemma_meta_tags();
            lemma_untag_tagged("MetaBool"@, JsonView::Bool(b));
        },
        MetaValueView::MetaString(s) => {
            lemma_meta_tags();
            lemma_untag_tagged("MetaString"@, encode_string(s));
        },
        MetaValueView::MetaInlines(v) => {
            law_inlines(v);
            lemma_meta_tags();
            lemma_untag_tagged("MetaInlines"@, encode_inlines(v));
        },
        MetaValueView::MetaBlocks(v) => {
            law_blocks(v);
            lemma_meta_tags();
            lemma_untag_tagged("MetaBlocks"@, encode_blocks(v));
        },
    }
}

/// A list of metadata values without repeated keys that is written and
/// read again is the same list.
pub proof fn law_meta_values(s: Seq<MetaValueView>)
    requires
        forall|k: int| 0 <= k < s.len() ==> (#[trigger] s[k]).wf(),
    ensures
        decode_meta_values(encode_meta_values(s)) == Ok::<Seq<MetaValueView>, DecodeErrorView>(s),
    decreases s,
{
    let results = decode_meta_value_items(encode_meta_values(s)->Array_0);
    assert forall|k: int| 0 <= k < results.len() implies results[k] == Ok::<
        MetaValueView,
        DecodeErrorView,
    >(s[k]) by {
        law_meta_value(s[k]);
    }
    lemma_collect_values(results, s);
}

/// A metadata mapping without repeated keys that is written and read
/// again is the same, entry for entry.
pub proof fn law_meta(x: MetaView)
    requires
        x.wf(),
    ensures
        decode_meta(encode_meta(x)) == Ok::<MetaView, DecodeErrorView>(x),
    decreases x,
{
    let members = encode_meta(x)->Object_0;
    let results = decode_meta_members(members);
    let values = Seq::new(x.entries.len(), |k: int| x.entries[k].1);
    assert forall|k: int| 0 <= k < results.len() implies results[k] == Ok::<
        MetaValueView,
        DecodeErrorView,
    >(values[k]) by {
        law_meta_value(x.entries[k].1);
    }
    lemma_collect_values(results, values);
    assert(member_keys(members) =~= Seq::new(x.entries.len(), |k: int| x.entries[k].0));
    lemma_meta_build_distinct(x.entries);
}

/// The version that is written is read again, and is accepted.
pub proof fn law_version()
    ensures
        decode_version(encode_version(api_version())) == Ok::<Seq<i32>, DecodeErrorView>(
            api_version(),
        ),
        version_accepted(api_version()),
{
    let results = decode_i32_items(encode_version(api_version())->Array_0);
    lemma_collect_values(results, api_version());
}

/// Each member of a written document is found under its key.
proof fn lemma_pandoc_members(x: PandocView)
    ensures
        ({
            let members = encode_pandoc(x)->Object_0;
            &&& field(members, Key::ApiVersion) == Ok::<JsonView, DecodeErrorView>(members[0].1)
            &&& field(members, Key::Meta) == Ok::<JsonView, DecodeErrorView>(members[1].1)
            &&& field(members, Key::Blocks) == Ok::<JsonView, DecodeErrorView>(members[2].1)
        }),
{
    let members = encode_pandoc(x)->Object_0;
    lemma_key_names_differ(Key::ApiVersion, Key::Meta);
    lemma_key_names_differ(Key::ApiVersion, Key::Blocks);
    lemma_key_names_differ(Key::Meta, Key::Blocks);
    lemma_lookup_unique(members, Key::ApiVersion.spec_name(), 0);
    lemma_lookup_unique(members, Key::Meta.spec_name(), 1);
    lemma_lookup_unique(members, Key::Blocks.spec_name(), 2);
}

/// Round trip: a document whose metadata has no key twice, written and
/// read again, is the same document. The version that it is written with
/// is the accepted one, whatever the document came from.
pub proof fn law_round_trip(d: PandocView)
    requires
        d.wf(),
    ensures
        decode_pandoc(encode_pandoc(d)) == Ok::<PandocView, DecodeErrorView>(d),
{
    lemma_pandoc_members(d);
    law_meta(d.meta);
    law_blocks(d.blocks);
    law_version();
}

/// The version gate: a value is read as a document only where its version
/// starts with the accepted major and minor numbers.
pub proof fn law_version_gate(j: JsonView)
    ensures
        decode_pandoc(j) is Ok ==> j is Object && field(j->Object_0, Key::ApiVersion) is Ok
            && decode_version(field(j->Object_0, Key::ApiVersion)->Ok_0) is Ok
            && version_accepted(decode_version(field(j->Object_0, Key::ApiVersion)->Ok_0)->Ok_0),
{
}

/// A cell is written as an array of its five fields in their fixed order:
/// attributes, alignment, row span, column span, content.
pub proof fn law_cell_is_tuple(c: CellView)
    ensures
        encode_cell(c) is Array,
        encode_cell(c)->Array_0.len() == 5,
        encode_cell(c)->Array_0[0] == encode_attr(c.attr),
        encode_cell(c)->Array_0[1] == encode_alignment(c.align),
        encode_cell(c)->Array_0[2] == encode_i32(c.row_span),
        encode_cell(c)->Array_0[3] == encode_i32(c.col_span),
        encode_cell(c)->Array_0[4] == encode_blocks(c.content),
{
}

/// What [`meta_build`] gives has no key twice, and holds no value but the
/// given ones.
pub proof fn lemma_meta_build_distinct_keys(keys: Seq<Seq<char>>, values: Seq<MetaValueView>)
    ensures
        keys_distinct(meta_build(keys, values)),
        forall|x: int|
            0 <= x < meta_build(keys, values).len() ==> exists|y: int|
                0 <= y < values.len() && values[y] == (#[trigger] meta_build(keys, values)[x]).1,
    decreases keys.len(),
{
    if keys.len() == 0 || values.len() != keys.len() {
    } else {
        let front = meta_build(keys.drop_last(), values.drop_last());
        lemma_meta_build_distinct_keys(keys.drop_last(), values.drop_last());
        law_meta_insert(front, keys.last(), values.last());
        let after = meta_insert(front, keys.last(), values.last());
        let i = if has_key(front, keys.last()) {
            key_index(front, keys.last())
        } else {
            front.len() as int
        };
        assert forall|x: int| 0 <= x < after.len() implies exists|y: int|
            0 <= y < values.len() && values[y] == (#[trigger] after[x]).1 by {
            if x == i {
                assert(values[values.len() - 1] == after[x].1);
            } else {
                assert(after[x] == front[x]);
                let y = choose|y: int|
                    0 <= y < values.drop_last().len() && values.drop_last()[y] == front[x].1;
                assert(values[y] == after[x].1);
            }
        }
    }
}

/// Every metadata value that is read has no key twice.
pub proof fn law_decoded_meta_value_is_well_formed(j: JsonView)
    ensures
        decode_meta_value(j) matches Ok(v) ==> v.wf(),
    decreases j,
{
    match untag(j) {
        Err(_) => {},
        Ok(t) => {
            lemma_untag_decreases(j);
            match t.contents {
                Some(c) => {
                    if t.tag == "MetaMap"@ {
                        law_decoded_meta_is_well_formed(c);
                    } else if t.tag == "MetaList"@ {
                        law_decoded_meta_values_are_well_formed(c);
                    }
                },
                None => {},
            }
        },
    }
}

/// Every list of metadata values that is read has no key twice.
pub proof fn law_decoded_meta_values_are_well_formed(j: JsonView)
    ensures
        decode_meta_values(j) matches Ok(l) ==> forall|k: int|
            0 <= k < l.len() ==> (#[trigger] l[k]).wf(),
    decreases j,
{
    match j {
        JsonView::Array(items) => {
            let results = decode_meta_value_items(items);
            lemma_collect_len(results);
            match collect(results) {
                Ok(l) => {
                    assert forall|k: int| 0 <= k < l.len() implies (#[trigger] l[k]).wf() by {
                        law_decoded_meta_value_is_well_formed(items[k]);
                        assert(results[k] == decode_meta_value(items[k]));
                        assert(results[k] == Ok::<MetaValueView, DecodeErrorView>(l[k]));
                    }
                },
                Err(_) => {},
            }
        },
        _ => {},
    }
}

/// Every metadata mapping that is read has no key twice, here or further
/// down.
pub proof fn law_decoded_meta_is_well_formed(j: JsonView)
    ensures
        decode_meta(j) matches Ok(m) ==> m.wf(),
    decreases j,
{
    match j {
        JsonView::Object(members) => {
            let results = decode_meta_members(members);
            lemma_collect_len(results);
            match collect(results) {
                Ok(values) => {
                    let entries = meta_build(member_keys(members), values);
                    lemma_meta_build_distinct_keys(member_keys(members), values);
                    assert forall|x: int| 0 <= x < entries.len() implies (#[trigger] entries[x]).1.wf() by {
                        let y = choose|y: int| 0 <= y < values.len() && values[y] == entries[x].1;
                        law_decoded_meta_value_is_well_formed(members[y].1);
                        assert(results[y] == decode_meta_value(members[y].1));
                        assert(results[y] == Ok::<MetaValueView, DecodeErrorView>(values[y]));
                    }
                },
                Err(_) => {},
            }
        },
        _ => {},
    }
}

/// Every document that is read is well formed: its metadata has no key
/// twice.
pub proof fn law_decoded_is_well_formed(j: JsonView)
    ensures
        decode_pandoc(j) matches Ok(d) ==> d.wf(),
{
    match j {
        JsonView::Object(members) => {
            match field(members, Key::Meta) {
                Ok(v) => {
                    law_decoded_meta_is_well_formed(v);
                },
                Err(_) => {},
            }
        },
        _ => {},
    }
}

/// Every block is written as an object with the name of its kind under
/// the tag key. A horizontal rule and a null block have no contents at
/// all; every other block has contents.
pub proof fn law_block_is_tagged(x: BlockView)
    ensures
        untag(encode_block(x)) matches Ok(t) && t.tag == x.kind().spec_name() && (t.contents is None
            <==> x is HorizontalRule || x is Null),
        x is HorizontalRule || x is Null ==> encode_block(x) == tagged_unit(x.kind().spec_name()),
{
    match x {
        BlockView::Plain(_) => {
            lemma_untag_tagged(BlockType::Plain.spec_name(), encode_block(x)->Object_0[1].1);
        },
        BlockView::Para(_) => {
            lemma_untag_tagged(BlockType::Para.spec_name(), encode_block(x)->Object_0[1].1);
        },
        BlockView::LineBlock(_) => {
            lemma_untag_tagged(BlockType::LineBlock.spec_name(), encode_block(x)->Object_0[1].1);
        },
        BlockView::CodeBlock(_, _) => {
            lemma_untag_tagged(BlockType::CodeBlock.spec_name(), encode_block(x)->Object_0[1].1);
        },
        BlockView::RawBlock(_, _) => {
            lemma_untag_tagged(BlockType::RawBlock.spec_name(), encode_block(x)->Object_0[1].1);
        },
        BlockView::BlockQuote(_) => {
            lemma_untag_tagged(BlockType::BlockQuote.spec_name(), encode_block(x)->Object_0[1].1);
        },
        BlockView::OrderedList(_, _) => {
            lemma_untag_tagged(BlockType::OrderedList.spec_name(), encode_block(x)->Object_0[1].1);
        },
        BlockView::BulletList(_) => {
            lemma_untag_tagged(BlockType::BulletList.spec_name(), encode_block(x)->Object_0[1].1);
        },
        BlockView::DefinitionList(_) => {
            lemma_untag_tagged(BlockType::DefinitionList.spec_name(), encode_block(x)->Object_0[1].1);
        },
        BlockView::Header(_, _, _) => {
            lemma_untag_tagged(BlockType::Header.spec_name(), encode_block(x)->Object_0[1].1);
        },
        BlockView::HorizontalRule => {
            lemma_untag_unit(BlockType::HorizontalRule.spec_name());
        },
        BlockView::Table(_) => {
            lemma_untag_tagged(BlockType::Table.spec_name(), encode_block(x)->Object_0[1].1);
        },
        BlockView::Figure(_, _, _) => {
            lemma_untag_tagged(BlockType::Figure.spec_name(), encode_block(x)->Object_0[1].1);
        },
        BlockView::Div(_, _) => {
            lemma_untag_tagged(BlockType::Div.spec_name(), encode_block(x)->Object_0[1].1);
        },
        BlockView::Null => {
            lemma_untag_unit(BlockType::Null.spec_name());
        },
    }
}

/// Every inline is written as an object with the name of its kind under
/// the tag key. A space, a soft break and a line break have no contents at
/// all; every other inline has contents.
pub proof fn law_inline_is_tagged(x: InlineView)
    ensures
        untag(encode_inline(x)) matches Ok(t) && t.tag == x.kind().spec_name() && (t.contents is None
            <==> x is Space || x is SoftBreak || x is LineBreak),
        x is Space || x is SoftBreak || x is LineBreak ==> encode_inline(x) == tagged_unit(
            x.kind().spec_name(),
        ),
{
    match x {
        InlineView::Str(_) => {
            lemma_untag_tagged(InlineType::Str.spec_name(), encode_inline(x)->Object_0[1].1);
        },
        InlineView::Emph(_) => {
            lemma_untag_tagged(InlineType::Emph.spec_name(), encode_inline(x)->Object_0[1].1);
        },
        InlineView::Underline(_) => {
            lemma_untag_tagged(InlineType::Underline.spec_name(), encode_inline(x)->Object_0[1].1);
        },
        InlineView::Strong(_) => {
            lemma_untag_tagged(InlineType::Strong.spec_name(), encode_inline(x)->Object_0[1].1);
        },
        InlineView::Strikeout(_) => {
            lemma_untag_tagged(InlineType::Strikeout.spec_name(), encode_inline(x)->Object_0[1].1);
        },
        InlineView::Superscript(_) => {
            lemma_untag_tagged(InlineType::Superscript.spec_name(), encode_inline(x)->Object_0[1].1);
        },
        InlineView::Subscript(_) => {
            lemma_untag_tagged(InlineType::Subscript.spec_name(), encode_inline(x)->Object_0[1].1);
        },
        InlineView::SmallCaps(_) => {
            lemma_untag_tagged(InlineType::SmallCaps.spec_name(), encode_inline(x)->Object_0[1].1);
        },
        InlineView::Quoted(_, _) => {
            lemma_untag_tagged(InlineType::Quoted.spec_name(), encode_inline(x)->Object_0[1].1);
        },
        InlineView::Cite(_, _) => {
            lemma_untag_tagged(InlineType::Cite.spec_name(), encode_inline(x)->Object_0[1].1);
        },
        InlineView::Code(_, _) => {
            lemma_untag_tagged(InlineType::Code.spec_name(), encode_inline(x)->Object_0[1].1);
        },
        InlineView::Space => {
            lemma_untag_unit(InlineType::Space.spec_name());
        },
        InlineView::SoftBreak => {
            lemma_untag_unit(InlineType::SoftBreak.spec_name());
        },
        InlineView::LineBreak => {
            lemma_untag_unit(InlineType::LineBreak.spec_name());
        },
        InlineView::Math(_, _) => {
            lemma_untag_tagged(InlineType::Math.spec_name(), encode_inline(x)->Object_0[1].1);
        },
        InlineView::RawInline(_, _) => {
            lemma_untag_tagged(InlineType::RawInline.spec_name(), encode_inline(x)->Object_0[1].1);
        },
        InlineView::Link(_, _, _) => {
            lemma_untag_tagged(InlineType::Link.spec_name(), encode_inline(x)->Object_0[1].1);
        },
        InlineView::Image(_, _, _) => {
            lemma_untag_tagged(InlineType::Image.spec_name(), encode_inline(x)->Object_0[1].1);
        },
        InlineView::Note(_) => {
            lemma_untag_tagged(InlineType::Note.spec_name(), encode_inline(x)->Object_0[1].1);
        },
        InlineView::Span(_, _) => {
            lemma_untag_tagged(InlineType::Span.spec_name(), encode_inline(x)->Object_0[1].1);
        },
    }
}

/// Stability: a document that was read, written and read again is the
/// document that was read first.
pub proof fn law_round_trip_stability(j: JsonView)
    ensures
        decode_pandoc(j) matches Ok(d) ==> decode_pandoc(encode_pandoc(d)) == Ok::<
            PandocView,
            DecodeErrorView,
        >(d),
{
    law_decoded_is_well_formed(j);
    match decode_pandoc(j) {
        Ok(d) => {
            law_round_trip(d);
        },
        Err(_) => {},
    }
}

/// Two well-formed documents that are written alike are the same
/// document.
pub proof fn law_encoding_is_injective(a: PandocView, b: PandocView)
    requires
        a.wf(),
        b.wf(),
        encode_pandoc(a) == encode_pandoc(b),
    ensures
        a == b,
{
    law_round_trip(a);
    law_round_trip(b);
}

} // verus!
