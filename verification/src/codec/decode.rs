//! Decoding: from a JSON value to the document that it stands for.
//!
//! Every function here returns what the wire form gives for the model of
//! its argument: the value whose model that is, or the error. A value is
//! returned exactly where the wire form has a model, and each error exactly
//! where the wire form has that error.

use crate::codec::document::decode_i32_items;
use crate::codec::document::decode_meta;
use crate::codec::document::decode_meta_members;
use crate::codec::document::decode_meta_value;
use crate::codec::document::decode_meta_value_items;
use crate::codec::document::decode_meta_values;
use crate::codec::document::decode_pandoc;
use crate::codec::document::decode_version;
use crate::codec::document::member_keys;
use crate::codec::document::meta_build;
use crate::definition::view::meta_values_view;
use crate::definition::view::MetaValueView;
use crate::definition::Meta;
use crate::definition::MetaValue;
use crate::definition::Pandoc;
use crate::definition::PANDOC_API_MAJOR;
use crate::definition::PANDOC_API_MINOR;
use crate::codec::error::DecodeError;
use crate::codec::error::Key;
use crate::codec::laws::law_decoded_is_well_formed;
use crate::codec::laws::law_decoded_meta_is_well_formed;
use crate::codec::error::Family;
use crate::codec::nodes::decode_block;
use crate::codec::nodes::decode_block_items;
use crate::codec::nodes::decode_block_list_items;
use crate::codec::nodes::decode_block_lists;
use crate::codec::nodes::decode_blocks;
use crate::codec::nodes::decode_caption;
use crate::codec::nodes::decode_cell;
use crate::codec::nodes::decode_cell_items;
use crate::codec::nodes::decode_cells;
use crate::codec::nodes::decode_citation;
use crate::codec::nodes::decode_citation_items;
use crate::codec::nodes::decode_citations;
use crate::codec::nodes::decode_definition;
use crate::codec::nodes::decode_definition_items;
use crate::codec::nodes::decode_definitions;
use crate::codec::nodes::decode_inline;
use crate::codec::nodes::decode_inline_items;
use crate::codec::nodes::decode_inline_list_items;
use crate::codec::nodes::decode_inline_lists;
use crate::codec::nodes::decode_inlines;
use crate::codec::nodes::decode_row;
use crate::codec::nodes::decode_row_items;
use crate::codec::nodes::decode_rows;
use crate::codec::nodes::decode_table;
use crate::codec::nodes::decode_table_bodies;
use crate::codec::nodes::decode_table_body;
use crate::codec::nodes::decode_table_body_items;
use crate::codec::nodes::decode_table_foot;
use crate::codec::nodes::decode_table_head;
use crate::codec::wire::collect;
use crate::codec::wire::decode_alignment;
use crate::codec::wire::decode_attr;
use crate::codec::wire::decode_citation_mode;
use crate::codec::wire::decode_col_spec;
use crate::codec::wire::decode_col_spec_items;
use crate::codec::wire::decode_col_specs;
use crate::codec::wire::decode_col_width;
use crate::codec::wire::decode_list_attributes;
use crate::codec::wire::decode_list_number_delim;
use crate::codec::wire::decode_list_number_style;
use crate::codec::wire::decode_math_type;
use crate::codec::wire::decode_quote_type;
use crate::codec::wire::decode_string_items;
use crate::codec::wire::decode_string_pair;
use crate::codec::wire::decode_string_pair_items;
use crate::codec::wire::decode_string_pairs;
use crate::codec::wire::decode_strings;
use crate::codec::wire::decode_target;
use crate::codec::wire::lemma_collect_error;
use crate::codec::wire::lemma_collect_step;
use crate::definition::extra::BlockType;
use crate::definition::extra::InlineType;
use crate::definition::view::block_lists_view;
use crate::definition::view::blocks_view;
use crate::definition::view::cells_view;
use crate::definition::view::citations_view;
use crate::definition::view::definitions_view;
use crate::definition::view::inline_lists_view;
use crate::definition::view::inlines_view;
use crate::definition::view::pairs_view;
use crate::definition::view::rows_view;
use crate::definition::view::strings_view;
use crate::definition::view::table_bodies_view;
use crate::definition::view::BlockView;
use crate::definition::view::CellView;
use crate::definition::view::CitationView;
use crate::definition::view::InlineView;
use crate::definition::view::RowView;
use crate::definition::view::TableBodyView;
use crate::definition::Alignment;
use crate::definition::Attr;
use crate::definition::Block;
use crate::definition::Caption;
use crate::definition::Cell;
use crate::definition::Citation;
use crate::definition::CitationMode;
use crate::definition::ColSpec;
use crate::definition::ColWidth;
use crate::definition::Format;
use crate::definition::Inline;
use crate::definition::ListAttributes;
use crate::definition::ListNumberDelim;
use crate::definition::ListNumberStyle;
use crate::definition::MathType;
use crate::definition::QuoteType;
use crate::definition::Row;
use crate::definition::Table;
use crate::definition::TableBody;
use crate::definition::TableFoot;
use crate::definition::TableHead;
use crate::definition::Target;
use crate::text::str_eq;
use crate::codec::wire::array_items;
use crate::codec::wire::decode_bool;
use crate::codec::wire::decode_i32;
use crate::codec::wire::decode_number;
use crate::codec::wire::decode_string;
use crate::codec::wire::fails;
use crate::codec::wire::field;
use crate::codec::wire::gives;
use crate::codec::wire::no_payload;
use crate::codec::wire::object_members;
use crate::codec::wire::one_payload;
use crate::codec::wire::optional_field;
use crate::codec::wire::payload;
use crate::codec::wire::tuple_items;
use crate::codec::wire::untag;
use crate::codec::wire::Tagged;
use crate::json::find_member;
use crate::json::json_members_view;
use crate::json::json_seq_view;
use crate::json::Json;
use crate::json::JsonKind;
use crate::json::JsonView;
use crate::json::Lookup;
use crate::json::Number;
use vstd::prelude::*;

verus! {

/// The model of contents that may be there.
pub open spec fn contents_view(contents: Option<&Json>) -> Option<JsonView> {
    match contents {
        Some(c) => Some(c@),
        None => None,
    }
}

/// The members of an object.
pub fn expect_object<'a>(j: &'a Json) -> (r: Result<&'a Vec<(String, Json)>, DecodeError>)
    ensures
        match r {
            Ok(m) => gives(object_members(j@), json_members_view(m@)) && decreases_to!(j => m),
            Err(e) => fails(object_members(j@), e@),
        },
{
    match j {
        Json::Object(members) => Ok(members),
        _ => Err(DecodeError::WrongType { expected: JsonKind::Object, found: j.kind() }),
    }
}

/// The items of an array.
pub fn expect_array<'a>(j: &'a Json) -> (r: Result<&'a Vec<Json>, DecodeError>)
    ensures
        match r {
            Ok(items) => gives(array_items(j@), json_seq_view(items@)) && decreases_to!(j => items),
            Err(e) => fails(array_items(j@), e@),
        },
{
    match j {
        Json::Array(items) => Ok(items),
        _ => Err(DecodeError::WrongType { expected: JsonKind::Array, found: j.kind() }),
    }
}

/// The fields of an aggregate of `n` fields.
pub fn expect_tuple<'a>(j: &'a Json, n: usize) -> (r: Result<&'a Vec<Json>, DecodeError>)
    ensures
        match r {
            Ok(items) => gives(tuple_items(j@, n as nat), json_seq_view(items@))
                && items@.len() == n && decreases_to!(j => items),
            Err(e) => fails(tuple_items(j@, n as nat), e@),
        },
{
    match j {
        Json::Array(items) => {
            if items.len() == n {
                Ok(items)
            } else {
                Err(DecodeError::WrongLength { expected_len: n, found_len: items.len() })
            }
        },
        _ => Err(DecodeError::WrongType { expected: JsonKind::Array, found: j.kind() }),
    }
}

/// The value of a member that must be there once.
pub fn get_field<'a>(members: &'a Vec<(String, Json)>, key: Key) -> (r: Result<
    &'a Json,
    DecodeError,
>)
    ensures
        match r {
            Ok(v) => gives(field(json_members_view(members@), key), v@)
                && decreases_to!(members => v),
            Err(e) => fails(field(json_members_view(members@), key), e@),
        },
{
    match find_member(members, key.name()) {
        Lookup::Absent => Err(DecodeError::MissingKey { key }),
        Lookup::Present(v) => Ok(v),
        Lookup::Repeated => Err(DecodeError::DuplicateKey { key }),
    }
}

/// The value of a member that may be there once.
pub fn get_optional_field<'a>(members: &'a Vec<(String, Json)>, key: Key) -> (r: Result<
    Option<&'a Json>,
    DecodeError,
>)
    ensures
        match r {
            Ok(v) => gives(optional_field(json_members_view(members@), key), contents_view(v))
                && (v matches Some(c) ==> decreases_to!(members => c)),
            Err(e) => fails(optional_field(json_members_view(members@), key), e@),
        },
{
    match find_member(members, key.name()) {
        Lookup::Absent => Ok(None),
        Lookup::Present(v) => Ok(Some(v)),
        Lookup::Repeated => Err(DecodeError::DuplicateKey { key }),
    }
}

/// The tag of a tagged value, and its contents.
pub fn untag_json<'a>(j: &'a Json) -> (r: Result<(&'a String, Option<&'a Json>), DecodeError>)
    ensures
        match r {
            Ok(t) => gives(untag(j@), Tagged { tag: t.0@, contents: contents_view(t.1) })
                && (t.1 matches Some(c) ==> decreases_to!(j => c)),
            Err(e) => fails(untag(j@), e@),
        },
{
    let members = expect_object(j)?;
    let tag = get_field(members, Key::Tag)?;
    match tag {
        Json::String(name) => {
            let contents = get_optional_field(members, Key::Contents)?;
            Ok((name, contents))
        },
        _ => Err(DecodeError::WrongType { expected: JsonKind::String, found: tag.kind() }),
    }
}

/// The contents of a variant without fields: none, or `null`.
pub fn expect_no_payload(contents: Option<&Json>) -> (r: Result<(), DecodeError>)
    ensures
        match r {
            Ok(u) => gives(no_payload(contents_view(contents)), ()),
            Err(e) => fails(no_payload(contents_view(contents)), e@),
        },
{
    match contents {
        None => Ok(()),
        Some(Json::Null) => Ok(()),
        Some(_) => Err(DecodeError::WrongArity { expected_fields: 0, found_fields: 1 }),
    }
}

/// The contents of a variant with one field.
pub fn expect_one_payload<'a>(contents: Option<&'a Json>) -> (r: Result<&'a Json, DecodeError>)
    ensures
        match r {
            Ok(c) => gives(one_payload(contents_view(contents)), c@) && contents == Some(c),
            Err(e) => fails(one_payload(contents_view(contents)), e@),
        },
{
    match contents {
        Some(c) => Ok(c),
        None => Err(DecodeError::WrongArity { expected_fields: 1, found_fields: 0 }),
    }
}

/// The contents of a variant with `n` fields, `n` being two or more.
pub fn expect_payload<'a>(contents: Option<&'a Json>, n: usize) -> (r: Result<
    &'a Vec<Json>,
    DecodeError,
>)
    ensures
        match r {
            Ok(items) => gives(payload(contents_view(contents), n as nat), json_seq_view(items@))
                && items@.len() == n && (contents matches Some(c) && decreases_to!(c => items)),
            Err(e) => fails(payload(contents_view(contents), n as nat), e@),
        },
{
    match contents {
        None => Err(DecodeError::WrongArity { expected_fields: n, found_fields: 0 }),
        Some(Json::Array(items)) => {
            if items.len() == n {
                Ok(items)
            } else {
                Err(DecodeError::WrongArity { expected_fields: n, found_fields: items.len() })
            }
        },
        Some(other) => Err(
            DecodeError::WrongType { expected: JsonKind::Array, found: other.kind() },
        ),
    }
}

/// A JSON string as a string.
pub fn deserialize_string(j: &Json) -> (r: Result<String, DecodeError>)
    ensures
        match r {
            Ok(s) => gives(decode_string(j@), s@),
            Err(e) => fails(decode_string(j@), e@),
        },
{
    match j {
        Json::String(s) => Ok(s.clone()),
        _ => Err(DecodeError::WrongType { expected: JsonKind::String, found: j.kind() }),
    }
}

/// A JSON boolean as a boolean.
pub fn deserialize_bool(j: &Json) -> (r: Result<bool, DecodeError>)
    ensures
        match r {
            Ok(b) => gives(decode_bool(j@), b),
            Err(e) => fails(decode_bool(j@), e@),
        },
{
    match j {
        Json::Bool(b) => Ok(*b),
        _ => Err(DecodeError::WrongType { expected: JsonKind::Bool, found: j.kind() }),
    }
}

/// A JSON integer that fits in 32 bits.
pub fn deserialize_i32(j: &Json) -> (r: Result<i32, DecodeError>)
    ensures
        match r {
            Ok(n) => gives(decode_i32(j@), n),
            Err(e) => fails(decode_i32(j@), e@),
        },
{
    match j {
        Json::Number(Number::Int(n)) => {
            if -2147483648 <= *n && *n <= 2147483647 {
                Ok(*n as i32)
            } else {
                Err(DecodeError::OutOfRange { value: *n })
            }
        },
        _ => Err(DecodeError::WrongType { expected: JsonKind::Integer, found: j.kind() }),
    }
}

/// Any JSON number.
pub fn deserialize_number(j: &Json) -> (r: Result<Number, DecodeError>)
    ensures
        match r {
            Ok(n) => gives(decode_number(j@), n),
            Err(e) => fails(decode_number(j@), e@),
        },
{
    match j {
        Json::Number(n) => Ok(*n),
        _ => Err(DecodeError::WrongType { expected: JsonKind::Double, found: j.kind() }),
    }
}

/// An array of strings as a list of strings.
pub fn deserialize_strings(j: &Json) -> (r: Result<Vec<String>, DecodeError>)
    ensures
        match r {
            Ok(v) => gives(decode_strings(j@), strings_view(v@)),
            Err(e) => fails(decode_strings(j@), e@),
        },
{
    let items = expect_array(j)?;
    let ghost results = decode_string_items(json_seq_view(items@));
    let mut out: Vec<String> = Vec::new();
    let mut i: usize = 0;
    proof {
        assert(strings_view(out@) =~= Seq::<Seq<char>>::empty());
    }
    while i < items.len()
        invariant
            i <= items.len(),
            decreases_to!(j => items),
            results == decode_string_items(json_seq_view(items@)),
            gives(array_items(j@), json_seq_view(items@)),
            gives(collect(results.subrange(0, i as int)), strings_view(out@)),
        decreases items.len() - i,
    {
        proof {
            lemma_collect_step(results, i as int);
            lemma_collect_error(results, i + 1);
        }
        let item = deserialize_string(&items[i])?;
        let ghost before = out@;
        let ghost added = item@;
        out.push(item);
        proof {
            assert(strings_view(out@) =~= strings_view(before).push(added));
        }
        i += 1;
    }
    proof {
        assert(results.subrange(0, i as int) =~= results);
    }
    Ok(out)
}

/// An array of two strings as a pair of strings.
pub fn deserialize_string_pair(j: &Json) -> (r: Result<(String, String), DecodeError>)
    ensures
        match r {
            Ok(v) => gives(decode_string_pair(j@), (v.0@, v.1@)),
            Err(e) => fails(decode_string_pair(j@), e@),
        },
{
    let items = expect_tuple(j, 2)?;
    let first = deserialize_string(&items[0])?;
    let second = deserialize_string(&items[1])?;
    Ok((first, second))
}

/// An array of arrays of two strings as a list of pairs.
pub fn deserialize_string_pairs(j: &Json) -> (r: Result<Vec<(String, String)>, DecodeError>)
    ensures
        match r {
            Ok(v) => gives(decode_string_pairs(j@), pairs_view(v@)),
            Err(e) => fails(decode_string_pairs(j@), e@),
        },
{
    let items = expect_array(j)?;
    let ghost results = decode_string_pair_items(json_seq_view(items@));
    let mut out: Vec<(String, String)> = Vec::new();
    let mut i: usize = 0;
    proof {
        assert(pairs_view(out@) =~= Seq::<(Seq<char>, Seq<char>)>::empty());
    }
    while i < items.len()
        invariant
            i <= items.len(),
            decreases_to!(j => items),
            results == decode_string_pair_items(json_seq_view(items@)),
            gives(array_items(j@), json_seq_view(items@)),
            gives(collect(results.subrange(0, i as int)), pairs_view(out@)),
        decreases items.len() - i,
    {
        proof {
            lemma_collect_step(results, i as int);
            lemma_collect_error(results, i + 1);
        }
        let item = deserialize_string_pair(&items[i])?;
        let ghost before = out@;
        let ghost added = (item.0@, item.1@);
        out.push(item);
        proof {
            assert(pairs_view(out@) =~= pairs_view(before).push(added));
        }
        i += 1;
    }
    proof {
        assert(results.subrange(0, i as int) =~= results);
    }
    Ok(out)
}

impl Alignment {
    /// The variant that the tag names. The tag stands alone, or with
    /// `null` for contents.
    pub fn deserialize(j: &Json) -> (r: Result<Alignment, DecodeError>)
        ensures
            match r {
                Ok(v) => gives(decode_alignment(j@), v),
                Err(e) => fails(decode_alignment(j@), e@),
            },
    {
        let (tag, contents) = untag_json(j)?;
        match Alignment::from_name(tag.as_str()) {
            None => Err(DecodeError::UnknownTag { family: Family::Alignment, tag: tag.clone() }),
            Some(v) => {
                expect_no_payload(contents)?;
                Ok(v)
            },
        }
    }
}

impl ListNumberStyle {
    /// The variant that the tag names. The tag stands alone, or with
    /// `null` for contents.
    pub fn deserialize(j: &Json) -> (r: Result<ListNumberStyle, DecodeError>)
        ensures
            match r {
                Ok(v) => gives(decode_list_number_style(j@), v),
                Err(e) => fails(decode_list_number_style(j@), e@),
            },
    {
        let (tag, contents) = untag_json(j)?;
        match ListNumberStyle::from_name(tag.as_str()) {
            None => Err(DecodeError::UnknownTag { family: Family::ListNumberStyle, tag: tag.clone() }),
            Some(v) => {
                expect_no_payload(contents)?;
                Ok(v)
            },
        }
    }
}

impl ListNumberDelim {
    /// The variant that the tag names. The tag stands alone, or with
    /// `null` for contents.
    pub fn deserialize(j: &Json) -> (r: Result<ListNumberDelim, DecodeError>)
        ensures
            match r {
                Ok(v) => gives(decode_list_number_delim(j@), v),
                Err(e) => fails(decode_list_number_delim(j@), e@),
            },
    {
        let (tag, contents) = untag_json(j)?;
        match ListNumberDelim::from_name(tag.as_str()) {
            None => Err(DecodeError::UnknownTag { family: Family::ListNumberDelim, tag: tag.clone() }),
            Some(v) => {
                expect_no_payload(contents)?;
                Ok(v)
            },
        }
    }
}

impl QuoteType {
    /// The variant that the tag names. The tag stands alone, or with
    /// `null` for contents.
    pub fn deserialize(j: &Json) -> (r: Result<QuoteType, DecodeError>)
        ensures
            match r {
                Ok(v) => gives(decode_quote_type(j@), v),
                Err(e) => fails(decode_quote_type(j@), e@),
            },
    {
        let (tag, contents) = untag_json(j)?;
        match QuoteType::from_name(tag.as_str()) {
            None => Err(DecodeError::UnknownTag { family: Family::QuoteType, tag: tag.clone() }),
            Some(v) => {
                expect_no_payload(contents)?;
                Ok(v)
            },
        }
    }
}

impl MathType {
    /// The variant that the tag names. The tag stands alone, or with
    /// `null` for contents.
    pub fn deserialize(j: &Json) -> (r: Result<MathType, DecodeError>)
        ensures
            match r {
                Ok(v) => gives(decode_math_type(j@), v),
                Err(e) => fails(decode_math_type(j@), e@),
            },
    {
        let (tag, contents) = untag_json(j)?;
        match MathType::from_name(tag.as_str()) {
            None => Err(DecodeError::UnknownTag { family: Family::MathType, tag: tag.clone() }),
            Some(v) => {
                expect_no_payload(contents)?;
                Ok(v)
            },
        }
    }
}

impl CitationMode {
    /// The variant that the tag names. The tag stands alone, or with
    /// `null` for contents.
    pub fn deserialize(j: &Json) -> (r: Result<CitationMode, DecodeError>)
        ensures
            match r {
                Ok(v) => gives(decode_citation_mode(j@), v),
                Err(e) => fails(decode_citation_mode(j@), e@),
            },
    {
        let (tag, contents) = untag_json(j)?;
        match CitationMode::from_name(tag.as_str()) {
            None => Err(DecodeError::UnknownTag { family: Family::CitationMode, tag: tag.clone() }),
            Some(v) => {
                expect_no_payload(contents)?;
                Ok(v)
            },
        }
    }
}

impl ColWidth {
    /// A width from under the tag `ColWidth`, or the default width from
    /// the tag `ColWidthDefault`.
    pub fn deserialize(j: &Json) -> (r: Result<ColWidth, DecodeError>)
        ensures
            match r {
                Ok(v) => gives(decode_col_width(j@), v),
                Err(e) => fails(decode_col_width(j@), e@),
            },
    {
        let (tag, contents) = untag_json(j)?;
        if str_eq(tag.as_str(), "ColWidth") {
            let c = expect_one_payload(contents)?;
            let n = deserialize_number(c)?;
            Ok(ColWidth::ColWidth(n))
        } else if str_eq(tag.as_str(), "ColWidthDefault") {
            expect_no_payload(contents)?;
            Ok(ColWidth::ColWidthDefault)
        } else {
            Err(DecodeError::UnknownTag { family: Family::ColWidth, tag: tag.clone() })
        }
    }
}

impl ColSpec {
    /// The alignment and the width from an array of the two.
    pub fn deserialize(j: &Json) -> (r: Result<ColSpec, DecodeError>)
        ensures
            match r {
                Ok(v) => gives(decode_col_spec(j@), v),
                Err(e) => fails(decode_col_spec(j@), e@),
            },
    {
        let items = expect_tuple(j, 2)?;
        let align = Alignment::deserialize(&items[0])?;
        let width = ColWidth::deserialize(&items[1])?;
        Ok(ColSpec(align, width))
    }
}

/// An array of column specifications as a list.
pub fn deserialize_col_specs(j: &Json) -> (r: Result<Vec<ColSpec>, DecodeError>)
    ensures
        match r {
            Ok(v) => gives(decode_col_specs(j@), v@),
            Err(e) => fails(decode_col_specs(j@), e@),
        },
{
    let items = expect_array(j)?;
    let ghost results = decode_col_spec_items(json_seq_view(items@));
    let mut out: Vec<ColSpec> = Vec::new();
    let mut i: usize = 0;
    proof {
        assert(out@ =~= Seq::<ColSpec>::empty());
    }
    while i < items.len()
        invariant
            i <= items.len(),
            decreases_to!(j => items),
            results == decode_col_spec_items(json_seq_view(items@)),
            gives(array_items(j@), json_seq_view(items@)),
            gives(collect(results.subrange(0, i as int)), out@),
        decreases items.len() - i,
    {
        proof {
            lemma_collect_step(results, i as int);
            lemma_collect_error(results, i + 1);
        }
        let item = ColSpec::deserialize(&items[i])?;
        let ghost before = out@;
        let ghost added = item;
        out.push(item);
        proof {
            assert(out@ =~= before.push(added));
        }
        i += 1;
    }
    proof {
        assert(results.subrange(0, i as int) =~= results);
    }
    Ok(out)
}

impl ListAttributes {
    /// The start number, the style and the delimiter from an array of the
    /// three.
    pub fn deserialize(j: &Json) -> (r: Result<ListAttributes, DecodeError>)
        ensures
            match r {
                Ok(v) => gives(decode_list_attributes(j@), v),
                Err(e) => fails(decode_list_attributes(j@), e@),
            },
    {
        let items = expect_tuple(j, 3)?;
        let start_number = deserialize_i32(&items[0])?;
        let style = ListNumberStyle::deserialize(&items[1])?;
        let delim = ListNumberDelim::deserialize(&items[2])?;
        Ok(ListAttributes { start_number, style, delim })
    }
}

impl Format {
    /// The name of a format from a string.
    pub fn deserialize(j: &Json) -> (r: Result<Format, DecodeError>)
        ensures
            match r {
                Ok(v) => gives(decode_string(j@), v@),
                Err(e) => fails(decode_string(j@), e@),
            },
    {
        let name = deserialize_string(j)?;
        Ok(Format(name))
    }
}

impl Attr {
    /// The identifier, the classes and the attribute pairs from an array of
    /// the three.
    pub fn deserialize(j: &Json) -> (r: Result<Attr, DecodeError>)
        ensures
            match r {
                Ok(v) => gives(decode_attr(j@), v@),
                Err(e) => fails(decode_attr(j@), e@),
            },
    {
        let items = expect_tuple(j, 3)?;
        let identifier = deserialize_string(&items[0])?;
        let classes = deserialize_strings(&items[1])?;
        let attributes = deserialize_string_pairs(&items[2])?;
        Ok(Attr { identifier, classes, attributes })
    }
}

impl Target {
    /// The address and the title from an array of the two.
    pub fn deserialize(j: &Json) -> (r: Result<Target, DecodeError>)
        ensures
            match r {
                Ok(v) => gives(decode_target(j@), v@),
                Err(e) => fails(decode_target(j@), e@),
            },
    {
        let items = expect_tuple(j, 2)?;
        let url = deserialize_string(&items[0])?;
        let title = deserialize_string(&items[1])?;
        Ok(Target { url, title })
    }
}

impl Inline {
    /// The inline that the tag names, with its fields from the contents.
    pub fn deserialize(j: &Json) -> (r: Result<Inline, DecodeError>)
        ensures
            match r {
                Ok(v) => gives(decode_inline(j@), v@),
                Err(e) => fails(decode_inline(j@), e@),
            },
        decreases j,
    {
        let (tag, contents) = untag_json(j)?;
        match InlineType::from_name(tag.as_str()) {
            None => Err(DecodeError::UnknownTag { family: Family::Inline, tag: tag.clone() }),
            Some(InlineType::Str) => {
                let c = expect_one_payload(contents)?;
                let v = deserialize_string(c)?;
                Ok(Inline::Str(v))
            },
            Some(InlineType::Emph) => {
                let c = expect_one_payload(contents)?;
                let v = deserialize_inlines(c)?;
                Ok(Inline::Emph(v))
            },
            Some(InlineType::Underline) => {
                let c = expect_one_payload(contents)?;
                let v = deserialize_inlines(c)?;
                Ok(Inline::Underline(v))
            },
            Some(InlineType::Strong) => {
                let c = expect_one_payload(contents)?;
                let v = deserialize_inlines(c)?;
                Ok(Inline::Strong(v))
            },
            Some(InlineType::Strikeout) => {
                let c = expect_one_payload(contents)?;
                let v = deserialize_inlines(c)?;
                Ok(Inline::Strikeout(v))
            },
            Some(InlineType::Superscript) => {
                let c = expect_one_payload(contents)?;
                let v = deserialize_inlines(c)?;
                Ok(Inline::Superscript(v))
            },
            Some(InlineType::Subscript) => {
                let c = expect_one_payload(contents)?;
                let v = deserialize_inlines(c)?;
                Ok(Inline::Subscript(v))
            },
            Some(InlineType::SmallCaps) => {
                let c = expect_one_payload(contents)?;
                let v = deserialize_inlines(c)?;
                Ok(Inline::SmallCaps(v))
            },
            Some(InlineType::Quoted) => {
                let items = expect_payload(contents, 2)?;
                let a = QuoteType::deserialize(&items[0])?;
                let b = deserialize_inlines(&items[1])?;
                Ok(Inline::Quoted(a, b))
            },
            Some(InlineType::Cite) => {
                let items = expect_payload(contents, 2)?;
                let a = deserialize_citations(&items[0])?;
                let b = deserialize_inlines(&items[1])?;
                Ok(Inline::Cite(a, b))
            },
            Some(InlineType::Code) => {
                let items = expect_payload(contents, 2)?;
                let a = Attr::deserialize(&items[0])?;
                let b = deserialize_string(&items[1])?;
                Ok(Inline::Code(a, b))
            },
            Some(InlineType::Space) => {
                expect_no_payload(contents)?;
                Ok(Inline::Space)
            },
            Some(InlineType::SoftBreak) => {
                expect_no_payload(contents)?;
                Ok(Inline::SoftBreak)
            },
            Some(InlineType::LineBreak) => {
                expect_no_payload(contents)?;
                Ok(Inline::LineBreak)
            },
            Some(InlineType::Math) => {
                let items = expect_payload(contents, 2)?;
                let a = MathType::deserialize(&items[0])?;
                let b = deserialize_string(&items[1])?;
                Ok(Inline::Math(a, b))
            },
            Some(InlineType::RawInline) => {
                let items = expect_payload(contents, 2)?;
                let a = Format::deserialize(&items[0])?;
                let b = deserialize_string(&items[1])?;
                Ok(Inline::RawInline(a, b))
            },
            Some(InlineType::Link) => {
                let items = expect_payload(contents, 3)?;
                let a = Attr::deserialize(&items[0])?;
                let b = deserialize_inlines(&items[1])?;
                let c = Target::deserialize(&items[2])?;
                Ok(Inline::Link(a, b, c))
            },
            Some(InlineType::Image) => {
                let items = expect_payload(contents, 3)?;
                let a = Attr::deserialize(&items[0])?;
                let b = deserialize_inlines(&items[1])?;
                let c = Target::deserialize(&items[2])?;
                Ok(Inline::Image(a, b, c))
            },
            Some(InlineType::Note) => {
                let c = expect_one_payload(contents)?;
                let v = deserialize_blocks(c)?;
                Ok(Inline::Note(v))
            },
            Some(InlineType::Span) => {
                let items = expect_payload(contents, 2)?;
                let a = Attr::deserialize(&items[0])?;
                let b = deserialize_inlines(&items[1])?;
                Ok(Inline::Span(a, b))
            },
        }
    }
}

/// An array of inlines as a list.
pub fn deserialize_inlines(j: &Json) -> (r: Result<Vec<Inline>, DecodeError>)
    ensures
        match r {
            Ok(v) => gives(decode_inlines(j@), inlines_view(v@)),
            Err(e) => fails(decode_inlines(j@), e@),
        },
    decreases j,
{
    let items = expect_array(j)?;
    let ghost results = decode_inline_items(json_seq_view(items@));
    let mut out: Vec<Inline> = Vec::new();
    let mut i: usize = 0;
    proof {
        assert(inlines_view(out@) =~= Seq::<InlineView>::empty());
    }
    while i < items.len()
        invariant
            i <= items.len(),
            decreases_to!(j => items),
            results == decode_inline_items(json_seq_view(items@)),
            gives(array_items(j@), json_seq_view(items@)),
            gives(collect(results.subrange(0, i as int)), inlines_view(out@)),
        decreases items.len() - i,
    {
        proof {
            lemma_collect_step(results, i as int);
            lemma_collect_error(results, i + 1);
        }
        let item = Inline::deserialize(&items[i])?;
        let ghost before = out@;
        let ghost added = item@;
        out.push(item);
        proof {
            assert(inlines_view(out@) =~= inlines_view(before).push(added));
        }
        i += 1;
    }
    proof {
        assert(results.subrange(0, i as int) =~= results);
    }
    Ok(out)
}

/// An array of arrays of inlines as a list of lists.
pub fn deserialize_inline_lists(j: &Json) -> (r: Result<Vec<Vec<Inline>>, DecodeError>)
    ensures
        match r {
            Ok(v) => gives(decode_inline_lists(j@), inline_lists_view(v@)),
            Err(e) => fails(decode_inline_lists(j@), e@),
        },
    decreases j,
{
    let items = expect_array(j)?;
    let ghost results = decode_inline_list_items(json_seq_view(items@));
    let mut out: Vec<Vec<Inline>> = Vec::new();
    let mut i: usize = 0;
    proof {
        assert(inline_lists_view(out@) =~= Seq::<Seq<InlineView>>::empty());
    }
    while i < items.len()
        invariant
            i <= items.len(),
            decreases_to!(j => items),
            results == decode_inline_list_items(json_seq_view(items@)),
            gives(array_items(j@), json_seq_view(items@)),
            gives(collect(results.subrange(0, i as int)), inline_lists_view(out@)),
        decreases items.len() - i,
    {
        proof {
            lemma_collect_step(results, i as int);
            lemma_collect_error(results, i + 1);
        }
        let item = deserialize_inlines(&items[i])?;
        let ghost before = out@;
        let ghost added = inlines_view(item@);
        out.push(item);
        proof {
            assert(inline_lists_view(out@) =~= inline_lists_view(before).push(added));
        }
        i += 1;
    }
    proof {
        assert(results.subrange(0, i as int) =~= results);
    }
    Ok(out)
}

impl Citation {
    /// The citation from an object with one member for each field.
    pub fn deserialize(j: &Json) -> (r: Result<Citation, DecodeError>)
        ensures
            match r {
                Ok(v) => gives(decode_citation(j@), v@),
                Err(e) => fails(decode_citation(j@), e@),
            },
        decreases j,
    {
        let members = expect_object(j)?;
        let citation_id = deserialize_string(get_field(members, Key::CitationId)?)?;
        let citation_prefix = deserialize_inlines(get_field(members, Key::CitationPrefix)?)?;
        let citation_suffix = deserialize_inlines(get_field(members, Key::CitationSuffix)?)?;
        let citation_mode = CitationMode::deserialize(get_field(members, Key::CitationMode)?)?;
        let citation_note_num = deserialize_i32(get_field(members, Key::CitationNoteNum)?)?;
        let citation_hash = deserialize_i32(get_field(members, Key::CitationHash)?)?;
        Ok(
            Citation {
                citation_id,
                citation_prefix,
                citation_suffix,
                citation_mode,
                citation_note_num,
                citation_hash,
            },
        )
    }
}

/// An array of citations as a list.
pub fn deserialize_citations(j: &Json) -> (r: Result<Vec<Citation>, DecodeError>)
    ensures
        match r {
            Ok(v) => gives(decode_citations(j@), citations_view(v@)),
            Err(e) => fails(decode_citations(j@), e@),
        },
    decreases j,
{
    let items = expect_array(j)?;
    let ghost results = decode_citation_items(json_seq_view(items@));
    let mut out: Vec<Citation> = Vec::new();
    let mut i: usize = 0;
    proof {
        assert(citations_view(out@) =~= Seq::<CitationView>::empty());
    }
    while i < items.len()
        invariant
            i <= items.len(),
            decreases_to!(j => items),
            results == decode_citation_items(json_seq_view(items@)),
            gives(array_items(j@), json_seq_view(items@)),
            gives(collect(results.subrange(0, i as int)), citations_view(out@)),
        decreases items.len() - i,
    {
        proof {
            lemma_collect_step(results, i as int);
            lemma_collect_error(results, i + 1);
        }
        let item = Citation::deserialize(&items[i])?;
        let ghost before = out@;
        let ghost added = item@;
        out.push(item);
        proof {
            assert(citations_view(out@) =~= citations_view(before).push(added));
        }
        i += 1;
    }
    proof {
        assert(results.subrange(0, i as int) =~= results);
    }
    Ok(out)
}

impl Block {
    /// The block that the tag names, with its fields from the contents.
    pub fn deserialize(j: &Json) -> (r: Result<Block, DecodeError>)
        ensures
            match r {
                Ok(v) => gives(decode_block(j@), v@),
                Err(e) => fails(decode_block(j@), e@),
            },
        decreases j,
    {
        let (tag, contents) = untag_json(j)?;
        match BlockType::from_name(tag.as_str()) {
            None => Err(DecodeError::UnknownTag { family: Family::Block, tag: tag.clone() }),
            Some(BlockType::Plain) => {
                let c = expect_one_payload(contents)?;
                let v = deserialize_inlines(c)?;
                Ok(Block::Plain(v))
            },
            Some(BlockType::Para) => {
                let c = expect_one_payload(contents)?;
                let v = deserialize_inlines(c)?;
                Ok(Block::Para(v))
            },
            Some(BlockType::LineBlock) => {
                let c = expect_one_payload(contents)?;
                let v = deserialize_inline_lists(c)?;
                Ok(Block::LineBlock(v))
            },
            Some(BlockType::CodeBlock) => {
                let items = expect_payload(contents, 2)?;
                let a = Attr::deserialize(&items[0])?;
                let b = deserialize_string(&items[1])?;
                Ok(Block::CodeBlock(a, b))
            },
            Some(BlockType::RawBlock) => {
                let items = expect_payload(contents, 2)?;
                let a = Format::deserialize(&items[0])?;
                let b = deserialize_string(&items[1])?;
                Ok(Block::RawBlock(a, b))
            },
            Some(BlockType::BlockQuote) => {
                let c = expect_one_payload(contents)?;
                let v = deserialize_blocks(c)?;
                Ok(Block::BlockQuote(v))
            },
            Some(BlockType::OrderedList) => {
                let items = expect_payload(contents, 2)?;
                let a = ListAttributes::deserialize(&items[0])?;
                let b = deserialize_block_lists(&items[1])?;
                Ok(Block::OrderedList(a, b))
            },
            Some(BlockType::BulletList) => {
                let c = expect_one_payload(contents)?;
                let v = deserialize_block_lists(c)?;
                Ok(Block::BulletList(v))
            },
            Some(BlockType::DefinitionList) => {
                let c = expect_one_payload(contents)?;
                let v = deserialize_definitions(c)?;
                Ok(Block::DefinitionList(v))
            },
            Some(BlockType::Header) => {
                let items = expect_payload(contents, 3)?;
                let a = deserialize_i32(&items[0])?;
                let b = Attr::deserialize(&items[1])?;
                let c = deserialize_inlines(&items[2])?;
                Ok(Block::Header(a, b, c))
            },
            Some(BlockType::HorizontalRule) => {
                expect_no_payload(contents)?;
                Ok(Block::HorizontalRule)
            },
            Some(BlockType::Table) => {
                let c = expect_one_payload(contents)?;
                let v = Table::deserialize(c)?;
                Ok(Block::Table(v))
            },
            Some(BlockType::Figure) => {
                let items = expect_payload(contents, 3)?;
                let a = Attr::deserialize(&items[0])?;
                let b = Caption::deserialize(&items[1])?;
                let c = deserialize_blocks(&items[2])?;
                Ok(Block::Figure(a, b, c))
            },
            Some(BlockType::Div) => {
                let items = expect_payload(contents, 2)?;
                let a = Attr::deserialize(&items[0])?;
                let b = deserialize_blocks(&items[1])?;
                Ok(Block::Div(a, b))
            },
            Some(BlockType::Null) => {
                expect_no_payload(contents)?;
                Ok(Block::Null)
            },
        }
    }
}

/// An array of blocks as a list.
pub fn deserialize_blocks(j: &Json) -> (r: Result<Vec<Block>, DecodeError>)
    ensures
        match r {
            Ok(v) => gives(decode_blocks(j@), blocks_view(v@)),
            Err(e) => fails(decode_blocks(j@), e@),
        },
    decreases j,
{
    let items = expect_array(j)?;
    let ghost results = decode_block_items(json_seq_view(items@));
    let mut out: Vec<Block> = Vec::new();
    let mut i: usize = 0;
    proof {
        assert(blocks_view(out@) =~= Seq::<BlockView>::empty());
    }
    while i < items.len()
        invariant
            i <= items.len(),
            decreases_to!(j => items),
            results == decode_block_items(json_seq_view(items@)),
            gives(array_items(j@), json_seq_view(items@)),
            gives(collect(results.subrange(0, i as int)), blocks_view(out@)),
        decreases items.len() - i,
    {
        proof {
            lemma_collect_step(results, i as int);
            lemma_collect_error(results, i + 1);
        }
        let item = Block::deserialize(&items[i])?;
        let ghost before = out@;
        let ghost added = item@;
        out.push(item);
        proof {
            assert(blocks_view(out@) =~= blocks_view(before).push(added));
        }
        i += 1;
    }
    proof {
        assert(results.subrange(0, i as int) =~= results);
    }
    Ok(out)
}

/// An array of arrays of blocks as a list of lists.
pub fn deserialize_block_lists(j: &Json) -> (r: Result<Vec<Vec<Block>>, DecodeError>)
    ensures
        match r {
            Ok(v) => gives(decode_block_lists(j@), block_lists_view(v@)),
            Err(e) => fails(decode_block_lists(j@), e@),
        },
    decreases j,
{
    let items = expect_array(j)?;
    let ghost results = decode_block_list_items(json_seq_view(items@));
    let mut out: Vec<Vec<Block>> = Vec::new();
    let mut i: usize = 0;
    proof {
        assert(block_lists_view(out@) =~= Seq::<Seq<BlockView>>::empty());
    }
    while i < items.len()
        invariant
            i <= items.len(),
            decreases_to!(j => items),
            results == decode_block_list_items(json_seq_view(items@)),
            gives(array_items(j@), json_seq_view(items@)),
            gives(collect(results.subrange(0, i as int)), block_lists_view(out@)),
        decreases items.len() - i,
    {
        proof {
            lemma_collect_step(results, i as int);
            lemma_collect_error(results, i + 1);
        }
        let item = deserialize_blocks(&items[i])?;
        let ghost before = out@;
        let ghost added = blocks_view(item@);
        out.push(item);
        proof {
            assert(block_lists_view(out@) =~= block_lists_view(before).push(added));
        }
        i += 1;
    }
    proof {
        assert(results.subrange(0, i as int) =~= results);
    }
    Ok(out)
}

/// A term with its definitions from an array of the two.
pub fn deserialize_definition(j: &Json) -> (r: Result<(Vec<Inline>, Vec<Vec<Block>>), DecodeError>)
    ensures
        match r {
            Ok(v) => gives(decode_definition(j@), (inlines_view(v.0@), block_lists_view(v.1@))),
            Err(e) => fails(decode_definition(j@), e@),
        },
    decreases j,
{
    let items = expect_tuple(j, 2)?;
    let term = deserialize_inlines(&items[0])?;
    let definitions = deserialize_block_lists(&items[1])?;
    Ok((term, definitions))
}

/// An array of terms with their definitions as a list.
pub fn deserialize_definitions(j: &Json) -> (r: Result<Vec<(Vec<Inline>, Vec<Vec<Block>>)>, DecodeError>)
    ensures
        match r {
            Ok(v) => gives(decode_definitions(j@), definitions_view(v@)),
            Err(e) => fails(decode_definitions(j@), e@),
        },
    decreases j,
{
    let items = expect_array(j)?;
    let ghost results = decode_definition_items(json_seq_view(items@));
    let mut out: Vec<(Vec<Inline>, Vec<Vec<Block>>)> = Vec::new();
    let mut i: usize = 0;
    proof {
        assert(definitions_view(out@) =~= Seq::<(Seq<InlineView>, Seq<Seq<BlockView>>)>::empty());
    }
    while i < items.len()
        invariant
            i <= items.len(),
            decreases_to!(j => items),
            results == decode_definition_items(json_seq_view(items@)),
            gives(array_items(j@), json_seq_view(items@)),
            gives(collect(results.subrange(0, i as int)), definitions_view(out@)),
        decreases items.len() - i,
    {
        proof {
            lemma_collect_step(results, i as int);
            lemma_collect_error(results, i + 1);
        }
        let item = deserialize_definition(&items[i])?;
        let ghost before = out@;
        let ghost added = (inlines_view(item.0@), block_lists_view(item.1@));
        out.push(item);
        proof {
            assert(definitions_view(out@) =~= definitions_view(before).push(added));
        }
        i += 1;
    }
    proof {
        assert(results.subrange(0, i as int) =~= results);
    }
    Ok(out)
}

impl Caption {
    /// The short caption, none where `null` stands for it, and the long
    /// caption, from an array of the two.
    pub fn deserialize(j: &Json) -> (r: Result<Caption, DecodeError>)
        ensures
            match r {
                Ok(v) => gives(decode_caption(j@), v@),
                Err(e) => fails(decode_caption(j@), e@),
            },
        decreases j,
    {
        let items = expect_tuple(j, 2)?;
        let short = match &items[0] {
            Json::Null => None,
            other => Some(deserialize_inlines(other)?),
        };
        let long = deserialize_blocks(&items[1])?;
        Ok(Caption { short, long })
    }
}

impl Cell {
    /// The cell from an array of its five fields.
    pub fn deserialize(j: &Json) -> (r: Result<Cell, DecodeError>)
        ensures
            match r {
                Ok(v) => gives(decode_cell(j@), v@),
                Err(e) => fails(decode_cell(j@), e@),
            },
        decreases j,
    {
        let items = expect_tuple(j, 5)?;
        let attr = Attr::deserialize(&items[0])?;
        let align = Alignment::deserialize(&items[1])?;
        let row_span = deserialize_i32(&items[2])?;
        let col_span = deserialize_i32(&items[3])?;
        let content = deserialize_blocks(&items[4])?;
        Ok(Cell { attr, align, row_span, col_span, content })
    }
}

/// An array of cells as a list.
pub fn deserialize_cells(j: &Json) -> (r: Result<Vec<Cell>, DecodeError>)
    ensures
        match r {
            Ok(v) => gives(decode_cells(j@), cells_view(v@)),
            Err(e) => fails(decode_cells(j@), e@),
        },
    decreases j,
{
    let items = expect_array(j)?;
    let ghost results = decode_cell_items(json_seq_view(items@));
    let mut out: Vec<Cell> = Vec::new();
    let mut i: usize = 0;
    proof {
        assert(cells_view(out@) =~= Seq::<CellView>::empty());
    }
    while i < items.len()
        invariant
            i <= items.len(),
            decreases_to!(j => items),
            results == decode_cell_items(json_seq_view(items@)),
            gives(array_items(j@), json_seq_view(items@)),
            gives(collect(results.subrange(0, i as int)), cells_view(out@)),
        decreases items.len() - i,
    {
        proof {
            lemma_collect_step(results, i as int);
            lemma_collect_error(results, i + 1);
        }
        let item = Cell::deserialize(&items[i])?;
        let ghost before = out@;
        let ghost added = item@;
        out.push(item);
        proof {
            assert(cells_view(out@) =~= cells_view(before).push(added));
        }
        i += 1;
    }
    proof {
        assert(results.subrange(0, i as int) =~= results);
    }
    Ok(out)
}

impl Row {
    /// The row from an array of its attributes and its cells.
    pub fn deserialize(j: &Json) -> (r: Result<Row, DecodeError>)
        ensures
            match r {
                Ok(v) => gives(decode_row(j@), v@),
                Err(e) => fails(decode_row(j@), e@),
            },
        decreases j,
    {
        let items = expect_tuple(j, 2)?;
        let attr = Attr::deserialize(&items[0])?;
        let cells = deserialize_cells(&items[1])?;
        Ok(Row { attr, cells })
    }
}

/// An array of rows as a list.
pub fn deserialize_rows(j: &Json) -> (r: Result<Vec<Row>, DecodeError>)
    ensures
        match r {
            Ok(v) => gives(decode_rows(j@), rows_view(v@)),
            Err(e) => fails(decode_rows(j@), e@),
        },
    decreases j,
{
    let items = expect_array(j)?;
    let ghost results = decode_row_items(json_seq_view(items@));
    let mut out: Vec<Row> = Vec::new();
    let mut i: usize = 0;
    proof {
        assert(rows_view(out@) =~= Seq::<RowView>::empty());
    }
    while i < items.len()
        invariant
            i <= items.len(),
            decreases_to!(j => items),
            results == decode_row_items(json_seq_view(items@)),
            gives(array_items(j@), json_seq_view(items@)),
            gives(collect(results.subrange(0, i as int)), rows_view(out@)),
        decreases items.len() - i,
    {
        proof {
            lemma_collect_step(results, i as int);
            lemma_collect_error(results, i + 1);
        }
        let item = Row::deserialize(&items[i])?;
        let ghost before = out@;
        let ghost added = item@;
        out.push(item);
        proof {
            assert(rows_view(out@) =~= rows_view(before).push(added));
        }
        i += 1;
    }
    proof {
        assert(results.subrange(0, i as int) =~= results);
    }
    Ok(out)
}

impl TableHead {
    /// The head from an array of its attributes and its rows.
    pub fn deserialize(j: &Json) -> (r: Result<TableHead, DecodeError>)
        ensures
            match r {
                Ok(v) => gives(decode_table_head(j@), v@),
                Err(e) => fails(decode_table_head(j@), e@),
            },
        decreases j,
    {
        let items = expect_tuple(j, 2)?;
        let attr = Attr::deserialize(&items[0])?;
        let rows = deserialize_rows(&items[1])?;
        Ok(TableHead { attr, rows })
    }
}

impl TableBody {
    /// The body from an array of its four fields.
    pub fn deserialize(j: &Json) -> (r: Result<TableBody, DecodeError>)
        ensures
            match r {
                Ok(v) => gives(decode_table_body(j@), v@),
                Err(e) => fails(decode_table_body(j@), e@),
            },
        decreases j,
    {
        let items = expect_tuple(j, 4)?;
        let attr = Attr::deserialize(&items[0])?;
        let row_head_columns = deserialize_i32(&items[1])?;
        let head = deserialize_rows(&items[2])?;
        let body = deserialize_rows(&items[3])?;
        Ok(TableBody { attr, row_head_columns, head, body })
    }
}

/// An array of table bodies as a list.
pub fn deserialize_table_bodies(j: &Json) -> (r: Result<Vec<TableBody>, DecodeError>)
    ensures
        match r {
            Ok(v) => gives(decode_table_bodies(j@), table_bodies_view(v@)),
            Err(e) => fails(decode_table_bodies(j@), e@),
        },
    decreases j,
{
    let items = expect_array(j)?;
    let ghost results = decode_table_body_items(json_seq_view(items@));
    let mut out: Vec<TableBody> = Vec::new();
    let mut i: usize = 0;
    proof {
        assert(table_bodies_view(out@) =~= Seq::<TableBodyView>::empty());
    }
    while i < items.len()
        invariant
            i <= items.len(),
            decreases_to!(j => items),
            results == decode_table_body_items(json_seq_view(items@)),
            gives(array_items(j@), json_seq_view(items@)),
            gives(collect(results.subrange(0, i as int)), table_bodies_view(out@)),
        decreases items.len() - i,
    {
        proof {
            lemma_collect_step(results, i as int);
            lemma_collect_error(results, i + 1);
        }
        let item = TableBody::deserialize(&items[i])?;
        let ghost before = out@;
        let ghost added = item@;
        out.push(item);
        proof {
            assert(table_bodies_view(out@) =~= table_bodies_view(before).push(added));
        }
        i += 1;
    }
    proof {
        assert(results.subrange(0, i as int) =~= results);
    }
    Ok(out)
}

impl TableFoot {
    /// The foot from an array of its attributes and its rows.
    pub fn deserialize(j: &Json) -> (r: Result<TableFoot, DecodeError>)
        ensures
            match r {
                Ok(v) => gives(decode_table_foot(j@), v@),
                Err(e) => fails(decode_table_foot(j@), e@),
            },
        decreases j,
    {
        let items = expect_tuple(j, 2)?;
        let attr = Attr::deserialize(&items[0])?;
        let rows = deserialize_rows(&items[1])?;
        Ok(TableFoot { attr, rows })
    }
}

impl Table {
    /// The table from an array of its six fields.
    pub fn deserialize(j: &Json) -> (r: Result<Table, DecodeError>)
        ensures
            match r {
                Ok(v) => gives(decode_table(j@), v@),
                Err(e) => fails(decode_table(j@), e@),
            },
        decreases j,
    {
        let items = expect_tuple(j, 6)?;
        let attr = Attr::deserialize(&items[0])?;
        let caption = Caption::deserialize(&items[1])?;
        let colspecs = deserialize_col_specs(&items[2])?;
        let head = TableHead::deserialize(&items[3])?;
        let bodies = deserialize_table_bodies(&items[4])?;
        let foot = TableFoot::deserialize(&items[5])?;
        Ok(Table { attr, caption, colspecs, head, bodies, foot })
    }
}

impl MetaValue {
    /// The metadata value that the tag names, with what it holds from the
    /// contents.
    pub fn deserialize(j: &Json) -> (r: Result<MetaValue, DecodeError>)
        ensures
            match r {
                Ok(v) => gives(decode_meta_value(j@), v@),
                Err(e) => fails(decode_meta_value(j@), e@),
            },
        decreases j,
    {
        let (tag, contents) = untag_json(j)?;
        if str_eq(tag.as_str(), "MetaMap") {
            let c = expect_one_payload(contents)?;
            Ok(MetaValue::MetaMap(Meta::deserialize(c)?))
        } else if str_eq(tag.as_str(), "MetaList") {
            let c = expect_one_payload(contents)?;
            Ok(MetaValue::MetaList(deserialize_meta_values(c)?))
        } else if str_eq(tag.as_str(), "MetaBool") {
            let c = expect_one_payload(contents)?;
            Ok(MetaValue::MetaBool(deserialize_bool(c)?))
        } else if str_eq(tag.as_str(), "MetaString") {
            let c = expect_one_payload(contents)?;
            Ok(MetaValue::MetaString(deserialize_string(c)?))
        } else if str_eq(tag.as_str(), "MetaInlines") {
            let c = expect_one_payload(contents)?;
            Ok(MetaValue::MetaInlines(deserialize_inlines(c)?))
        } else if str_eq(tag.as_str(), "MetaBlocks") {
            let c = expect_one_payload(contents)?;
            Ok(MetaValue::MetaBlocks(deserialize_blocks(c)?))
        } else {
            Err(DecodeError::UnknownTag { family: Family::MetaValue, tag: tag.clone() })
        }
    }
}

/// An array of metadata values as a list.
pub fn deserialize_meta_values(j: &Json) -> (r: Result<Vec<MetaValue>, DecodeError>)
    ensures
        match r {
            Ok(v) => gives(decode_meta_values(j@), meta_values_view(v@)),
            Err(e) => fails(decode_meta_values(j@), e@),
        },
    decreases j,
{
    let items = expect_array(j)?;
    let ghost results = decode_meta_value_items(json_seq_view(items@));
    let mut out: Vec<MetaValue> = Vec::new();
    let mut i: usize = 0;
    proof {
        assert(meta_values_view(out@) =~= Seq::<MetaValueView>::empty());
    }
    while i < items.len()
        invariant
            i <= items.len(),
            decreases_to!(j => items),
            results == decode_meta_value_items(json_seq_view(items@)),
            gives(array_items(j@), json_seq_view(items@)),
            gives(collect(results.subrange(0, i as int)), meta_values_view(out@)),
        decreases items.len() - i,
    {
        proof {
            lemma_collect_step(results, i as int);
            lemma_collect_error(results, i + 1);
        }
        let item = MetaValue::deserialize(&items[i])?;
        let ghost before = out@;
        let ghost added = item@;
        out.push(item);
        proof {
            assert(meta_values_view(out@) =~= meta_values_view(before).push(added));
        }
        i += 1;
    }
    proof {
        assert(results.subrange(0, i as int) =~= results);
    }
    Ok(out)
}

impl Meta {
    /// The mapping from an object: each member's value under the member's
    /// key, the later of two values under one key.
    pub fn deserialize(j: &Json) -> (r: Result<Meta, DecodeError>)
        ensures
            match r {
                Ok(v) => gives(decode_meta(j@), v@) && v@.wf(),
                Err(e) => fails(decode_meta(j@), e@),
            },
        decreases j,
    {
        proof {
            law_decoded_meta_is_well_formed(j@);
        }
        let members = expect_object(j)?;
        let ghost all = json_members_view(members@);
        let ghost results = decode_meta_members(all);
        let ghost keys = member_keys(all);
        let ghost mut values: Seq<MetaValueView> = Seq::empty();
        let mut out = Meta::new();
        let mut i: usize = 0;
        proof {
            assert(keys.subrange(0, 0) =~= Seq::empty());
        }
        while i < members.len()
            invariant
                i <= members.len(),
                decreases_to!(j => members),
                all == json_members_view(members@),
                results == decode_meta_members(all),
                keys == member_keys(all),
                gives(object_members(j@), all),
                gives(collect(results.subrange(0, i as int)), values),
                values.len() == i,
                out@.entries == meta_build(keys.subrange(0, i as int), values),
            decreases members.len() - i,
        {
            proof {
                lemma_collect_step(results, i as int);
                lemma_collect_error(results, i + 1);
            }
            let value = MetaValue::deserialize(&members[i].1)?;
            let key = members[i].0.clone();
            proof {
                let next = values.push(value@);
                assert(keys.subrange(0, i + 1).drop_last() =~= keys.subrange(0, i as int));
                assert(next.drop_last() =~= values);
                assert(keys.subrange(0, i + 1).last() == key@);
                values = next;
            }
            out.insert(key, value);
            i += 1;
        }
        proof {
            assert(results.subrange(0, i as int) =~= results);
            assert(keys.subrange(0, i as int) =~= keys);
        }
        Ok(out)
    }
}

/// An array of integers as a version.
pub fn deserialize_version(j: &Json) -> (r: Result<Vec<i32>, DecodeError>)
    ensures
        match r {
            Ok(v) => gives(decode_version(j@), v@),
            Err(e) => fails(decode_version(j@), e@),
        },
{
    let items = expect_array(j)?;
    let ghost results = decode_i32_items(json_seq_view(items@));
    let mut out: Vec<i32> = Vec::new();
    let mut i: usize = 0;
    proof {
        assert(out@ =~= Seq::<i32>::empty());
    }
    while i < items.len()
        invariant
            i <= items.len(),
            results == decode_i32_items(json_seq_view(items@)),
            gives(array_items(j@), json_seq_view(items@)),
            gives(collect(results.subrange(0, i as int)), out@),
        decreases items.len() - i,
    {
        proof {
            lemma_collect_step(results, i as int);
            lemma_collect_error(results, i + 1);
        }
        let item = deserialize_i32(&items[i])?;
        out.push(item);
        i += 1;
    }
    proof {
        assert(results.subrange(0, i as int) =~= results);
    }
    Ok(out)
}

impl Pandoc {
    /// The document from an object with the metadata, the blocks and the
    /// version. The document is returned where all three are well formed
    /// and the version starts with the accepted major and minor numbers;
    /// what the version holds after them is ignored.
    pub fn deserialize(j: &Json) -> (r: Result<Pandoc, DecodeError>)
        ensures
            match r {
                Ok(v) => gives(decode_pandoc(j@), v@) && v@.wf(),
                Err(e) => fails(decode_pandoc(j@), e@),
            },
    {
        proof {
            law_decoded_is_well_formed(j@);
        }
        let members = expect_object(j)?;
        let meta = Meta::deserialize(get_field(members, Key::Meta)?)?;
        let blocks = deserialize_blocks(get_field(members, Key::Blocks)?)?;
        let version = deserialize_version(get_field(members, Key::ApiVersion)?)?;
        if version.len() >= 2 && version[0] == PANDOC_API_MAJOR && version[1] == PANDOC_API_MINOR {
            Ok(Pandoc { blocks, meta })
        } else {
            Err(
                DecodeError::VersionMismatch {
                    expected_major: PANDOC_API_MAJOR,
                    expected_minor: PANDOC_API_MINOR,
                    found_version: version,
                },
            )
        }
    }
}

} // verus!
