//! The wire form of metadata and of whole documents, stated over the models.

use crate::codec::error::DecodeErrorView;
use crate::codec::error::Family;
use crate::codec::error::Key;
use crate::codec::nodes::decode_blocks;
use crate::codec::nodes::decode_inlines;
use crate::codec::nodes::encode_blocks;
use crate::codec::nodes::encode_inlines;
use crate::codec::wire::and3;
use crate::codec::wire::array_items;
use crate::codec::wire::collect;
use crate::codec::wire::decode_bool;
use crate::codec::wire::decode_i32;
use crate::codec::wire::decode_string;
use crate::codec::wire::encode_bool;
use crate::codec::wire::encode_i32;
use crate::codec::wire::encode_string;
use crate::codec::wire::field;
use crate::codec::wire::lemma_untag_decreases;
use crate::codec::wire::map_ok;
use crate::codec::wire::object_members;
use crate::codec::wire::one_payload;
use crate::codec::wire::tagged;
use crate::codec::wire::untag;
use crate::codec::wire::Decoded;
use crate::definition::view::meta_insert;
use crate::definition::view::BlockView;
use crate::definition::view::InlineView;
use crate::definition::view::MetaValueView;
use crate::definition::view::MetaView;
use crate::definition::view::PandocView;
use crate::definition::PANDOC_API_MAJOR;
use crate::definition::PANDOC_API_MINOR;
use crate::json::JsonView;
use vstd::prelude::*;

verus! {

/// The entries that come of putting each value under its key in turn, so
/// that of two values under one key the later one stays.
pub open spec fn meta_build(keys: Seq<Seq<char>>, values: Seq<MetaValueView>) -> Seq<
    (Seq<char>, MetaValueView),
>
    decreases keys.len(),
{
    if keys.len() == 0 || values.len() != keys.len() {
        Seq::empty()
    } else {
        meta_insert(meta_build(keys.drop_last(), values.drop_last()), keys.last(), values.last())
    }
}

/// The wire form of a metadata value.
pub open spec fn encode_meta_value(m: MetaValueView) -> JsonView
    decreases m,
{
    match m {
        MetaValueView::MetaMap(map) => tagged("MetaMap"@, encode_meta(map)),
        MetaValueView::MetaList(l) => tagged("MetaList"@, encode_meta_values(l)),
        MetaValueView::MetaBool(b) => tagged("MetaBool"@, encode_bool(b)),
        MetaValueView::MetaString(s) => tagged("MetaString"@, encode_string(s)),
        MetaValueView::MetaInlines(v) => tagged("MetaInlines"@, encode_inlines(v)),
        MetaValueView::MetaBlocks(v) => tagged("MetaBlocks"@, encode_blocks(v)),
    }
}

/// The wire form of a list of metadata values.
pub open spec fn encode_meta_values(s: Seq<MetaValueView>) -> JsonView
    decreases s,
{
    JsonView::Array(
        Seq::new(
            s.len(),
            |k: int|
                if 0 <= k < s.len() {
                    encode_meta_value(s[k])
                } else {
                    arbitrary()
                },
        ),
    )
}

/// The wire form of a metadata mapping.
pub open spec fn encode_meta(m: MetaView) -> JsonView
    decreases m,
{
    JsonView::Object(
        Seq::new(
            m.entries.len(),
            |k: int|
                if 0 <= k < m.entries.len() {
                    (m.entries[k].0, encode_meta_value(m.entries[k].1))
                } else {
                    arbitrary()
                },
        ),
    )
}

/// What a JSON value stands for, read as a metadata value: the model, or why
/// there is none.
pub open spec fn decode_meta_value(j: JsonView) -> Decoded<MetaValueView>
    decreases j,
{
    match untag(j) {
        Err(e) => Err(e),
        Ok(t) => {
            proof {
                lemma_untag_decreases(j);
            }
            let one = one_payload(t.contents);
            if t.tag == "MetaMap"@ {
                match one {
                    Err(e) => Err(e),
                    Ok(c) => map_ok(decode_meta(c), |m: MetaView| MetaValueView::MetaMap(m)),
                }
            } else if t.tag == "MetaList"@ {
                match one {
                    Err(e) => Err(e),
                    Ok(c) => map_ok(
                        decode_meta_values(c),
                        |l: Seq<MetaValueView>| MetaValueView::MetaList(l),
                    ),
                }
            } else if t.tag == "MetaBool"@ {
                match one {
                    Err(e) => Err(e),
                    Ok(c) => map_ok(decode_bool(c), |b: bool| MetaValueView::MetaBool(b)),
                }
            } else if t.tag == "MetaString"@ {
                match one {
                    Err(e) => Err(e),
                    Ok(c) => map_ok(decode_string(c), |s: Seq<char>| MetaValueView::MetaString(s)),
                }
            } else if t.tag == "MetaInlines"@ {
                match one {
                    Err(e) => Err(e),
                    Ok(c) => map_ok(
                        decode_inlines(c),
                        |v: Seq<InlineView>| MetaValueView::MetaInlines(v),
                    ),
                }
            } else if t.tag == "MetaBlocks"@ {
                match one {
                    Err(e) => Err(e),
                    Ok(c) => map_ok(
                        decode_blocks(c),
                        |v: Seq<BlockView>| MetaValueView::MetaBlocks(v),
                    ),
                }
            } else {
                Err(DecodeErrorView::UnknownTag { family: Family::MetaValue, tag: t.tag })
            }
        },
    }
}

/// What each item stands for, read as a metadata value.
pub open spec fn decode_meta_value_items(items: Seq<JsonView>) -> Seq<Decoded<MetaValueView>>
    decreases items,
{
    Seq::new(
        items.len(),
        |k: int|
            if 0 <= k < items.len() {
                decode_meta_value(items[k])
            } else {
                arbitrary()
            },
    )
}

/// What a JSON value stands for, read as a list of metadata values: the
/// model, or why there is none.
pub open spec fn decode_meta_values(j: JsonView) -> Decoded<Seq<MetaValueView>>
    decreases j,
{
    match array_items(j) {
        Err(e) => Err(e),
        Ok(items) => collect(decode_meta_value_items(items)),
    }
}

/// What each member of a metadata object holds, read as a metadata value.
pub open spec fn decode_meta_members(members: Seq<(Seq<char>, JsonView)>) -> Seq<
    Decoded<MetaValueView>,
>
    decreases members,
{
    Seq::new(
        members.len(),
        |k: int|
            if 0 <= k < members.len() {
                decode_meta_value(members[k].1)
            } else {
                arbitrary()
            },
    )
}

/// The keys of the members, in order.
pub open spec fn member_keys(members: Seq<(Seq<char>, JsonView)>) -> Seq<Seq<char>> {
    Seq::new(members.len(), |k: int| members[k].0)
}

/// What a JSON value stands for, read as a metadata mapping: the model, or
/// why there is none.
pub open spec fn decode_meta(j: JsonView) -> Decoded<MetaView>
    decreases j,
{
    match object_members(j) {
        Err(e) => Err(e),
        Ok(members) => map_ok(
            collect(decode_meta_members(members)),
            |values: Seq<MetaValueView>|
                MetaView { entries: meta_build(member_keys(members), values) },
        ),
    }
}

/// The version that every document is written with.
pub open spec fn api_version() -> Seq<i32> {
    seq![PANDOC_API_MAJOR, PANDOC_API_MINOR]
}

/// Whether a version starts with the major and minor numbers that are
/// accepted. What follows them is not looked at.
pub open spec fn version_accepted(version: Seq<i32>) -> bool {
    version.len() >= 2 && version[0] == PANDOC_API_MAJOR && version[1] == PANDOC_API_MINOR
}

/// The wire form of a version.
pub open spec fn encode_version(version: Seq<i32>) -> JsonView {
    JsonView::Array(Seq::new(version.len(), |k: int| encode_i32(version[k])))
}

/// What each item stands for, read as a 32-bit integer.
pub open spec fn decode_i32_items(items: Seq<JsonView>) -> Seq<Decoded<i32>> {
    Seq::new(items.len(), |k: int| decode_i32(items[k]))
}

/// What a JSON value stands for, read as a version: the model, or why there
/// is none.
pub open spec fn decode_version(j: JsonView) -> Decoded<Seq<i32>> {
    match array_items(j) {
        Err(e) => Err(e),
        Ok(items) => collect(decode_i32_items(items)),
    }
}

/// A document is an object of three members: the version, the metadata and
/// the blocks. The version written is always the accepted one.
pub open spec fn encode_pandoc(p: PandocView) -> JsonView {
    JsonView::Object(
        seq![
            (Key::ApiVersion.spec_name(), encode_version(api_version())),
            (Key::Meta.spec_name(), encode_meta(p.meta)),
            (Key::Blocks.spec_name(), encode_blocks(p.blocks)),
        ],
    )
}

/// The metadata and the blocks are read first and the version after them,
/// so a document that is malformed is reported as such whatever its version.
pub open spec fn decode_pandoc(j: JsonView) -> Decoded<PandocView> {
    match object_members(j) {
        Err(e) => Err(e),
        Ok(members) => {
            let meta = match field(members, Key::Meta) {
                Err(e) => Err(e),
                Ok(v) => decode_meta(v),
            };
            let blocks = match field(members, Key::Blocks) {
                Err(e) => Err(e),
                Ok(v) => decode_blocks(v),
            };
            let version = match field(members, Key::ApiVersion) {
                Err(e) => Err(e),
                Ok(v) => decode_version(v),
            };
            match and3(meta, blocks, version) {
                Err(e) => Err(e),
                Ok(p) => if version_accepted(p.2) {
                    Ok(PandocView { blocks: p.1, meta: p.0 })
                } else {
                    Err(
                        DecodeErrorView::VersionMismatch {
                            expected_major: PANDOC_API_MAJOR,
                            expected_minor: PANDOC_API_MINOR,
                            found_version: p.2,
                        },
                    )
                },
            }
        },
    }
}

} // verus!
