//! The wire form, stated over the models.
//!
//! For each type of the document there are two functions here: one from a
//! model to the JSON value that stands for it, and one from a JSON value to
//! the model it stands for, or to the reason why it stands for none. The
//! executable codec is specified by them.
//!
//! A tagged value is an object with the tag under `t` and, where the variant
//! has fields, its contents under `c`: the field itself where there is one,
//! an array of them where there are more. Aggregates are arrays of their
//! fields in order. A citation is an object with one key for each field.
//! Reading looks members up by key, so members in any order and members
//! under other keys are accepted, and a repeated key is not.

use crate::codec::error::DecodeErrorView;
use crate::codec::error::Family;
use crate::codec::error::Key;
use crate::definition::view::AttrView;
use crate::definition::view::TargetView;
use crate::definition::Alignment;
use crate::definition::CitationMode;
use crate::definition::ColSpec;
use crate::definition::ColWidth;
use crate::definition::ListAttributes;
use crate::definition::ListNumberDelim;
use crate::definition::ListNumberStyle;
use crate::definition::MathType;
use crate::definition::QuoteType;
use crate::json::lemma_lookup_present;
use crate::json::lookup;
use crate::json::JsonKind;
use crate::json::JsonView;
use crate::json::Lookup;
use crate::json::Number;
use vstd::prelude::*;

verus! {

/// The result of reading a value: its model, or why it has none.
pub type Decoded<T> = Result<T, DecodeErrorView>;

/// The reading succeeded with the value `x`.
pub open spec fn gives<T>(d: Decoded<T>, x: T) -> bool {
    d == Ok::<T, DecodeErrorView>(x)
}

/// The reading failed with the error `e`.
pub open spec fn fails<T>(d: Decoded<T>, e: DecodeErrorView) -> bool {
    d == Err::<T, DecodeErrorView>(e)
}

/// The first error among the results, or else all their values.
pub open spec fn collect<T>(results: Seq<Decoded<T>>) -> Decoded<Seq<T>>
    decreases results.len(),
{
    if results.len() == 0 {
        Ok(Seq::empty())
    } else {
        match collect(results.drop_last()) {
            Err(e) => Err(e),
            Ok(front) => match results.last() {
                Err(e) => Err(e),
                Ok(x) => Ok(front.push(x)),
            },
        }
    }
}

/// Reading one more result: an error so far stays, the next error is
/// returned, and a value is added at the end.
pub proof fn lemma_collect_step<T>(results: Seq<Decoded<T>>, i: int)
    requires
        0 <= i < results.len(),
    ensures
        collect(results.subrange(0, i + 1)) == match collect(results.subrange(0, i)) {
            Err(e) => Err(e),
            Ok(front) => match results[i] {
                Err(e) => Err(e),
                Ok(x) => Ok(front.push(x)),
            },
        },
{
    assert(results.subrange(0, i + 1).drop_last() =~= results.subrange(0, i));
    assert(results.subrange(0, i + 1).last() == results[i]);
}

/// An error among the first results is the error of all of them.
pub proof fn lemma_collect_error<T>(results: Seq<Decoded<T>>, n: int)
    requires
        0 <= n <= results.len(),
    ensures
        collect(results.subrange(0, n)) is Err ==> collect(results) == collect(
            results.subrange(0, n),
        ),
    decreases results.len() - n,
{
    if n == results.len() {
        assert(results.subrange(0, n) =~= results);
    } else {
        lemma_collect_step(results, n);
        lemma_collect_error(results, n + 1);
    }
}

/// Where every result is a value, the values are what is collected.
pub proof fn lemma_collect_values<T>(results: Seq<Decoded<T>>, values: Seq<T>)
    requires
        results.len() == values.len(),
        forall|k: int| 0 <= k < results.len() ==> results[k] == Ok::<T, DecodeErrorView>(values[k]),
    ensures
        collect(results) == Ok::<Seq<T>, DecodeErrorView>(values),
    decreases results.len(),
{
    if results.len() == 0 {
        assert(values =~= Seq::empty());
    } else {
        lemma_collect_values(results.drop_last(), values.drop_last());
        assert(values.drop_last().push(values.last()) =~= values);
    }
}

/// What is collected has one value for each result.
pub proof fn lemma_collect_len<T>(results: Seq<Decoded<T>>)
    ensures
        collect(results) matches Ok(values) ==> values.len() == results.len() && forall|k: int|
            0 <= k < results.len() ==> results[k] == Ok::<T, DecodeErrorView>(values[k]),
    decreases results.len(),
{
    if results.len() > 0 {
        let front = results.drop_last();
        lemma_collect_len(front);
        match collect(results) {
            Ok(values) => {
                let head = collect(front)->Ok_0;
                assert(values == head.push(results.last()->Ok_0));
                assert forall|k: int| 0 <= k < results.len() implies results[k] == Ok::<
                    T,
                    DecodeErrorView,
                >(values[k]) by {
                    if k < front.len() {
                        assert(results[k] == front[k]);
                        assert(values[k] == head[k]);
                    }
                }
            },
            Err(_) => {},
        }
    }
}

/// The result's value passed through `f`.
pub open spec fn map_ok<T, U>(r: Decoded<T>, f: spec_fn(T) -> U) -> Decoded<U> {
    match r {
        Ok(x) => Ok(f(x)),
        Err(e) => Err(e),
    }
}

/// Both values, or the first error.
pub open spec fn and2<A, B>(a: Decoded<A>, b: Decoded<B>) -> Decoded<(A, B)> {
    match a {
        Err(e) => Err(e),
        Ok(x) => match b {
            Err(e) => Err(e),
            Ok(y) => Ok((x, y)),
        },
    }
}

/// All three values, or the first error.
pub open spec fn and3<A, B, C>(a: Decoded<A>, b: Decoded<B>, c: Decoded<C>) -> Decoded<(A, B, C)> {
    match and2(a, b) {
        Err(e) => Err(e),
        Ok(p) => match c {
            Err(e) => Err(e),
            Ok(z) => Ok((p.0, p.1, z)),
        },
    }
}

/// All four values, or the first error.
pub open spec fn and4<A, B, C, D>(
    a: Decoded<A>,
    b: Decoded<B>,
    c: Decoded<C>,
    d: Decoded<D>,
) -> Decoded<(A, B, C, D)> {
    match and3(a, b, c) {
        Err(e) => Err(e),
        Ok(p) => match d {
            Err(e) => Err(e),
            Ok(z) => Ok((p.0, p.1, p.2, z)),
        },
    }
}

/// All five values, or the first error.
pub open spec fn and5<A, B, C, D, F>(
    a: Decoded<A>,
    b: Decoded<B>,
    c: Decoded<C>,
    d: Decoded<D>,
    f: Decoded<F>,
) -> Decoded<(A, B, C, D, F)> {
    match and4(a, b, c, d) {
        Err(e) => Err(e),
        Ok(p) => match f {
            Err(e) => Err(e),
            Ok(z) => Ok((p.0, p.1, p.2, p.3, z)),
        },
    }
}

/// All six values, or the first error.
pub open spec fn and6<A, B, C, D, F, G>(
    a: Decoded<A>,
    b: Decoded<B>,
    c: Decoded<C>,
    d: Decoded<D>,
    f: Decoded<F>,
    g: Decoded<G>,
) -> Decoded<(A, B, C, D, F, G)> {
    match and5(a, b, c, d, f) {
        Err(e) => Err(e),
        Ok(p) => match g {
            Err(e) => Err(e),
            Ok(z) => Ok((p.0, p.1, p.2, p.3, p.4, z)),
        },
    }
}

/// A tagged value with contents.
pub open spec fn tagged(tag: Seq<char>, contents: JsonView) -> JsonView {
    JsonView::Object(
        seq![
            (Key::Tag.spec_name(), JsonView::String(tag)),
            (Key::Contents.spec_name(), contents),
        ],
    )
}

/// A tagged value without contents.
pub open spec fn tagged_unit(tag: Seq<char>) -> JsonView {
    JsonView::Object(seq![(Key::Tag.spec_name(), JsonView::String(tag))])
}

/// A tag with the contents that came with it, if any did.
pub ghost struct Tagged {
    pub tag: Seq<char>,
    pub contents: Option<JsonView>,
}

/// The value of a member that must be there once.
pub open spec fn field(members: Seq<(Seq<char>, JsonView)>, key: Key) -> Decoded<JsonView> {
    match lookup(members, key.spec_name()) {
        Lookup::Absent => Err(DecodeErrorView::MissingKey { key }),
        Lookup::Present(v) => Ok(v),
        Lookup::Repeated => Err(DecodeErrorView::DuplicateKey { key }),
    }
}

/// The value of a member that may be there once.
pub open spec fn optional_field(members: Seq<(Seq<char>, JsonView)>, key: Key) -> Decoded<
    Option<JsonView>,
> {
    match lookup(members, key.spec_name()) {
        Lookup::Absent => Ok(None),
        Lookup::Present(v) => Ok(Some(v)),
        Lookup::Repeated => Err(DecodeErrorView::DuplicateKey { key }),
    }
}

/// The members of an object.
pub open spec fn object_members(j: JsonView) -> Decoded<Seq<(Seq<char>, JsonView)>> {
    match j {
        JsonView::Object(members) => Ok(members),
        _ => Err(DecodeErrorView::WrongType { expected: JsonKind::Object, found: j.kind() }),
    }
}

/// The tag of a tagged value, and its contents.
pub open spec fn untag(j: JsonView) -> Decoded<Tagged> {
    match object_members(j) {
        Err(e) => Err(e),
        Ok(members) => match field(members, Key::Tag) {
            Err(e) => Err(e),
            Ok(JsonView::String(tag)) => match optional_field(members, Key::Contents) {
                Err(e) => Err(e),
                Ok(contents) => Ok(Tagged { tag, contents }),
            },
            Ok(other) => Err(
                DecodeErrorView::WrongType { expected: JsonKind::String, found: other.kind() },
            ),
        },
    }
}

/// What an object's member holds is smaller than the object.
pub proof fn lemma_field_decreases(j: JsonView, key: Key)
    ensures
        object_members(j) matches Ok(members) ==> (field(members, key) matches Ok(v)
            ==> decreases_to!(j => v)),
        object_members(j) matches Ok(members) ==> (optional_field(members, key) matches Ok(Some(v))
            ==> decreases_to!(j => v)),
{
    match j {
        JsonView::Object(members) => {
            lemma_lookup_present(members, key.spec_name());
        },
        _ => {},
    }
}

/// The contents of a tagged value are smaller than the value.
pub proof fn lemma_untag_decreases(j: JsonView)
    ensures
        untag(j) matches Ok(t) ==> (t.contents matches Some(c) ==> decreases_to!(j => c)),
{
    lemma_field_decreases(j, Key::Contents);
}

/// The contents of a variant without fields: none, or `null`.
pub open spec fn no_payload(contents: Option<JsonView>) -> Decoded<()> {
    match contents {
        None => Ok(()),
        Some(JsonView::Null) => Ok(()),
        Some(_) => Err(DecodeErrorView::WrongArity { expected_fields: 0, found_fields: 1 }),
    }
}

/// The contents of a variant with one field.
pub open spec fn one_payload(contents: Option<JsonView>) -> Decoded<JsonView> {
    match contents {
        Some(c) => Ok(c),
        None => Err(DecodeErrorView::WrongArity { expected_fields: 1, found_fields: 0 }),
    }
}

/// The contents of a variant with `n` fields, `n` being two or more.
pub open spec fn payload(contents: Option<JsonView>, n: nat) -> Decoded<Seq<JsonView>> {
    match contents {
        None => Err(DecodeErrorView::WrongArity { expected_fields: n, found_fields: 0 }),
        Some(JsonView::Array(items)) => if items.len() == n {
            Ok(items)
        } else {
            Err(DecodeErrorView::WrongArity { expected_fields: n, found_fields: items.len() })
        },
        Some(other) => Err(
            DecodeErrorView::WrongType { expected: JsonKind::Array, found: other.kind() },
        ),
    }
}

/// The items of an array.
pub open spec fn array_items(j: JsonView) -> Decoded<Seq<JsonView>> {
    match j {
        JsonView::Array(items) => Ok(items),
        _ => Err(DecodeErrorView::WrongType { expected: JsonKind::Array, found: j.kind() }),
    }
}

/// The fields of an aggregate of `n` fields.
pub open spec fn tuple_items(j: JsonView, n: nat) -> Decoded<Seq<JsonView>> {
    match j {
        JsonView::Array(items) => if items.len() == n {
            Ok(items)
        } else {
            Err(DecodeErrorView::WrongLength { expected_len: n, found_len: items.len() })
        },
        _ => Err(DecodeErrorView::WrongType { expected: JsonKind::Array, found: j.kind() }),
    }
}

/// The wire form of a string.
pub open spec fn encode_string(s: Seq<char>) -> JsonView {
    JsonView::String(s)
}

/// What a JSON value stands for, read as a string: the model, or why there is
/// none.
pub open spec fn decode_string(j: JsonView) -> Decoded<Seq<char>> {
    match j {
        JsonView::String(s) => Ok(s),
        _ => Err(DecodeErrorView::WrongType { expected: JsonKind::String, found: j.kind() }),
    }
}

/// The wire form of a boolean.
pub open spec fn encode_bool(b: bool) -> JsonView {
    JsonView::Bool(b)
}

/// What a JSON value stands for, read as a boolean: the model, or why there
/// is none.
pub open spec fn decode_bool(j: JsonView) -> Decoded<bool> {
    match j {
        JsonView::Bool(b) => Ok(b),
        _ => Err(DecodeErrorView::WrongType { expected: JsonKind::Bool, found: j.kind() }),
    }
}

/// The wire form of a 32-bit integer.
pub open spec fn encode_i32(n: i32) -> JsonView {
    JsonView::Number(Number::Int(n as i128))
}

/// What a JSON value stands for, read as a 32-bit integer: the model, or why
/// there is none.
pub open spec fn decode_i32(j: JsonView) -> Decoded<i32> {
    match j {
        JsonView::Number(Number::Int(n)) => if i32::MIN <= n <= i32::MAX {
            Ok(n as i32)
        } else {
            Err(DecodeErrorView::OutOfRange { value: n })
        },
        _ => Err(DecodeErrorView::WrongType { expected: JsonKind::Integer, found: j.kind() }),
    }
}

/// Any number, an integer or not.
pub open spec fn decode_number(j: JsonView) -> Decoded<Number> {
    match j {
        JsonView::Number(n) => Ok(n),
        _ => Err(DecodeErrorView::WrongType { expected: JsonKind::Double, found: j.kind() }),
    }
}

/// The wire form of a list of strings.
pub open spec fn encode_strings(s: Seq<Seq<char>>) -> JsonView {
    JsonView::Array(Seq::new(s.len(), |k: int| encode_string(s[k])))
}

/// What each item stands for, read as a string.
pub open spec fn decode_string_items(items: Seq<JsonView>) -> Seq<Decoded<Seq<char>>> {
    Seq::new(items.len(), |k: int| decode_string(items[k]))
}

/// What a JSON value stands for, read as a list of strings: the model, or why
/// there is none.
pub open spec fn decode_strings(j: JsonView) -> Decoded<Seq<Seq<char>>> {
    match array_items(j) {
        Err(e) => Err(e),
        Ok(items) => collect(decode_string_items(items)),
    }
}

/// The wire form of a pair of strings.
pub open spec fn encode_string_pair(p: (Seq<char>, Seq<char>)) -> JsonView {
    JsonView::Array(seq![encode_string(p.0), encode_string(p.1)])
}

/// What a JSON value stands for, read as a pair of strings: the model, or why
/// there is none.
pub open spec fn decode_string_pair(j: JsonView) -> Decoded<(Seq<char>, Seq<char>)> {
    match tuple_items(j, 2) {
        Err(e) => Err(e),
        Ok(items) => and2(decode_string(items[0]), decode_string(items[1])),
    }
}

/// The wire form of a list of pairs of strings.
pub open spec fn encode_string_pairs(s: Seq<(Seq<char>, Seq<char>)>) -> JsonView {
    JsonView::Array(Seq::new(s.len(), |k: int| encode_string_pair(s[k])))
}

/// What each item stands for, read as a pair of strings.
pub open spec fn decode_string_pair_items(items: Seq<JsonView>) -> Seq<Decoded<(Seq<char>, Seq<char>)>> {
    Seq::new(items.len(), |k: int| decode_string_pair(items[k]))
}

/// What a JSON value stands for, read as a list of pairs of strings: the
/// model, or why there is none.
pub open spec fn decode_string_pairs(j: JsonView) -> Decoded<Seq<(Seq<char>, Seq<char>)>> {
    match array_items(j) {
        Err(e) => Err(e),
        Ok(items) => collect(decode_string_pair_items(items)),
    }
}

/// The wire form of attributes.
pub open spec fn encode_attr(a: AttrView) -> JsonView {
    JsonView::Array(
        seq![
            encode_string(a.identifier),
            encode_strings(a.classes),
            encode_string_pairs(a.attributes),
        ],
    )
}

/// What a JSON value stands for, read as attributes: the model, or why there
/// is none.
pub open spec fn decode_attr(j: JsonView) -> Decoded<AttrView> {
    match tuple_items(j, 3) {
        Err(e) => Err(e),
        Ok(items) => map_ok(
            and3(
                decode_string(items[0]),
                decode_strings(items[1]),
                decode_string_pairs(items[2]),
            ),
            |p: (Seq<char>, Seq<Seq<char>>, Seq<(Seq<char>, Seq<char>)>)|
                AttrView { identifier: p.0, classes: p.1, attributes: p.2 },
        ),
    }
}

/// The wire form of a target.
pub open spec fn encode_target(t: TargetView) -> JsonView {
    JsonView::Array(seq![encode_string(t.url), encode_string(t.title)])
}

/// What a JSON value stands for, read as a target: the model, or why there is
/// none.
pub open spec fn decode_target(j: JsonView) -> Decoded<TargetView> {
    match tuple_items(j, 2) {
        Err(e) => Err(e),
        Ok(items) => map_ok(
            and2(decode_string(items[0]), decode_string(items[1])),
            |p: (Seq<char>, Seq<char>)| TargetView { url: p.0, title: p.1 },
        ),
    }
}

/// A variant without fields, read by the name of its family's variants.
pub open spec fn decode_unit_variant<T>(
    j: JsonView,
    family: Family,
    from_name: spec_fn(Seq<char>) -> Option<T>,
) -> Decoded<T> {
    match untag(j) {
        Err(e) => Err(e),
        Ok(t) => match from_name(t.tag) {
            None => Err(DecodeErrorView::UnknownTag { family, tag: t.tag }),
            Some(v) => match no_payload(t.contents) {
                Err(e) => Err(e),
                Ok(_) => Ok(v),
            },
        },
    }
}

/// The wire form of an alignment.
pub open spec fn encode_alignment(a: Alignment) -> JsonView {
    tagged_unit(a.spec_name())
}

/// What a JSON value stands for, read as an alignment: the model, or why
/// there is none.
pub open spec fn decode_alignment(j: JsonView) -> Decoded<Alignment> {
    decode_unit_variant(j, Family::Alignment, |n: Seq<char>| Alignment::spec_from_name(n))
}

/// The wire form of a list number style.
pub open spec fn encode_list_number_style(s: ListNumberStyle) -> JsonView {
    tagged_unit(s.spec_name())
}

/// What a JSON value stands for, read as a list number style: the model, or
/// why there is none.
pub open spec fn decode_list_number_style(j: JsonView) -> Decoded<ListNumberStyle> {
    decode_unit_variant(
        j,
        Family::ListNumberStyle,
        |n: Seq<char>| ListNumberStyle::spec_from_name(n),
    )
}

/// The wire form of a list number delimiter.
pub open spec fn encode_list_number_delim(d: ListNumberDelim) -> JsonView {
    tagged_unit(d.spec_name())
}

/// What a JSON value stands for, read as a list number delimiter: the model,
/// or why there is none.
pub open spec fn decode_list_number_delim(j: JsonView) -> Decoded<ListNumberDelim> {
    decode_unit_variant(
        j,
        Family::ListNumberDelim,
        |n: Seq<char>| ListNumberDelim::spec_from_name(n),
    )
}

/// The wire form of a quote type.
pub open spec fn encode_quote_type(q: QuoteType) -> JsonView {
    tagged_unit(q.spec_name())
}

/// What a JSON value stands for, read as a quote type: the model, or why
/// there is none.
pub open spec fn decode_quote_type(j: JsonView) -> Decoded<QuoteType> {
    decode_unit_variant(j, Family::QuoteType, |n: Seq<char>| QuoteType::spec_from_name(n))
}

/// The wire form of a math type.
pub open spec fn encode_math_type(m: MathType) -> JsonView {
    tagged_unit(m.spec_name())
}

/// What a JSON value stands for, read as a math type: the model, or why there
/// is none.
pub open spec fn decode_math_type(j: JsonView) -> Decoded<MathType> {
    decode_unit_variant(j, Family::MathType, |n: Seq<char>| MathType::spec_from_name(n))
}

/// The wire form of a citation mode.
pub open spec fn encode_citation_mode(m: CitationMode) -> JsonView {
    tagged_unit(m.spec_name())
}

/// What a JSON value stands for, read as a citation mode: the model, or why
/// there is none.
pub open spec fn decode_citation_mode(j: JsonView) -> Decoded<CitationMode> {
    decode_unit_variant(j, Family::CitationMode, |n: Seq<char>| CitationMode::spec_from_name(n))
}

/// The wire form of a column width.
pub open spec fn encode_col_width(w: ColWidth) -> JsonView {
    match w {
        ColWidth::ColWidth(n) => tagged("ColWidth"@, JsonView::Number(n)),
        ColWidth::ColWidthDefault => tagged_unit("ColWidthDefault"@),
    }
}

/// What a JSON value stands for, read as a column width: the model, or why
/// there is none.
pub open spec fn decode_col_width(j: JsonView) -> Decoded<ColWidth> {
    match untag(j) {
        Err(e) => Err(e),
        Ok(t) => if t.tag == "ColWidth"@ {
            match one_payload(t.contents) {
                Err(e) => Err(e),
                Ok(c) => map_ok(decode_number(c), |n: Number| ColWidth::ColWidth(n)),
            }
        } else if t.tag == "ColWidthDefault"@ {
            map_ok(no_payload(t.contents), |u: ()| ColWidth::ColWidthDefault)
        } else {
            Err(DecodeErrorView::UnknownTag { family: Family::ColWidth, tag: t.tag })
        },
    }
}

/// The wire form of a column specification.
pub open spec fn encode_col_spec(c: ColSpec) -> JsonView {
    JsonView::Array(seq![encode_alignment(c.0), encode_col_width(c.1)])
}

/// What a JSON value stands for, read as a column specification: the model,
/// or why there is none.
pub open spec fn decode_col_spec(j: JsonView) -> Decoded<ColSpec> {
    match tuple_items(j, 2) {
        Err(e) => Err(e),
        Ok(items) => map_ok(
            and2(decode_alignment(items[0]), decode_col_width(items[1])),
            |p: (Alignment, ColWidth)| ColSpec(p.0, p.1),
        ),
    }
}

/// The wire form of a list of column specifications.
pub open spec fn encode_col_specs(s: Seq<ColSpec>) -> JsonView {
    JsonView::Array(Seq::new(s.len(), |k: int| encode_col_spec(s[k])))
}

/// What each item stands for, read as a column specification.
pub open spec fn decode_col_spec_items(items: Seq<JsonView>) -> Seq<Decoded<ColSpec>> {
    Seq::new(items.len(), |k: int| decode_col_spec(items[k]))
}

/// What a JSON value stands for, read as a list of column specifications: the
/// model, or why there is none.
pub open spec fn decode_col_specs(j: JsonView) -> Decoded<Seq<ColSpec>> {
    match array_items(j) {
        Err(e) => Err(e),
        Ok(items) => collect(decode_col_spec_items(items)),
    }
}

/// The wire form of list attributes.
pub open spec fn encode_list_attributes(l: ListAttributes) -> JsonView {
    JsonView::Array(
        seq![
            encode_i32(l.start_number),
            encode_list_number_style(l.style),
            encode_list_number_delim(l.delim),
        ],
    )
}

/// What a JSON value stands for, read as list attributes: the model, or why
/// there is none.
pub open spec fn decode_list_attributes(j: JsonView) -> Decoded<ListAttributes> {
    match tuple_items(j, 3) {
        Err(e) => Err(e),
        Ok(items) => map_ok(
            and3(
                decode_i32(items[0]),
                decode_list_number_style(items[1]),
                decode_list_number_delim(items[2]),
            ),
            |p: (i32, ListNumberStyle, ListNumberDelim)|
                ListAttributes { start_number: p.0, style: p.1, delim: p.2 },
        ),
    }
}

} // verus!
