//! The ways in which a JSON value can fail to be a document.

use crate::json::JsonKind;
use crate::text::decimal;
use crate::text::decimal_nat;
use crate::text::push_decimal;
use crate::text::push_decimal_nat;
use crate::text::str_eq;
use vstd::prelude::*;
use vstd::std_specs::cmp::PartialEqSpecImpl;
use vstd::string::StringExecFns;

verus! {

/// The families of values that are written as a tag with its contents.
#[derive(Debug, Clone, Copy, PartialEq, Eq, Structural)]
pub enum Family {
    MetaValue,
    Block,
    Inline,
    Alignment,
    ColWidth,
    ListNumberStyle,
    ListNumberDelim,
    QuoteType,
    MathType,
    CitationMode,
}

/// The keys that the objects of the wire form are read by.
#[derive(Debug, Clone, Copy, PartialEq, Eq, Structural)]
pub enum Key {
    Tag,
    Contents,
    ApiVersion,
    Meta,
    Blocks,
    CitationId,
    CitationPrefix,
    CitationSuffix,
    CitationMode,
    CitationNoteNum,
    CitationHash,
}

/// The three classes of decoding failure.
#[derive(Debug, Clone, Copy, PartialEq, Eq, Structural)]
pub enum ErrorClass {
    /// The value has the wrong shape: a wrong kind of JSON value, a missing
    /// or repeated key, an aggregate of the wrong length, an integer too large.
    Shape,
    /// The tag is not one of its family, or its payload has the wrong number
    /// of fields.
    Tag,
    /// The document was written for another version of the schema.
    Version,
}

/// Why a JSON value was rejected, with what was expected and what was found.
#[derive(Debug, Eq)]
pub enum DecodeError {
    /// A value of one kind stood where another kind is required. Where any
    /// number is accepted, `expected` is `Double`.
    WrongType { expected: JsonKind, found: JsonKind },
    /// An integer does not fit in 32 bits.
    OutOfRange { value: i128 },
    /// An object lacks a required key.
    MissingKey { key: Key },
    /// An object has a key more than once.
    DuplicateKey { key: Key },
    /// An array that stands for an aggregate has the wrong number of items.
    WrongLength { expected_len: usize, found_len: usize },
    /// The tag names no variant of its family.
    UnknownTag { family: Family, tag: String },
    /// The payload of a known tag has the wrong number of fields.
    WrongArity { expected_fields: usize, found_fields: usize },
    /// The version does not start with the expected major and minor numbers.
    VersionMismatch { expected_major: i32, expected_minor: i32, found_version: Vec<i32> },
}

/// The mathematical model of a [`DecodeError`].
pub ghost enum DecodeErrorView {
    WrongType { expected: JsonKind, found: JsonKind },
    OutOfRange { value: i128 },
    MissingKey { key: Key },
    DuplicateKey { key: Key },
    WrongLength { expected_len: nat, found_len: nat },
    UnknownTag { family: Family, tag: Seq<char> },
    WrongArity { expected_fields: nat, found_fields: nat },
    VersionMismatch { expected_major: i32, expected_minor: i32, found_version: Seq<i32> },
}

impl View for DecodeError {
    type V = DecodeErrorView;

    open spec fn view(&self) -> DecodeErrorView {
        match *self {
            DecodeError::WrongType { expected, found } => DecodeErrorView::WrongType {
                expected,
                found,
            },
            DecodeError::OutOfRange { value } => DecodeErrorView::OutOfRange { value },
            DecodeError::MissingKey { key } => DecodeErrorView::MissingKey { key },
            DecodeError::DuplicateKey { key } => DecodeErrorView::DuplicateKey { key },
            DecodeError::WrongLength { expected_len, found_len } => DecodeErrorView::WrongLength {
                expected_len: expected_len as nat,
                found_len: found_len as nat,
            },
            DecodeError::UnknownTag { family, tag } => DecodeErrorView::UnknownTag {
                family,
                tag: tag@,
            },
            DecodeError::WrongArity {
                expected_fields,
                found_fields,
            } => DecodeErrorView::WrongArity {
                expected_fields: expected_fields as nat,
                found_fields: found_fields as nat,
            },
            DecodeError::VersionMismatch {
                expected_major,
                expected_minor,
                found_version,
            } => DecodeErrorView::VersionMismatch {
                expected_major,
                expected_minor,
                found_version: found_version@,
            },
        }
    }
}

impl DecodeErrorView {
    /// The class that an error belongs to.
    pub open spec fn class(self) -> ErrorClass {
        match self {
            DecodeErrorView::UnknownTag { .. } => ErrorClass::Tag,
            DecodeErrorView::WrongArity { .. } => ErrorClass::Tag,
            DecodeErrorView::VersionMismatch { .. } => ErrorClass::Version,
            _ => ErrorClass::Shape,
        }
    }
}

impl Key {
    /// The key as it is spelled on the wire.
    pub open spec fn spec_name(self) -> Seq<char> {
        match self {
            Key::Tag => "t"@,
            Key::Contents => "c"@,
            Key::ApiVersion => "pandoc-api-version"@,
            Key::Meta => "meta"@,
            Key::Blocks => "blocks"@,
            Key::CitationId => "citationId"@,
            Key::CitationPrefix => "citationPrefix"@,
            Key::CitationSuffix => "citationSuffix"@,
            Key::CitationMode => "citationMode"@,
            Key::CitationNoteNum => "citationNoteNum"@,
            Key::CitationHash => "citationHash"@,
        }
    }

    /// The key as it is spelled on the wire.
    pub fn name(&self) -> (r: &'static str)
        ensures
            r@ == self.spec_name(),
    {
        match self {
            Key::Tag => "t",
            Key::Contents => "c",
            Key::ApiVersion => "pandoc-api-version",
            Key::Meta => "meta",
            Key::Blocks => "blocks",
            Key::CitationId => "citationId",
            Key::CitationPrefix => "citationPrefix",
            Key::CitationSuffix => "citationSuffix",
            Key::CitationMode => "citationMode",
            Key::CitationNoteNum => "citationNoteNum",
            Key::CitationHash => "citationHash",
        }
    }
}

/// No two keys are spelled alike.
pub proof fn lemma_key_names_differ(a: Key, b: Key)
    ensures
        a.spec_name() == b.spec_name() ==> a == b,
{
    reveal_strlit("t");
    reveal_strlit("c");
    reveal_strlit("pandoc-api-version");
    reveal_strlit("meta");
    reveal_strlit("blocks");
    reveal_strlit("citationId");
    reveal_strlit("citationPrefix");
    reveal_strlit("citationSuffix");
    reveal_strlit("citationMode");
    reveal_strlit("citationNoteNum");
    reveal_strlit("citationHash");
    if a.spec_name() == b.spec_name() {
        assert(a.spec_name().len() == b.spec_name().len());
        assert(a.spec_name()[0] == b.spec_name()[0]);
        if a.spec_name().len() > 8 {
            assert(a.spec_name()[8] == b.spec_name()[8]);
        }
    }
}

impl DecodeError {
    /// The class that this error belongs to.
    pub fn class(&self) -> (c: ErrorClass)
        ensures
            c == self@.class(),
    {
        match self {
            DecodeError::UnknownTag { .. } => ErrorClass::Tag,
            DecodeError::WrongArity { .. } => ErrorClass::Tag,
            DecodeError::VersionMismatch { .. } => ErrorClass::Version,
            _ => ErrorClass::Shape,
        }
    }
}

impl Clone for DecodeError {
    /// A copy with the same model.
    fn clone(&self) -> (r: DecodeError)
        ensures
            r@ == self@,
    {
        match self {
            DecodeError::WrongType { expected, found } => DecodeError::WrongType {
                expected: *expected,
                found: *found,
            },
            DecodeError::OutOfRange { value } => DecodeError::OutOfRange { value: *value },
            DecodeError::MissingKey { key } => DecodeError::MissingKey { key: *key },
            DecodeError::DuplicateKey { key } => DecodeError::DuplicateKey { key: *key },
            DecodeError::WrongLength { expected_len, found_len } => DecodeError::WrongLength {
                expected_len: *expected_len,
                found_len: *found_len,
            },
            DecodeError::UnknownTag { family, tag } => DecodeError::UnknownTag {
                family: *family,
                tag: tag.clone(),
            },
            DecodeError::WrongArity { expected_fields, found_fields } => DecodeError::WrongArity {
                expected_fields: *expected_fields,
                found_fields: *found_fields,
            },
            DecodeError::VersionMismatch { expected_major, expected_minor, found_version } => {
                let mut found: Vec<i32> = Vec::new();
                let mut i: usize = 0;
                while i < found_version.len()
                    invariant
                        i <= found_version.len(),
                        found@ == found_version@.subrange(0, i as int),
                    decreases found_version.len() - i,
                {
                    found.push(found_version[i]);
                    proof {
                        assert(found@ =~= found_version@.subrange(0, i + 1));
                    }
                    i += 1;
                }
                proof {
                    assert(found@ =~= found_version@);
                }
                DecodeError::VersionMismatch {
                    expected_major: *expected_major,
                    expected_minor: *expected_minor,
                    found_version: found,
                }
            },
        }
    }
}

impl JsonKind {
    /// The kind in words, as messages name it.
    pub open spec fn spec_phrase(self) -> Seq<char> {
        match self {
            JsonKind::Null => "null"@,
            JsonKind::Bool => "a boolean"@,
            JsonKind::Integer => "an integer"@,
            JsonKind::Double => "a number"@,
            JsonKind::String => "a string"@,
            JsonKind::Array => "an array"@,
            JsonKind::Object => "an object"@,
        }
    }

    /// The kind in words, as messages name it.
    pub fn phrase(&self) -> (r: &'static str)
        ensures
            r@ == self.spec_phrase(),
    {
        match self {
            JsonKind::Null => "null",
            JsonKind::Bool => "a boolean",
            JsonKind::Integer => "an integer",
            JsonKind::Double => "a number",
            JsonKind::String => "a string",
            JsonKind::Array => "an array",
            JsonKind::Object => "an object",
        }
    }
}

impl Family {
    /// The family in words, as messages name it.
    pub open spec fn spec_phrase(self) -> Seq<char> {
        match self {
            Family::MetaValue => "metadata value"@,
            Family::Block => "block"@,
            Family::Inline => "inline"@,
            Family::Alignment => "alignment"@,
            Family::ColWidth => "column width"@,
            Family::ListNumberStyle => "list number style"@,
            Family::ListNumberDelim => "list number delimiter"@,
            Family::QuoteType => "quote type"@,
            Family::MathType => "math type"@,
            Family::CitationMode => "citation mode"@,
        }
    }

    /// The family in words, as messages name it.
    pub fn phrase(&self) -> (r: &'static str)
        ensures
            r@ == self.spec_phrase(),
    {
        match self {
            Family::MetaValue => "metadata value",
            Family::Block => "block",
            Family::Inline => "inline",
            Family::Alignment => "alignment",
            Family::ColWidth => "column width",
            Family::ListNumberStyle => "list number style",
            Family::ListNumberDelim => "list number delimiter",
            Family::QuoteType => "quote type",
            Family::MathType => "math type",
            Family::CitationMode => "citation mode",
        }
    }
}

impl DecodeErrorView {
    /// The error in words: what was expected, and what was found.
    pub open spec fn message(self) -> Seq<char> {
        match self {
            DecodeErrorView::WrongType { expected, found } => "expected "@ + expected.spec_phrase()
                + ", found "@ + found.spec_phrase(),
            DecodeErrorView::OutOfRange { value } => "expected an integer of 32 bits, found "@
                + decimal(value as int),
            DecodeErrorView::MissingKey { key } => "missing field `"@ + key.spec_name() + "`"@,
            DecodeErrorView::DuplicateKey { key } => "duplicate field `"@ + key.spec_name() + "`"@,
            DecodeErrorView::WrongLength {
                expected_len,
                found_len,
            } => "expected an array of length "@ + decimal_nat(expected_len)
                + ", found one of length "@ + decimal_nat(found_len),
            DecodeErrorView::UnknownTag { family, tag } => "unknown "@ + family.spec_phrase()
                + " tag `"@ + tag + "`"@,
            DecodeErrorView::WrongArity {
                expected_fields,
                found_fields,
            } => "expected contents of "@ + decimal_nat(expected_fields) + " fields, found "@
                + decimal_nat(found_fields),
            DecodeErrorView::VersionMismatch {
                expected_major,
                expected_minor,
                found_version,
            } => "expected pandoc-api-version to start with "@ + decimal(expected_major as int)
                + ","@ + decimal(expected_minor as int),
        }
    }
}

impl DecodeError {
    /// The error in words: what was expected, and what was found.
    pub fn message(&self) -> (r: String)
        ensures
            r@ == self@.message(),
    {
        let mut out = String::new();
        match self {
            DecodeError::WrongType { expected, found } => {
                out.append("expected ");
                out.append(expected.phrase());
                out.append(", found ");
                out.append(found.phrase());
            },
            DecodeError::OutOfRange { value } => {
                out.append("expected an integer of 32 bits, found ");
                push_decimal(&mut out, *value);
            },
            DecodeError::MissingKey { key } => {
                out.append("missing field `");
                out.append(key.name());
                out.append("`");
            },
            DecodeError::DuplicateKey { key } => {
                out.append("duplicate field `");
                out.append(key.name());
                out.append("`");
            },
            DecodeError::WrongLength { expected_len, found_len } => {
                out.append("expected an array of length ");
                push_decimal_nat(&mut out, *expected_len as u128);
                out.append(", found one of length ");
                push_decimal_nat(&mut out, *found_len as u128);
            },
            DecodeError::UnknownTag { family, tag } => {
                out.append("unknown ");
                out.append(family.phrase());
                out.append(" tag `");
                out.append(tag.as_str());
                out.append("`");
            },
            DecodeError::WrongArity { expected_fields, found_fields } => {
                out.append("expected contents of ");
                push_decimal_nat(&mut out, *expected_fields as u128);
                out.append(" fields, found ");
                push_decimal_nat(&mut out, *found_fields as u128);
            },
            DecodeError::VersionMismatch { expected_major, expected_minor, found_version } => {
                out.append("expected pandoc-api-version to start with ");
                push_decimal(&mut out, *expected_major as i128);
                out.append(",");
                push_decimal(&mut out, *expected_minor as i128);
            },
        }
        proof {
            assert(out@ =~= self@.message());
        }
        out
    }
}

/// Whether two versions have the same components in the same order.
pub fn eq_versions(v: &Vec<i32>, w: &Vec<i32>) -> (r: bool)
    ensures
        r == (v@ == w@),
{
    if v.len() != w.len() {
        return false;
    }
    let mut i: usize = 0;
    while i < v.len()
        invariant
            i <= v.len(),
            v.len() == w.len(),
            forall|k: int| 0 <= k < i ==> v@[k] == w@[k],
        decreases v.len() - i,
    {
        if v[i] != w[i] {
            return false;
        }
        i += 1;
    }
    proof {
        assert(v@ =~= w@);
    }
    true
}

impl PartialEq for DecodeError {
    fn eq(&self, other: &DecodeError) -> (r: bool) {
        match (self, other) {
            (
                DecodeError::WrongType { expected: a, found: b },
                DecodeError::WrongType { expected: c, found: d },
            ) => *a == *c && *b == *d,
            (DecodeError::OutOfRange { value: a }, DecodeError::OutOfRange { value: b }) => *a
                == *b,
            (DecodeError::MissingKey { key: a }, DecodeError::MissingKey { key: b }) => *a == *b,
            (DecodeError::DuplicateKey { key: a }, DecodeError::DuplicateKey { key: b }) => *a
                == *b,
            (
                DecodeError::WrongLength { expected_len: a, found_len: b },
                DecodeError::WrongLength { expected_len: c, found_len: d },
            ) => *a == *c && *b == *d,
            (
                DecodeError::UnknownTag { family: a, tag: b },
                DecodeError::UnknownTag { family: c, tag: d },
            ) => *a == *c && str_eq(b.as_str(), d.as_str()),
            (
                DecodeError::WrongArity { expected_fields: a, found_fields: b },
                DecodeError::WrongArity { expected_fields: c, found_fields: d },
            ) => *a == *c && *b == *d,
            (
                DecodeError::VersionMismatch {
                    expected_major: a,
                    expected_minor: b,
                    found_version: v,
                },
                DecodeError::VersionMismatch {
                    expected_major: c,
                    expected_minor: d,
                    found_version: w,
                },
            ) => *a == *c && *b == *d && eq_versions(v, w),
            _ => false,
        }
    }
}

impl PartialEqSpecImpl for DecodeError {
    open spec fn obeys_eq_spec() -> bool {
        true
    }

    open spec fn eq_spec(&self, other: &DecodeError) -> bool {
        self@ == other@
    }
}

} // verus!
