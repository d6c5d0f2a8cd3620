use pandoc_types::codec::error::DecodeError;
use pandoc_types::codec::error::ErrorClass;
use pandoc_types::codec::error::Family;
use pandoc_types::codec::error::Key;
use pandoc_types::definition::Alignment;
use pandoc_types::definition::Attr;
use pandoc_types::definition::Block;
use pandoc_types::definition::Caption;
use pandoc_types::definition::Cell;
use pandoc_types::definition::Citation;
use pandoc_types::definition::CitationMode;
use pandoc_types::definition::ColSpec;
use pandoc_types::definition::ColWidth;
use pandoc_types::definition::Format;
use pandoc_types::definition::Inline;
use pandoc_types::definition::ListAttributes;
use pandoc_types::definition::ListNumberDelim;
use pandoc_types::definition::ListNumberStyle;
use pandoc_types::definition::MathType;
use pandoc_types::definition::Meta;
use pandoc_types::definition::MetaValue;
use pandoc_types::definition::Pandoc;
use pandoc_types::definition::QuoteType;
use pandoc_types::definition::Row;
use pandoc_types::definition::Table;
use pandoc_types::definition::TableBody;
use pandoc_types::definition::TableFoot;
use pandoc_types::definition::TableHead;
use pandoc_types::definition::Target;
use pandoc_types::definition::PANDOC_API_MAJOR;
use pandoc_types::definition::PANDOC_API_MINOR;
use pandoc_types::json::Json;
use pandoc_types::json::JsonKind;
use pandoc_types::json::Number;

fn s(text: &str) -> String {
    text.to_string()
}

fn js(text: &str) -> Json {
    Json::String(s(text))
}

fn num(n: i128) -> Json {
    Json::Number(Number::Int(n))
}

fn obj(members: Vec<(&str, Json)>) -> Json {
    Json::Object(members.into_iter().map(|(k, v)| (s(k), v)).collect())
}

fn tag(name: &str) -> Json {
    obj(vec![("t", js(name))])
}

fn tagged(name: &str, contents: Json) -> Json {
    obj(vec![("t", js(name)), ("c", contents)])
}

fn document(version: Vec<Json>) -> Json {
    obj(vec![
        ("pandoc-api-version", Json::Array(version)),
        ("meta", obj(vec![])),
        ("blocks", Json::Array(vec![])),
    ])
}

fn empty_attr() -> Json {
    Json::Array(vec![js(""), Json::Array(vec![]), Json::Array(vec![])])
}

fn text(words: &str) -> Vec<Inline> {
    let mut out = Vec::new();
    for (i, w) in words.split(' ').enumerate() {
        if i > 0 {
            out.push(Inline::Space);
        }
        out.push(Inline::Str(s(w)));
    }
    out
}

fn sample_table() -> Table {
    let cell = |t: &str| Cell {
        attr: Attr::null(),
        align: Alignment::AlignDefault,
        row_span: 1,
        col_span: 1,
        content: vec![Block::Plain(text(t))],
    };
    Table {
        attr: Attr { identifier: s("t1"), classes: vec![s("wide")], attributes: vec![] },
        caption: Caption { short: Some(text("short")), long: vec![Block::Plain(text("long one"))] },
        colspecs: vec![
            ColSpec(Alignment::AlignRight, ColWidth::ColWidthDefault),
            ColSpec(Alignment::AlignLeft, ColWidth::ColWidth(Number::Double(0.5f64.to_bits()))),
            ColSpec(Alignment::AlignCenter, ColWidth::ColWidth(Number::Int(1))),
        ],
        head: TableHead {
            attr: Attr::null(),
            rows: vec![Row { attr: Attr::null(), cells: vec![cell("right"), cell("left")] }],
        },
        bodies: vec![TableBody {
            attr: Attr::null(),
            row_head_columns: 0,
            head: vec![],
            body: vec![
                Row { attr: Attr::null(), cells: vec![cell("1"), cell("2")] },
                Row { attr: Attr::null(), cells: vec![cell("4"), cell("5")] },
            ],
        }],
        foot: TableFoot { attr: Attr::null(), rows: vec![] },
    }
}

fn sample_document() -> Pandoc {
    let attr = Attr {
        identifier: s("foo"),
        classes: vec![s("bar"), s("baz")],
        attributes: vec![(s("k"), s("v"))],
    };
    let citation = Citation {
        citation_id: s("cite"),
        citation_prefix: text("see"),
        citation_suffix: vec![],
        citation_mode: CitationMode::NormalCitation,
        citation_note_num: 1,
        citation_hash: 0,
    };
    let inlines = vec![
        Inline::Str(s("str")),
        Inline::Emph(text("emph")),
        Inline::Underline(text("underline")),
        Inline::Strong(text("strong")),
        Inline::Strikeout(text("strikeout")),
        Inline::Superscript(text("superscript")),
        Inline::Subscript(text("subscript")),
        Inline::SmallCaps(text("caps")),
        Inline::Quoted(QuoteType::SingleQuote, text("single")),
        Inline::Quoted(QuoteType::DoubleQuote, text("double")),
        Inline::Cite(vec![citation], text("[see @cite]")),
        Inline::Code(Attr::null(), s("code")),
        Inline::Space,
        Inline::SoftBreak,
        Inline::LineBreak,
        Inline::Math(MathType::InlineMath, s("x^2")),
        Inline::Math(MathType::DisplayMath, s("y")),
        Inline::RawInline(Format(s("html")), s("<br/>")),
        Inline::Link(Attr::null(), text("link"), Target { url: s("http://x"), title: s("") }),
        Inline::Image(Attr::null(), text("alt"), Target { url: s("i.png"), title: s("t") }),
        Inline::Note(vec![Block::Para(text("note"))]),
        Inline::Span(attr_copy(&attr), text("span")),
    ];
    let blocks = vec![
        Block::Plain(text("plain")),
        Block::Para(inlines),
        Block::LineBlock(vec![text("line"), text("block")]),
        Block::CodeBlock(attr_copy(&attr), s("$ echo hi\n$ uname -a")),
        Block::RawBlock(Format(s("latex")), s("\\begin{enumerate}")),
        Block::BlockQuote(vec![Block::Para(text("quoted"))]),
        Block::OrderedList(
            ListAttributes {
                start_number: 3,
                style: ListNumberStyle::LowerAlpha,
                delim: ListNumberDelim::OneParen,
            },
            vec![vec![Block::Plain(text("d e"))], vec![Block::Plain(text("f"))]],
        ),
        Block::BulletList(vec![vec![Block::Plain(text("a"))], vec![]]),
        Block::DefinitionList(vec![(
            text("fun"),
            vec![vec![Block::Plain(text("something you do with friends"))]],
        )]),
        Block::Header(2, attr_copy(&attr), text("b")),
        Block::HorizontalRule,
        Block::Table(sample_table()),
        Block::Figure(
            Attr::null(),
            Caption { short: None, long: vec![] },
            vec![Block::Plain(text("fig"))],
        ),
        Block::Div(attr, vec![Block::Null]),
        Block::Null,
    ];
    let mut nested = Meta::new();
    nested.insert(s("inner"), MetaValue::MetaBool(true));
    let mut meta = Meta::new();
    meta.insert(s("title"), MetaValue::MetaInlines(text("asdf")));
    meta.insert(s("author"), MetaValue::MetaString(s("qwer")));
    meta.insert(
        s("fun"),
        MetaValue::MetaList(vec![
            MetaValue::MetaInlines(text("2")),
            MetaValue::MetaBlocks(vec![Block::Para(text("times"))]),
        ]),
    );
    meta.insert(s("map"), MetaValue::MetaMap(nested));
    Pandoc { blocks, meta }
}

fn attr_copy(a: &Attr) -> Attr {
    Attr {
        identifier: a.identifier.clone(),
        classes: a.classes.clone(),
        attributes: a.attributes.clone(),
    }
}

#[test]
fn version() {
    assert!(Pandoc::deserialize(&document(vec![
        num(PANDOC_API_MAJOR as i128),
        num(PANDOC_API_MINOR as i128)
    ]))
    .is_ok());

    assert!(Pandoc::deserialize(&document(vec![])).is_err());

    assert!(Pandoc::deserialize(&document(vec![
        num(PANDOC_API_MAJOR as i128),
        num(PANDOC_API_MINOR as i128 + 1)
    ]))
    .is_err());
}

#[test]
fn version_is_one_twenty_three() {
    assert_eq!((PANDOC_API_MAJOR, PANDOC_API_MINOR), (1, 23));
}

#[test]
fn version_may_have_more_components() {
    let doc = Pandoc::deserialize(&document(vec![num(1), num(23), num(1), num(7)]));
    assert_eq!(doc, Ok(Pandoc::default()));
}

#[test]
fn version_mismatch_carries_expected_and_found() {
    assert_eq!(
        Pandoc::deserialize(&document(vec![num(1), num(24)])),
        Err(DecodeError::VersionMismatch {
            expected_major: 1,
            expected_minor: 23,
            found_version: vec![1, 24]
        })
    );
    assert_eq!(
        Pandoc::deserialize(&document(vec![num(1)])),
        Err(DecodeError::VersionMismatch {
            expected_major: 1,
            expected_minor: 23,
            found_version: vec![1]
        })
    );
    assert_eq!(
        Pandoc::deserialize(&document(vec![num(2), num(23)])),
        Err(DecodeError::VersionMismatch {
            expected_major: 1,
            expected_minor: 23,
            found_version: vec![2, 23]
        })
    );
}

#[test]
fn encoding_writes_the_pinned_version() {
    let j = Pandoc::default().serialize();
    assert_eq!(j, document(vec![num(1), num(23)]));
}

#[test]
fn document_has_exactly_three_keys_in_order() {
    match sample_document().serialize() {
        Json::Object(members) => {
            let keys: Vec<&str> = members.iter().map(|m| m.0.as_str()).collect();
            assert_eq!(keys, vec!["pandoc-api-version", "meta", "blocks"]);
        }
        other => panic!("expected an object, found {:?}", other),
    }
}

#[test]
fn malformed_blocks_are_reported_before_the_version() {
    let j = obj(vec![
        ("pandoc-api-version", Json::Array(vec![num(0)])),
        ("meta", obj(vec![])),
        ("blocks", Json::Array(vec![tag("Paragraph")])),
    ]);
    assert_eq!(
        Pandoc::deserialize(&j),
        Err(DecodeError::UnknownTag { family: Family::Block, tag: s("Paragraph") })
    );
}

#[test]
fn round_trip_of_a_document_with_every_kind_of_node() {
    let doc = sample_document();
    let back = Pandoc::deserialize(&doc.serialize());
    assert_eq!(back, Ok(sample_document()));
}

#[test]
fn round_trip_of_each_block_alone() {
    for block in sample_document().blocks {
        let j = block.serialize();
        assert_eq!(Block::deserialize(&j), Ok(block));
    }
}

#[test]
fn horizontal_rule_has_only_the_tag() {
    assert_eq!(Block::HorizontalRule.serialize(), obj(vec![("t", js("HorizontalRule"))]));
}

#[test]
fn zero_payload_variants_have_no_contents() {
    assert_eq!(Block::Null.serialize(), tag("Null"));
    assert_eq!(Inline::Space.serialize(), tag("Space"));
    assert_eq!(Inline::SoftBreak.serialize(), tag("SoftBreak"));
    assert_eq!(Inline::LineBreak.serialize(), tag("LineBreak"));
    assert_eq!(Alignment::AlignLeft.serialize(), tag("AlignLeft"));
    assert_eq!(ColWidth::ColWidthDefault.serialize(), tag("ColWidthDefault"));
}

#[test]
fn one_field_is_the_contents_itself() {
    assert_eq!(Inline::Str(s("a")).serialize(), tagged("Str", js("a")));
    assert_eq!(
        Block::Para(vec![Inline::Space]).serialize(),
        tagged("Para", Json::Array(vec![tag("Space")]))
    );
}

#[test]
fn several_fields_are_an_array() {
    assert_eq!(
        Inline::Math(MathType::InlineMath, s("x")).serialize(),
        tagged("Math", Json::Array(vec![tag("InlineMath"), js("x")]))
    );
    assert_eq!(
        Block::Header(1, Attr::null(), vec![]).serialize(),
        tagged("Header", Json::Array(vec![num(1), empty_attr(), Json::Array(vec![])]))
    );
}

#[test]
fn cell_is_an_array_of_five_in_field_order() {
    let cell = Cell {
        attr: Attr { identifier: s("c"), classes: vec![], attributes: vec![] },
        align: Alignment::AlignCenter,
        row_span: 2,
        col_span: 3,
        content: vec![Block::Null],
    };
    assert_eq!(
        cell.serialize(),
        Json::Array(vec![
            Json::Array(vec![js("c"), Json::Array(vec![]), Json::Array(vec![])]),
            tag("AlignCenter"),
            num(2),
            num(3),
            Json::Array(vec![tag("Null")]),
        ])
    );
}

#[test]
fn aggregates_are_arrays() {
    let row = Row { attr: Attr::null(), cells: vec![] };
    assert_eq!(row.serialize(), Json::Array(vec![empty_attr(), Json::Array(vec![])]));
    let caption = Caption { short: None, long: vec![] };
    assert_eq!(caption.serialize(), Json::Array(vec![Json::Null, Json::Array(vec![])]));
    let head = TableHead::default();
    assert_eq!(head.serialize(), Json::Array(vec![empty_attr(), Json::Array(vec![])]));
    let foot = TableFoot::default();
    assert_eq!(foot.serialize(), Json::Array(vec![empty_attr(), Json::Array(vec![])]));
    let body = TableBody::default();
    assert_eq!(
        body.serialize(),
        Json::Array(vec![empty_attr(), num(0), Json::Array(vec![]), Json::Array(vec![])])
    );
    assert_eq!(
        ColSpec::default().serialize(),
        Json::Array(vec![tag("AlignDefault"), tag("ColWidthDefault")])
    );
    assert_eq!(
        ListAttributes::default().serialize(),
        Json::Array(vec![num(1), tag("DefaultStyle"), tag("DefaultDelim")])
    );
    assert_eq!(
        Target { url: s("u"), title: s("t") }.serialize(),
        Json::Array(vec![js("u"), js("t")])
    );
}

#[test]
fn table_is_an_array_of_six() {
    match Table::default().serialize() {
        Json::Array(items) => assert_eq!(items.len(), 6),
        other => panic!("expected an array, found {:?}", other),
    }
}

#[test]
fn citation_keys_are_camel_case() {
    let c = Citation {
        citation_id: s("id"),
        citation_prefix: vec![],
        citation_suffix: vec![],
        citation_mode: CitationMode::AuthorInText,
        citation_note_num: 4,
        citation_hash: 9,
    };
    let j = c.serialize();
    assert_eq!(
        j,
        obj(vec![
            ("citationId", js("id")),
            ("citationPrefix", Json::Array(vec![])),
            ("citationSuffix", Json::Array(vec![])),
            ("citationMode", tag("AuthorInText")),
            ("citationNoteNum", num(4)),
            ("citationHash", num(9)),
        ])
    );
    assert_eq!(Citation::deserialize(&j), Ok(c));
}

#[test]
fn citation_members_in_any_order_and_other_members() {
    let j = obj(vec![
        ("citationHash", num(9)),
        ("extra", Json::Null),
        ("citationMode", tag("SuppressAuthor")),
        ("citationNoteNum", num(4)),
        ("citationSuffix", Json::Array(vec![])),
        ("citationPrefix", Json::Array(vec![])),
        ("citationId", js("id")),
    ]);
    let c = Citation::deserialize(&j).unwrap();
    assert_eq!(c.citation_id, "id");
    assert_eq!(c.citation_mode, CitationMode::SuppressAuthor);
    assert_eq!(c.citation_hash, 9);
}

#[test]
fn key_names() {
    assert_eq!(Key::Tag.name(), "t");
    assert_eq!(Key::Contents.name(), "c");
    assert_eq!(Key::ApiVersion.name(), "pandoc-api-version");
    assert_eq!(Key::Meta.name(), "meta");
    assert_eq!(Key::Blocks.name(), "blocks");
    assert_eq!(Key::CitationId.name(), "citationId");
    assert_eq!(Key::CitationPrefix.name(), "citationPrefix");
    assert_eq!(Key::CitationSuffix.name(), "citationSuffix");
    assert_eq!(Key::CitationMode.name(), "citationMode");
    assert_eq!(Key::CitationNoteNum.name(), "citationNoteNum");
    assert_eq!(Key::CitationHash.name(), "citationHash");
}

#[test]
fn contents_before_tag_is_accepted() {
    let j = obj(vec![("c", js("a")), ("t", js("Str"))]);
    assert_eq!(Inline::deserialize(&j), Ok(Inline::Str(s("a"))));
}

#[test]
fn null_contents_of_a_zero_payload_variant_is_accepted() {
    assert_eq!(Inline::deserialize(&tagged("Space", Json::Null)), Ok(Inline::Space));
    assert_eq!(
        Inline::deserialize(&tagged("Space", Json::Array(vec![]))),
        Err(DecodeError::WrongArity { expected_fields: 0, found_fields: 1 })
    );
}

#[test]
fn wrong_type_errors() {
    assert_eq!(
        Block::deserialize(&js("Para")),
        Err(DecodeError::WrongType { expected: JsonKind::Object, found: JsonKind::String })
    );
    assert_eq!(
        Block::deserialize(&obj(vec![("t", num(1))])),
        Err(DecodeError::WrongType { expected: JsonKind::String, found: JsonKind::Integer })
    );
    assert_eq!(
        Block::deserialize(&tagged("Para", Json::Bool(true))),
        Err(DecodeError::WrongType { expected: JsonKind::Array, found: JsonKind::Bool })
    );
    assert_eq!(
        Inline::deserialize(&tagged("Str", Json::Null)),
        Err(DecodeError::WrongType { expected: JsonKind::String, found: JsonKind::Null })
    );
    assert_eq!(
        Block::deserialize(&tagged(
            "Header",
            Json::Array(vec![
                Json::Number(Number::Double(1.5f64.to_bits())),
                empty_attr(),
                Json::Array(vec![])
            ])
        )),
        Err(DecodeError::WrongType { expected: JsonKind::Integer, found: JsonKind::Double })
    );
    assert_eq!(
        ColWidth::deserialize(&tagged("ColWidth", js("wide"))),
        Err(DecodeError::WrongType { expected: JsonKind::Double, found: JsonKind::String })
    );
    assert_eq!(
        MetaValue::deserialize(&tagged("MetaBool", obj(vec![]))),
        Err(DecodeError::WrongType { expected: JsonKind::Bool, found: JsonKind::Object })
    );
    assert_eq!(
        Pandoc::deserialize(&Json::Array(vec![])),
        Err(DecodeError::WrongType { expected: JsonKind::Object, found: JsonKind::Array })
    );
}

#[test]
fn out_of_range_error() {
    let header = |n: i128| {
        tagged("Header", Json::Array(vec![num(n), empty_attr(), Json::Array(vec![])]))
    };
    assert_eq!(
        Block::deserialize(&header(2147483647)),
        Ok(Block::Header(2147483647, Attr::null(), vec![]))
    );
    assert_eq!(
        Block::deserialize(&header(-2147483648)),
        Ok(Block::Header(-2147483648, Attr::null(), vec![]))
    );
    assert_eq!(
        Block::deserialize(&header(2147483648)),
        Err(DecodeError::OutOfRange { value: 2147483648 })
    );
    assert_eq!(
        Block::deserialize(&header(-2147483649)),
        Err(DecodeError::OutOfRange { value: -2147483649 })
    );
}

#[test]
fn missing_key_errors() {
    assert_eq!(
        Block::deserialize(&obj(vec![("c", js("x"))])),
        Err(DecodeError::MissingKey { key: Key::Tag })
    );
    assert_eq!(
        Pandoc::deserialize(&obj(vec![("blocks", Json::Array(vec![]))])),
        Err(DecodeError::MissingKey { key: Key::Meta })
    );
    assert_eq!(
        Pandoc::deserialize(&obj(vec![("meta", obj(vec![]))])),
        Err(DecodeError::MissingKey { key: Key::Blocks })
    );
    assert_eq!(
        Pandoc::deserialize(&obj(vec![("meta", obj(vec![])), ("blocks", Json::Array(vec![]))])),
        Err(DecodeError::MissingKey { key: Key::ApiVersion })
    );
    assert_eq!(
        Citation::deserialize(&obj(vec![("citationId", js("x"))])),
        Err(DecodeError::MissingKey { key: Key::CitationPrefix })
    );
}

#[test]
fn duplicate_key_errors() {
    assert_eq!(
        Block::deserialize(&obj(vec![("t", js("Null")), ("t", js("Null"))])),
        Err(DecodeError::DuplicateKey { key: Key::Tag })
    );
    assert_eq!(
        Inline::deserialize(&obj(vec![("t", js("Str")), ("c", js("a")), ("c", js("b"))])),
        Err(DecodeError::DuplicateKey { key: Key::Contents })
    );
}

#[test]
fn wrong_length_error() {
    assert_eq!(
        Target::deserialize(&Json::Array(vec![js("u")])),
        Err(DecodeError::WrongLength { expected_len: 2, found_len: 1 })
    );
    assert_eq!(
        Cell::deserialize(&Json::Array(vec![])),
        Err(DecodeError::WrongLength { expected_len: 5, found_len: 0 })
    );
    assert_eq!(
        Attr::deserialize(&Json::Array(vec![js(""), Json::Null, Json::Null, Json::Null])),
        Err(DecodeError::WrongLength { expected_len: 3, found_len: 4 })
    );
}

#[test]
fn unknown_tag_errors() {
    assert_eq!(
        Block::deserialize(&tag("Paragraph")),
        Err(DecodeError::UnknownTag { family: Family::Block, tag: s("Paragraph") })
    );
    assert_eq!(
        Inline::deserialize(&tag("space")),
        Err(DecodeError::UnknownTag { family: Family::Inline, tag: s("space") })
    );
    assert_eq!(
        Alignment::deserialize(&tag("AlignJustify")),
        Err(DecodeError::UnknownTag { family: Family::Alignment, tag: s("AlignJustify") })
    );
    assert_eq!(
        MetaValue::deserialize(&tagged("MetaNumber", num(1))),
        Err(DecodeError::UnknownTag { family: Family::MetaValue, tag: s("MetaNumber") })
    );
    assert_eq!(
        ColWidth::deserialize(&tag("ColWide")),
        Err(DecodeError::UnknownTag { family: Family::ColWidth, tag: s("ColWide") })
    );
    assert_eq!(
        QuoteType::deserialize(&tag("Guillemets")),
        Err(DecodeError::UnknownTag { family: Family::QuoteType, tag: s("Guillemets") })
    );
    assert_eq!(
        MathType::deserialize(&tag("Math")),
        Err(DecodeError::UnknownTag { family: Family::MathType, tag: s("Math") })
    );
    assert_eq!(
        CitationMode::deserialize(&tag("Normal")),
        Err(DecodeError::UnknownTag { family: Family::CitationMode, tag: s("Normal") })
    );
    assert_eq!(
        ListNumberStyle::deserialize(&tag("Greek")),
        Err(DecodeError::UnknownTag { family: Family::ListNumberStyle, tag: s("Greek") })
    );
    assert_eq!(
        ListNumberDelim::deserialize(&tag("Colon")),
        Err(DecodeError::UnknownTag { family: Family::ListNumberDelim, tag: s("Colon") })
    );
}

#[test]
fn wrong_arity_errors() {
    assert_eq!(
        Block::deserialize(&tag("Para")),
        Err(DecodeError::WrongArity { expected_fields: 1, found_fields: 0 })
    );
    assert_eq!(
        Block::deserialize(&tag("CodeBlock")),
        Err(DecodeError::WrongArity { expected_fields: 2, found_fields: 0 })
    );
    assert_eq!(
        Block::deserialize(&tagged("CodeBlock", Json::Array(vec![empty_attr()]))),
        Err(DecodeError::WrongArity { expected_fields: 2, found_fields: 1 })
    );
    assert_eq!(
        Inline::deserialize(&tagged("Link", Json::Array(vec![empty_attr(), js("x")]))),
        Err(DecodeError::WrongArity { expected_fields: 3, found_fields: 2 })
    );
    assert_eq!(
        Block::deserialize(&tagged("HorizontalRule", js("x"))),
        Err(DecodeError::WrongArity { expected_fields: 0, found_fields: 1 })
    );
}

#[test]
fn error_classes() {
    let shape = [
        DecodeError::WrongType { expected: JsonKind::Array, found: JsonKind::Null },
        DecodeError::OutOfRange { value: 1 << 40 },
        DecodeError::MissingKey { key: Key::Meta },
        DecodeError::DuplicateKey { key: Key::Tag },
        DecodeError::WrongLength { expected_len: 2, found_len: 3 },
    ];
    for e in shape.iter() {
        assert_eq!(e.class(), ErrorClass::Shape);
    }
    assert_eq!(
        DecodeError::UnknownTag { family: Family::Block, tag: s("Z") }.class(),
        ErrorClass::Tag
    );
    assert_eq!(
        DecodeError::WrongArity { expected_fields: 1, found_fields: 0 }.class(),
        ErrorClass::Tag
    );
    assert_eq!(
        DecodeError::VersionMismatch {
            expected_major: 1,
            expected_minor: 23,
            found_version: vec![]
        }
        .class(),
        ErrorClass::Version
    );
}

#[test]
fn first_error_in_a_list_is_reported() {
    let j = Json::Array(vec![tag("Space"), tag("Bad1"), tag("Bad2")]);
    let block = tagged("Para", j);
    assert_eq!(
        Block::deserialize(&block),
        Err(DecodeError::UnknownTag { family: Family::Inline, tag: s("Bad1") })
    );
}

#[test]
fn column_width_keeps_the_number_it_was_given() {
    let half = Number::Double(0.5f64.to_bits());
    assert_eq!(
        ColWidth::deserialize(&tagged("ColWidth", Json::Number(half))),
        Ok(ColWidth::ColWidth(half))
    );
    assert_eq!(
        ColWidth::deserialize(&tagged("ColWidth", num(1))),
        Ok(ColWidth::ColWidth(Number::Int(1)))
    );
    assert_eq!(ColWidth::ColWidth(half).serialize(), tagged("ColWidth", Json::Number(half)));
}

#[test]
fn short_caption_is_null_or_inlines() {
    let with = Caption { short: Some(vec![Inline::Space]), long: vec![] };
    assert_eq!(
        with.serialize(),
        Json::Array(vec![Json::Array(vec![tag("Space")]), Json::Array(vec![])])
    );
    assert_eq!(Caption::deserialize(&with.serialize()), Ok(with));
    let empty = Json::Array(vec![Json::Null, Json::Array(vec![])]);
    assert_eq!(Caption::deserialize(&empty), Ok(Caption::default()));
}

#[test]
fn metadata_is_an_object_of_tagged_values() {
    let mut meta = Meta::new();
    meta.insert(s("title"), MetaValue::MetaString(s("x")));
    meta.insert(s("draft"), MetaValue::MetaBool(false));
    assert_eq!(
        meta.serialize(),
        obj(vec![
            ("title", tagged("MetaString", js("x"))),
            ("draft", tagged("MetaBool", Json::Bool(false))),
        ])
    );
    assert_eq!(Meta::deserialize(&meta.serialize()), Ok(meta));
}

#[test]
fn later_metadata_value_under_a_key_stays() {
    let j = obj(vec![
        ("a", tagged("MetaBool", Json::Bool(true))),
        ("b", tagged("MetaString", js("x"))),
        ("a", tagged("MetaBool", Json::Bool(false))),
    ]);
    let meta = Meta::deserialize(&j).unwrap();
    assert_eq!(meta.len(), 2);
    assert_eq!(meta.get("a"), Some(&MetaValue::MetaBool(false)));
    assert_eq!(meta.get("b"), Some(&MetaValue::MetaString(s("x"))));
    assert_eq!(meta.get("c"), None);
    assert_eq!(meta.position("b"), Some(1));
}

#[test]
fn format_is_a_bare_string() {
    assert_eq!(Format(s("html")).serialize(), js("html"));
    assert_eq!(Format::deserialize(&js("tex")), Ok(Format(s("tex"))));
}

#[test]
fn enum_names_round_trip() {
    for a in [
        Alignment::AlignLeft,
        Alignment::AlignRight,
        Alignment::AlignCenter,
        Alignment::AlignDefault,
    ] {
        assert_eq!(Alignment::from_name(a.name()), Some(a));
        assert_eq!(Alignment::deserialize(&a.serialize()), Ok(a));
    }
    for x in [
        ListNumberStyle::DefaultStyle,
        ListNumberStyle::Example,
        ListNumberStyle::Decimal,
        ListNumberStyle::LowerRoman,
        ListNumberStyle::UpperRoman,
        ListNumberStyle::LowerAlpha,
        ListNumberStyle::UpperAlpha,
    ] {
        assert_eq!(ListNumberStyle::from_name(x.name()), Some(x));
        assert_eq!(ListNumberStyle::deserialize(&x.serialize()), Ok(x));
    }
    for x in [
        ListNumberDelim::DefaultDelim,
        ListNumberDelim::Period,
        ListNumberDelim::OneParen,
        ListNumberDelim::TwoParens,
    ] {
        assert_eq!(ListNumberDelim::from_name(x.name()), Some(x));
        assert_eq!(ListNumberDelim::deserialize(&x.serialize()), Ok(x));
    }
    for x in [QuoteType::SingleQuote, QuoteType::DoubleQuote] {
        assert_eq!(QuoteType::from_name(x.name()), Some(x));
    }
    for x in [MathType::DisplayMath, MathType::InlineMath] {
        assert_eq!(MathType::from_name(x.name()), Some(x));
    }
    for x in [
        CitationMode::AuthorInText,
        CitationMode::SuppressAuthor,
        CitationMode::NormalCitation,
    ] {
        assert_eq!(CitationMode::from_name(x.name()), Some(x));
    }
    assert_eq!(Alignment::AlignCenter.name(), "AlignCenter");
    assert_eq!(Alignment::from_name("Center"), None);
}

#[test]
fn json_kinds() {
    assert_eq!(Json::Null.kind(), JsonKind::Null);
    assert_eq!(Json::Bool(true).kind(), JsonKind::Bool);
    assert_eq!(num(3).kind(), JsonKind::Integer);
    assert_eq!(Json::Number(Number::Double(0)).kind(), JsonKind::Double);
    assert_eq!(js("").kind(), JsonKind::String);
    assert_eq!(Json::Array(vec![]).kind(), JsonKind::Array);
    assert_eq!(obj(vec![]).kind(), JsonKind::Object);
}

#[test]
fn messages_say_what_was_expected_and_what_was_found() {
    assert_eq!(
        DecodeError::VersionMismatch {
            expected_major: 1,
            expected_minor: 23,
            found_version: vec![1, 24]
        }
        .message(),
        "expected pandoc-api-version to start with 1,23"
    );
    assert_eq!(
        DecodeError::UnknownTag { family: Family::Block, tag: s("Z") }.message(),
        "unknown block tag `Z`"
    );
    assert_eq!(
        DecodeError::UnknownTag { family: Family::ListNumberDelim, tag: s("") }.message(),
        "unknown list number delimiter tag ``"
    );
    assert_eq!(
        DecodeError::WrongType { expected: JsonKind::Array, found: JsonKind::Null }.message(),
        "expected an array, found null"
    );
    assert_eq!(
        DecodeError::WrongType { expected: JsonKind::Integer, found: JsonKind::Double }.message(),
        "expected an integer, found a number"
    );
    assert_eq!(
        DecodeError::WrongType { expected: JsonKind::Object, found: JsonKind::String }.message(),
        "expected an object, found a string"
    );
    assert_eq!(
        DecodeError::WrongType { expected: JsonKind::Bool, found: JsonKind::Bool }.message(),
        "expected a boolean, found a boolean"
    );
    assert_eq!(
        DecodeError::OutOfRange { value: -2147483649 }.message(),
        "expected an integer of 32 bits, found -2147483649"
    );
    assert_eq!(
        DecodeError::OutOfRange { value: i128::MIN }.message(),
        "expected an integer of 32 bits, found -170141183460469231731687303715884105728"
    );
    assert_eq!(
        DecodeError::OutOfRange { value: i128::MAX }.message(),
        "expected an integer of 32 bits, found 170141183460469231731687303715884105727"
    );
    assert_eq!(
        DecodeError::MissingKey { key: Key::ApiVersion }.message(),
        "missing field `pandoc-api-version`"
    );
    assert_eq!(DecodeError::DuplicateKey { key: Key::Tag }.message(), "duplicate field `t`");
    assert_eq!(
        DecodeError::WrongLength { expected_len: 5, found_len: 0 }.message(),
        "expected an array of length 5, found one of length 0"
    );
    assert_eq!(
        DecodeError::WrongArity { expected_fields: 3, found_fields: 10 }.message(),
        "expected contents of 3 fields, found 10"
    );
    assert_eq!(
        DecodeError::VersionMismatch {
            expected_major: -7,
            expected_minor: 120,
            found_version: vec![]
        }
        .message(),
        "expected pandoc-api-version to start with -7,120"
    );
}

#[test]
fn errors_can_be_copied() {
    let errors = vec![
        DecodeError::WrongType { expected: JsonKind::Array, found: JsonKind::Null },
        DecodeError::OutOfRange { value: 1 << 40 },
        DecodeError::MissingKey { key: Key::Meta },
        DecodeError::DuplicateKey { key: Key::Tag },
        DecodeError::WrongLength { expected_len: 2, found_len: 3 },
        DecodeError::UnknownTag { family: Family::Inline, tag: s("Z") },
        DecodeError::WrongArity { expected_fields: 1, found_fields: 0 },
        DecodeError::VersionMismatch {
            expected_major: 1,
            expected_minor: 23,
            found_version: vec![1, 22, 2],
        },
    ];
    for e in errors.iter() {
        assert_eq!(e.clone(), *e);
    }
}
