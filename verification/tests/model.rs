use pandoc_types::definition::extra::BlockType;
use pandoc_types::definition::extra::InlineType;
use pandoc_types::definition::Alignment;
use pandoc_types::definition::Attr;
use pandoc_types::definition::Block;
use pandoc_types::definition::Caption;
use pandoc_types::definition::Cell;
use pandoc_types::definition::ColSpec;
use pandoc_types::definition::ColWidth;
use pandoc_types::definition::Format;
use pandoc_types::definition::Inline;
use pandoc_types::definition::ListAttributes;
use pandoc_types::definition::ListNumberDelim;
use pandoc_types::definition::ListNumberStyle;
use pandoc_types::definition::MathType;
use pandoc_types::definition::Meta;
use pandoc_types::definition::MetaValue;
use pandoc_types::definition::Pandoc;
use pandoc_types::definition::QuoteType;
use pandoc_types::definition::Table;
use pandoc_types::definition::TableBody;
use pandoc_types::definition::TableFoot;
use pandoc_types::definition::TableHead;
use pandoc_types::definition::Target;

fn s(text: &str) -> String {
    text.to_string()
}

#[test]
fn null_attr_is_empty() {
    let a = Attr::null();
    assert_eq!(a.identifier, "");
    assert!(a.classes.is_empty());
    assert!(a.attributes.is_empty());
    assert_eq!(Attr::default(), Attr::null());
}

#[test]
fn defaults() {
    assert_eq!(Alignment::default(), Alignment::AlignDefault);
    assert_eq!(ColWidth::default(), ColWidth::ColWidthDefault);
    assert_eq!(ColSpec::default(), ColSpec(Alignment::AlignDefault, ColWidth::ColWidthDefault));
    assert_eq!(ListNumberStyle::default(), ListNumberStyle::DefaultStyle);
    assert_eq!(ListNumberDelim::default(), ListNumberDelim::DefaultDelim);
    assert_eq!(
        ListAttributes::default(),
        ListAttributes {
            start_number: 1,
            style: ListNumberStyle::DefaultStyle,
            delim: ListNumberDelim::DefaultDelim
        }
    );
    assert_eq!(Caption::default(), Caption { short: None, long: vec![] });
    assert_eq!(TableHead::default(), TableHead { attr: Attr::null(), rows: vec![] });
    assert_eq!(TableFoot::default(), TableFoot { attr: Attr::null(), rows: vec![] });
    assert_eq!(
        TableBody::default(),
        TableBody { attr: Attr::null(), row_head_columns: 0, head: vec![], body: vec![] }
    );
    assert_eq!(Pandoc::default(), Pandoc { blocks: vec![], meta: Meta::new() });
    assert_eq!(Meta::default().len(), 0);
}

#[test]
fn default_cell_spans_one_row_and_one_column() {
    let c = Cell::default();
    assert_eq!(c.row_span, 1);
    assert_eq!(c.col_span, 1);
    assert_eq!(c.align, Alignment::AlignDefault);
    assert_eq!(c.attr, Attr::null());
    assert!(c.content.is_empty());
}

#[test]
fn default_table_is_empty() {
    let t = Table::default();
    assert_eq!(t.attr, Attr::null());
    assert_eq!(t.caption, Caption::default());
    assert!(t.colspecs.is_empty());
    assert!(t.head.rows.is_empty());
    assert!(t.bodies.is_empty());
    assert!(t.foot.rows.is_empty());
}

#[test]
fn a_zero_row_span_is_not_rejected() {
    let c = Cell { row_span: 0, ..Cell::default() };
    assert_eq!(Cell::deserialize(&c.serialize()), Ok(c));
}

#[test]
fn equality_is_structural_and_ordered() {
    let a = Block::Para(vec![Inline::Str(s("a")), Inline::Space]);
    let b = Block::Para(vec![Inline::Space, Inline::Str(s("a"))]);
    assert_ne!(a, b);
    assert_eq!(a, Block::Para(vec![Inline::Str(s("a")), Inline::Space]));
    assert_ne!(Block::Plain(vec![]), Block::Para(vec![]));
}

#[test]
fn block_kinds() {
    let attr = Attr::null;
    let cases = vec![
        (Block::Plain(vec![]), BlockType::Plain, "Plain"),
        (Block::Para(vec![]), BlockType::Para, "Para"),
        (Block::LineBlock(vec![]), BlockType::LineBlock, "LineBlock"),
        (Block::CodeBlock(attr(), s("some very long string")), BlockType::CodeBlock, "CodeBlock"),
        (Block::RawBlock(Format(s("tex")), s("")), BlockType::RawBlock, "RawBlock"),
        (Block::BlockQuote(vec![]), BlockType::BlockQuote, "BlockQuote"),
        (
            Block::OrderedList(ListAttributes::default(), vec![]),
            BlockType::OrderedList,
            "OrderedList",
        ),
        (Block::BulletList(vec![]), BlockType::BulletList, "BulletList"),
        (Block::DefinitionList(vec![]), BlockType::DefinitionList, "DefinitionList"),
        (Block::Header(1, attr(), vec![]), BlockType::Header, "Header"),
        (Block::HorizontalRule, BlockType::HorizontalRule, "HorizontalRule"),
        (Block::Table(Table::default()), BlockType::Table, "Table"),
        (Block::Figure(attr(), Caption::default(), vec![]), BlockType::Figure, "Figure"),
        (Block::Div(attr(), vec![]), BlockType::Div, "Div"),
        (Block::Null, BlockType::Null, "Null"),
    ];
    for (block, kind, name) in cases.iter() {
        assert_eq!(BlockType::from(block), *kind);
        assert_eq!(kind.name(), *name);
        assert_eq!(BlockType::from_name(name), Some(*kind));
    }
    assert_eq!(BlockType::from_name("Paragraph"), None);
    assert_eq!(BlockType::from_name(""), None);
    let found: Vec<BlockType> = cases.iter().map(|c| BlockType::from(&c.0)).collect();
    assert_eq!(format!("{:?}", &found[3..4]), "[CodeBlock]");
}

#[test]
fn inline_kinds() {
    let attr = Attr::null;
    let target = || Target { url: s(""), title: s("") };
    let cases = vec![
        (Inline::Str(s("")), InlineType::Str, "Str"),
        (Inline::Emph(vec![]), InlineType::Emph, "Emph"),
        (
            Inline::Underline(vec![Inline::Str(s("some very long string"))]),
            InlineType::Underline,
            "Underline",
        ),
        (Inline::Strong(vec![]), InlineType::Strong, "Strong"),
        (Inline::Strikeout(vec![]), InlineType::Strikeout, "Strikeout"),
        (Inline::Superscript(vec![]), InlineType::Superscript, "Superscript"),
        (Inline::Subscript(vec![]), InlineType::Subscript, "Subscript"),
        (Inline::SmallCaps(vec![]), InlineType::SmallCaps, "SmallCaps"),
        (Inline::Quoted(QuoteType::SingleQuote, vec![]), InlineType::Quoted, "Quoted"),
        (Inline::Cite(vec![], vec![]), InlineType::Cite, "Cite"),
        (Inline::Code(attr(), s("")), InlineType::Code, "Code"),
        (Inline::Space, InlineType::Space, "Space"),
        (Inline::SoftBreak, InlineType::SoftBreak, "SoftBreak"),
        (Inline::LineBreak, InlineType::LineBreak, "LineBreak"),
        (Inline::Math(MathType::InlineMath, s("")), InlineType::Math, "Math"),
        (Inline::RawInline(Format(s("")), s("")), InlineType::RawInline, "RawInline"),
        (Inline::Link(attr(), vec![], target()), InlineType::Link, "Link"),
        (Inline::Image(attr(), vec![], target()), InlineType::Image, "Image"),
        (Inline::Note(vec![]), InlineType::Note, "Note"),
        (Inline::Span(attr(), vec![]), InlineType::Span, "Span"),
    ];
    for (inline, kind, name) in cases.iter() {
        assert_eq!(InlineType::from(inline), *kind);
        assert_eq!(kind.name(), *name);
        assert_eq!(InlineType::from_name(name), Some(*kind));
    }
    assert_eq!(InlineType::from_name("Strike"), None);
    let found: Vec<InlineType> = cases.iter().map(|c| InlineType::from(&c.0)).collect();
    assert_eq!(format!("{:?}", &found[2..3]), "[Underline]");
}

#[test]
fn metadata_insert_and_get() {
    let mut m = Meta::new();
    assert_eq!(m.len(), 0);
    assert_eq!(m.get("a"), None);
    m.insert(s("a"), MetaValue::MetaBool(true));
    m.insert(s("b"), MetaValue::MetaString(s("x")));
    assert_eq!(m.len(), 2);
    m.insert(s("a"), MetaValue::MetaBool(false));
    assert_eq!(m.len(), 2);
    assert_eq!(m.get("a"), Some(&MetaValue::MetaBool(false)));
    assert_eq!(m.position("a"), Some(0));
    assert_eq!(m.position("b"), Some(1));
    assert_eq!(m.position("c"), None);
    assert_eq!(m.entries[0].0, "a");
}

#[test]
fn copies_are_equal_and_separate() {
    let attr = Attr {
        identifier: s("id"),
        classes: vec![s("a"), s("b")],
        attributes: vec![(s("k"), s("v"))],
    };
    let mut meta = Meta::new();
    meta.insert(s("title"), MetaValue::MetaInlines(vec![Inline::Str(s("t"))]));
    meta.insert(
        s("list"),
        MetaValue::MetaList(vec![MetaValue::MetaBool(true), MetaValue::MetaMap(Meta::new())]),
    );
    let doc = Pandoc {
        blocks: vec![
            Block::Div(attr.clone(), vec![Block::Para(vec![Inline::Str(s("x")), Inline::Space])]),
            Block::DefinitionList(vec![(
                vec![Inline::Emph(vec![Inline::Str(s("term"))])],
                vec![vec![Block::Plain(vec![Inline::Note(vec![Block::Null])])]],
            )]),
            Block::Table(Table {
                caption: Caption { short: Some(vec![Inline::Space]), long: vec![Block::Null] },
                colspecs: vec![ColSpec::default()],
                bodies: vec![TableBody::default()],
                ..Table::default()
            }),
            Block::LineBlock(vec![vec![Inline::LineBreak]]),
        ],
        meta,
    };
    let mut copy = doc.clone();
    assert_eq!(copy, doc);
    copy.blocks[0] = Block::Null;
    assert_ne!(copy, doc);
    assert_eq!(attr.clone(), attr);
    assert_eq!(doc.blocks[1].clone(), doc.blocks[1]);
    assert_eq!(doc.meta.clone(), doc.meta);
    let j = doc.serialize();
    assert_eq!(j.clone(), j);
    assert_eq!(Target { url: s("u"), title: s("t") }.clone(), Target { url: s("u"), title: s("t") });
    assert_eq!(Format(s("f")).clone(), Format(s("f")));
    assert_eq!(TableHead::default().clone(), TableHead::default());
    assert_eq!(TableFoot::default().clone(), TableFoot::default());
    assert_eq!(Cell::default().clone(), Cell::default());
}

#[test]
fn well_formed_metadata_has_no_key_twice() {
    let mut good = Meta::new();
    good.insert(s("a"), MetaValue::MetaBool(true));
    good.insert(s("b"), MetaValue::MetaBool(true));
    good.insert(s("a"), MetaValue::MetaBool(false));
    assert!(good.is_well_formed());
    assert!(Meta::new().is_well_formed());

    let twice = Meta {
        entries: vec![(s("a"), MetaValue::MetaBool(true)), (s("a"), MetaValue::MetaBool(false))],
    };
    assert!(!twice.is_well_formed());

    let nested = Meta {
        entries: vec![(
            s("outer"),
            MetaValue::MetaList(vec![
                MetaValue::MetaBool(true),
                MetaValue::MetaMap(Meta {
                    entries: vec![
                        (s("a"), MetaValue::MetaBool(true)),
                        (s("b"), MetaValue::MetaBool(true)),
                        (s("a"), MetaValue::MetaBool(true)),
                    ],
                }),
            ]),
        )],
    };
    assert!(!nested.is_well_formed());
    assert!(!Pandoc { blocks: vec![], meta: nested }.is_well_formed());
    assert!(Pandoc { blocks: vec![], meta: good }.is_well_formed());
    assert!(Pandoc::default().is_well_formed());
}

#[test]
fn a_document_with_a_key_twice_does_not_come_back_as_it_was() {
    let twice = Pandoc {
        blocks: vec![],
        meta: Meta {
            entries: vec![
                (s("a"), MetaValue::MetaBool(true)),
                (s("a"), MetaValue::MetaBool(false)),
            ],
        },
    };
    let back = Pandoc::deserialize(&twice.serialize()).unwrap();
    assert!(back.is_well_formed());
    assert_eq!(back.meta.len(), 1);
    assert_eq!(back.meta.get("a"), Some(&MetaValue::MetaBool(false)));
}

#[test]
fn metadata_is_compared_as_a_mapping() {
    let mut ab = Meta::new();
    ab.insert(s("a"), MetaValue::MetaBool(true));
    ab.insert(s("b"), MetaValue::MetaString(s("x")));
    let mut ba = Meta::new();
    ba.insert(s("b"), MetaValue::MetaString(s("x")));
    ba.insert(s("a"), MetaValue::MetaBool(true));
    assert_eq!(ab, ba);
    assert_eq!(ba, ab);

    let mut other = Meta::new();
    other.insert(s("a"), MetaValue::MetaBool(true));
    other.insert(s("b"), MetaValue::MetaString(s("y")));
    assert_ne!(ab, other);

    let mut fewer = Meta::new();
    fewer.insert(s("a"), MetaValue::MetaBool(true));
    assert_ne!(ab, fewer);
    assert_ne!(fewer, ab);

    let mut renamed = Meta::new();
    renamed.insert(s("a"), MetaValue::MetaBool(true));
    renamed.insert(s("c"), MetaValue::MetaString(s("x")));
    assert_ne!(ab, renamed);

    let nested = |m: Meta| {
        MetaValue::MetaList(vec![MetaValue::MetaMap(m), MetaValue::MetaBool(false)])
    };
    assert_eq!(nested(ab.clone()), nested(ba.clone()));
    assert_ne!(nested(ab.clone()), nested(other));
    assert_ne!(
        MetaValue::MetaList(vec![MetaValue::MetaBool(true), MetaValue::MetaBool(false)]),
        MetaValue::MetaList(vec![MetaValue::MetaBool(false), MetaValue::MetaBool(true)])
    );
    assert_eq!(
        Pandoc { blocks: vec![Block::Null], meta: ab.clone() },
        Pandoc { blocks: vec![Block::Null], meta: ba }
    );
    assert_ne!(
        Pandoc { blocks: vec![Block::Null], meta: ab.clone() },
        Pandoc { blocks: vec![], meta: ab }
    );
}

#[test]
fn the_model_is_at_the_root_of_the_crate_too() {
    let doc: pandoc_types::Pandoc = Pandoc::default();
    assert_eq!(doc.blocks, Vec::<pandoc_types::Block>::new());
    assert_eq!(pandoc_types::Attr::null(), Attr::null());
}
