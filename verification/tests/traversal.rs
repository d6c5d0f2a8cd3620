use pandoc_types::definition::Alignment;
use pandoc_types::definition::Attr;
use pandoc_types::definition::Block;
use pandoc_types::definition::Caption;
use pandoc_types::definition::Cell;
use pandoc_types::definition::Format;
use pandoc_types::definition::Inline;
use pandoc_types::definition::IterBlocks;
use pandoc_types::definition::IterInlines;
use pandoc_types::definition::ListAttributes;
use pandoc_types::definition::MathType;
use pandoc_types::definition::Meta;
use pandoc_types::definition::Pandoc;
use pandoc_types::definition::QuoteType;
use pandoc_types::definition::Row;
use pandoc_types::definition::Table;
use pandoc_types::definition::TableBody;
use pandoc_types::definition::TableFoot;
use pandoc_types::definition::TableHead;
use pandoc_types::definition::Target;

fn s(text: &str) -> String {
    text.to_string()
}

fn para(text: &str) -> Block {
    Block::Para(vec![Inline::Str(s(text))])
}

fn word(text: &str) -> Inline {
    Inline::Str(s(text))
}

fn cell(texts: &[&str]) -> Cell {
    Cell {
        attr: Attr::null(),
        align: Alignment::AlignDefault,
        row_span: 1,
        col_span: 1,
        content: texts.iter().map(|t| para(t)).collect(),
    }
}

fn row(cells: Vec<Cell>) -> Row {
    Row { attr: Attr::null(), cells }
}

fn table() -> Table {
    Table {
        attr: Attr::null(),
        caption: Caption { short: Some(vec![word("s1"), word("s2")]), long: vec![para("L1"), para("L2")] },
        colspecs: vec![],
        head: TableHead {
            attr: Attr::null(),
            rows: vec![row(vec![cell(&["H1"]), cell(&["H2", "H3"])]), row(vec![cell(&["H4"])])],
        },
        bodies: vec![
            TableBody {
                attr: Attr::null(),
                row_head_columns: 0,
                head: vec![row(vec![cell(&["A1"])])],
                body: vec![row(vec![cell(&["A2"]), cell(&[])]), row(vec![cell(&["A3"])])],
            },
            TableBody {
                attr: Attr::null(),
                row_head_columns: 0,
                head: vec![],
                body: vec![row(vec![cell(&["B1", "B2"])])],
            },
        ],
        foot: TableFoot { attr: Attr::null(), rows: vec![row(vec![cell(&["F1"])])] },
    }
}

fn texts(blocks: &[&Block]) -> Vec<String> {
    blocks
        .iter()
        .map(|b| match b {
            Block::Para(v) => match &v[..] {
                [Inline::Str(t)] => t.clone(),
                _ => panic!("expected one word"),
            },
            _ => panic!("expected a paragraph"),
        })
        .collect()
}

fn words(inlines: &[&Inline]) -> Vec<String> {
    inlines
        .iter()
        .map(|i| match i {
            Inline::Str(t) => t.clone(),
            _ => panic!("expected a word"),
        })
        .collect()
}

fn make_blocks_uppercase(blocks: Vec<&mut Block>) {
    for block in blocks {
        if let Block::Para(inlines) | Block::Plain(inlines) = block {
            make_inlines_uppercase(inlines.iter_mut().collect());
        }
        make_blocks_uppercase(block.iter_blocks_mut());
        make_inlines_uppercase(block.iter_inlines_mut());
    }
}

fn make_inlines_uppercase(inlines: Vec<&mut Inline>) {
    for inline in inlines {
        if let Inline::Str(text) = inline {
            *text = text.to_uppercase()
        }
        make_inlines_uppercase(inline.iter_inlines_mut());
        make_blocks_uppercase(inline.iter_blocks_mut());
    }
}

#[test]
fn bullet_list_yields_the_blocks_of_its_items_in_order() {
    let list = Block::BulletList(vec![vec![para("A")], vec![para("B"), para("C")]]);
    let a = para("A");
    let b = para("B");
    let c = para("C");
    assert_eq!(list.iter_blocks(), vec![&a, &b, &c]);
}

#[test]
fn ordered_list_yields_the_blocks_of_its_items_in_order() {
    let list = Block::OrderedList(
        ListAttributes::default(),
        vec![vec![], vec![para("A"), para("B")], vec![para("C")]],
    );
    assert_eq!(texts(&list.iter_blocks()), vec!["A", "B", "C"]);
    assert!(list.iter_inlines().is_empty());
}

#[test]
fn containers_yield_their_blocks() {
    let quote = Block::BlockQuote(vec![para("A"), para("B")]);
    assert_eq!(texts(&quote.iter_blocks()), vec!["A", "B"]);
    let div = Block::Div(Attr::null(), vec![para("C")]);
    assert_eq!(texts(&div.iter_blocks()), vec!["C"]);
    let figure = Block::Figure(
        Attr::null(),
        Caption { short: Some(vec![word("x")]), long: vec![para("caption")] },
        vec![para("D"), para("E")],
    );
    assert_eq!(texts(&figure.iter_blocks()), vec!["D", "E"]);
    assert!(figure.iter_inlines().is_empty());
}

#[test]
fn definition_list_yields_definitions_as_blocks_and_terms_as_inlines() {
    let list = Block::DefinitionList(vec![
        (vec![word("t1"), word("t2")], vec![vec![para("A")], vec![para("B"), para("C")]]),
        (vec![word("t3")], vec![vec![], vec![para("D")]]),
    ]);
    assert_eq!(texts(&list.iter_blocks()), vec!["A", "B", "C", "D"]);
    assert_eq!(words(&list.iter_inlines()), vec!["t1", "t2", "t3"]);
}

#[test]
fn table_yields_caption_head_bodies_foot() {
    let expected =
        vec!["L1", "L2", "H1", "H2", "H3", "H4", "A1", "A2", "A3", "B1", "B2", "F1"];
    assert_eq!(texts(&table().iter_blocks()), expected);
    let block = Block::Table(table());
    assert_eq!(texts(&block.iter_blocks()), expected);
    assert_eq!(words(&block.iter_inlines()), vec!["s1", "s2"]);
}

#[test]
fn table_without_short_caption_has_no_child_inlines() {
    let mut t = table();
    t.caption.short = None;
    assert!(Block::Table(t).iter_inlines().is_empty());
}

#[test]
fn header_yields_its_inlines() {
    let h = Block::Header(1, Attr::null(), vec![word("a"), word("b")]);
    assert_eq!(words(&h.iter_inlines()), vec!["a", "b"]);
    assert!(h.iter_blocks().is_empty());
}

#[test]
fn text_blocks_and_leaves_have_no_children() {
    let blocks = vec![
        Block::Plain(vec![word("a")]),
        Block::Para(vec![word("a")]),
        Block::LineBlock(vec![vec![word("a")], vec![word("b")]]),
        Block::CodeBlock(Attr::null(), s("x")),
        Block::RawBlock(Format(s("html")), s("<hr>")),
        Block::HorizontalRule,
        Block::Null,
    ];
    for b in blocks.iter() {
        assert!(b.iter_blocks().is_empty());
        assert!(b.iter_inlines().is_empty());
    }
}

#[test]
fn inline_containers_yield_their_inlines() {
    let inner = || vec![word("a"), word("b")];
    let target = || Target { url: s("u"), title: s("t") };
    let containers = vec![
        Inline::Emph(inner()),
        Inline::Underline(inner()),
        Inline::Strong(inner()),
        Inline::Strikeout(inner()),
        Inline::Superscript(inner()),
        Inline::Subscript(inner()),
        Inline::SmallCaps(inner()),
        Inline::Quoted(QuoteType::SingleQuote, inner()),
        Inline::Cite(vec![], inner()),
        Inline::Link(Attr::null(), inner(), target()),
        Inline::Image(Attr::null(), inner(), target()),
        Inline::Span(Attr::null(), inner()),
    ];
    for i in containers.iter() {
        assert_eq!(words(&i.iter_inlines()), vec!["a", "b"]);
        assert!(i.iter_blocks().is_empty());
    }
}

#[test]
fn inline_leaves_have_no_children() {
    let leaves = vec![
        word("a"),
        Inline::Code(Attr::null(), s("c")),
        Inline::Space,
        Inline::SoftBreak,
        Inline::LineBreak,
        Inline::Math(MathType::InlineMath, s("x")),
        Inline::RawInline(Format(s("tex")), s("\\x")),
    ];
    for i in leaves.iter() {
        assert!(i.iter_inlines().is_empty());
        assert!(i.iter_blocks().is_empty());
    }
}

#[test]
fn note_yields_its_blocks() {
    let note = Inline::Note(vec![para("A"), para("B")]);
    assert_eq!(texts(&note.iter_blocks()), vec!["A", "B"]);
    assert!(note.iter_inlines().is_empty());
}

#[test]
fn document_yields_its_blocks() {
    let doc = Pandoc { blocks: vec![para("A"), para("B")], meta: Meta::new() };
    assert_eq!(texts(&doc.iter_blocks()), vec!["A", "B"]);
}

#[test]
fn handles_come_in_the_order_of_the_children() {
    let mut list = Block::BulletList(vec![vec![para("A")], vec![para("B"), para("C")]]);
    let handles = list.iter_blocks_mut();
    let got: Vec<&Block> = handles.iter().map(|h| &**h).collect();
    assert_eq!(texts(&got), vec!["A", "B", "C"]);
    let mut t = Block::Table(table());
    let handles = t.iter_blocks_mut();
    let got: Vec<&Block> = handles.iter().map(|h| &**h).collect();
    assert_eq!(
        texts(&got),
        vec!["L1", "L2", "H1", "H2", "H3", "H4", "A1", "A2", "A3", "B1", "B2", "F1"]
    );
    let handles = t.iter_inlines_mut();
    let got: Vec<&Inline> = handles.iter().map(|h| &**h).collect();
    assert_eq!(words(&got), vec!["s1", "s2"]);
}

#[test]
fn changing_one_child_leaves_the_others() {
    let mut list = Block::BulletList(vec![vec![para("A")], vec![para("B"), para("C")]]);
    {
        let mut handles = list.iter_blocks_mut();
        *handles[1] = Block::HorizontalRule;
    }
    assert_eq!(
        list,
        Block::BulletList(vec![vec![para("A")], vec![Block::HorizontalRule, para("C")]])
    );
}

#[test]
fn changing_a_word_in_one_paragraph_leaves_its_siblings_byte_identical() {
    let mut doc = Pandoc {
        blocks: vec![Block::Div(Attr::null(), vec![para("one"), para("two"), para("three")])],
        meta: Meta::new(),
    };
    let before = doc.serialize();
    let sibling_before: Vec<_> =
        doc.blocks[0].iter_blocks().iter().map(|b| b.serialize()).collect();
    for outer in doc.iter_blocks_mut() {
        let mut children = outer.iter_blocks_mut();
        if let Block::Para(inlines) = &mut *children[1] {
            if let Inline::Str(text) = &mut inlines[0] {
                *text = s("TWO");
            }
        }
    }
    let sibling_after: Vec<_> =
        doc.blocks[0].iter_blocks().iter().map(|b| b.serialize()).collect();
    assert_eq!(sibling_after[0], sibling_before[0]);
    assert_eq!(sibling_after[2], sibling_before[2]);
    assert_ne!(sibling_after[1], sibling_before[1]);
    assert_eq!(sibling_after[1], para("TWO").serialize());
    assert_ne!(doc.serialize(), before);
    assert_eq!(
        doc,
        Pandoc {
            blocks: vec![Block::Div(Attr::null(), vec![para("one"), para("TWO"), para("three")])],
            meta: Meta::new(),
        }
    );
}

#[test]
fn handles_that_are_not_used_change_nothing() {
    let mut t = Block::Table(table());
    {
        let _blocks = t.iter_blocks_mut();
    }
    {
        let _inlines = t.iter_inlines_mut();
    }
    assert_eq!(t, Block::Table(table()));
}

#[test]
fn iter_mut_blocks() {
    let mut doc = Pandoc {
        blocks: vec![
            Block::Header(1, Attr::null(), vec![word("title")]),
            para("first"),
            Block::BlockQuote(vec![para("quoted"), Block::BulletList(vec![vec![para("item")]])]),
            Block::DefinitionList(vec![(vec![word("term")], vec![vec![para("meaning")]])]),
            Block::Para(vec![
                Inline::Emph(vec![word("emph")]),
                Inline::Note(vec![para("note")]),
                Inline::Code(Attr::null(), s("code")),
            ]),
        ],
        meta: Meta::new(),
    };
    make_blocks_uppercase(doc.blocks.iter_mut().collect());
    assert_eq!(
        doc.blocks,
        vec![
            Block::Header(1, Attr::null(), vec![word("TITLE")]),
            para("FIRST"),
            Block::BlockQuote(vec![para("QUOTED"), Block::BulletList(vec![vec![para("ITEM")]])]),
            Block::DefinitionList(vec![(vec![word("TERM")], vec![vec![para("MEANING")]])]),
            Block::Para(vec![
                Inline::Emph(vec![word("EMPH")]),
                Inline::Note(vec![para("NOTE")]),
                Inline::Code(Attr::null(), s("code")),
            ]),
        ]
    );
}

#[test]
fn iter_mut_tables() {
    let mut doc = Pandoc { blocks: vec![Block::Table(table())], meta: Meta::new() };
    make_blocks_uppercase(doc.blocks.iter_mut().collect());
    match &doc.blocks[0] {
        Block::Table(t) => {
            assert_eq!(
                texts(&t.iter_blocks()),
                vec!["L1", "L2", "H1", "H2", "H3", "H4", "A1", "A2", "A3", "B1", "B2", "F1"]
            );
            assert_eq!(t.caption.short, Some(vec![word("S1"), word("S2")]));
            assert_eq!(t.head.rows.len(), 2);
            assert_eq!(t.bodies[0].body[0].cells.len(), 2);
        }
        _ => panic!("expected a table"),
    }
    let mut lower = Pandoc {
        blocks: vec![Block::Table(Table {
            head: TableHead { attr: Attr::null(), rows: vec![row(vec![cell(&["right"])])] },
            ..Table::default()
        })],
        meta: Meta::new(),
    };
    make_blocks_uppercase(lower.blocks.iter_mut().collect());
    match &lower.blocks[0] {
        Block::Table(t) => assert_eq!(texts(&t.iter_blocks()), vec!["RIGHT"]),
        _ => panic!("expected a table"),
    }
}
