use pandoc_types::definition::Alignment;
use pandoc_types::definition::Attr;
use pandoc_types::definition::Block;
use pandoc_types::definition::Caption;
use pandoc_types::definition::Cell;
use pandoc_types::definition::ColSpec;
use pandoc_types::definition::ColWidth;
use pandoc_types::definition::Format;
use pandoc_types::definition::Inline;
use pandoc_types::definition::ListAttributes;
use pandoc_types::definition::ListNumberDelim;
use pandoc_types::definition::ListNumberStyle;
use pandoc_types::definition::Meta;
use pandoc_types::definition::MetaValue;
use pandoc_types::definition::Pandoc;
use pandoc_types::definition::QuoteType;
use pandoc_types::definition::Row;
use pandoc_types::definition::Table;
use pandoc_types::definition::TableBody;
use pandoc_types::definition::TableFoot;
use pandoc_types::definition::TableHead;
use pandoc_types::json::Json;
use pandoc_types::json::Number;
use serde_json::Value;

fn from_value(v: &Value) -> Json {
    match v {
        Value::Null => Json::Null,
        Value::Bool(b) => Json::Bool(*b),
        Value::Number(n) => {
            if let Some(i) = n.as_i64() {
                Json::Number(Number::Int(i as i128))
            } else if let Some(u) = n.as_u64() {
                Json::Number(Number::Int(u as i128))
            } else {
                Json::Number(Number::Double(n.as_f64().unwrap().to_bits()))
            }
        }
        Value::String(s) => Json::String(s.clone()),
        Value::Array(items) => Json::Array(items.iter().map(from_value).collect()),
        Value::Object(members) => {
            Json::Object(members.iter().map(|(k, v)| (k.clone(), from_value(v))).collect())
        }
    }
}

fn to_text(j: &Json) -> String {
    match j {
        Json::Null => "null".to_string(),
        Json::Bool(b) => b.to_string(),
        Json::Number(Number::Int(n)) => n.to_string(),
        Json::Number(Number::Double(bits)) => {
            serde_json::Number::from_f64(f64::from_bits(*bits)).unwrap().to_string()
        }
        Json::String(s) => Value::String(s.clone()).to_string(),
        Json::Array(items) => {
            let inner: Vec<String> = items.iter().map(to_text).collect();
            format!("[{}]", inner.join(","))
        }
        Json::Object(members) => {
            let inner: Vec<String> = members
                .iter()
                .map(|(k, v)| format!("{}:{}", Value::String(k.clone()).to_string(), to_text(v)))
                .collect();
            format!("{{{}}}", inner.join(","))
        }
    }
}

fn parse(text: &str) -> Pandoc {
    let value: Value = serde_json::from_str(text).unwrap();
    Pandoc::deserialize(&from_value(&value)).unwrap()
}

fn check_roundtrip_stability(text: &str) -> Pandoc {
    let doc_2 = parse(text);
    let json_3 = to_text(&doc_2.serialize());
    let doc_4 = parse(&json_3);
    assert_eq!(doc_2, doc_4);
    doc_2
}

fn s(text: &str) -> String {
    text.to_string()
}

fn words(text: &str) -> Vec<Inline> {
    let mut out = Vec::new();
    for (i, w) in text.split(' ').enumerate() {
        if i > 0 {
            out.push(Inline::Space);
        }
        out.push(Inline::Str(s(w)));
    }
    out
}

fn plain(text: &str) -> Block {
    Block::Plain(words(text))
}

#[test]
fn empty() {
    let doc = check_roundtrip_stability(r#"{"pandoc-api-version":[1,23,1],"meta":{},"blocks":[]}"#);
    assert_eq!(doc, Pandoc::default());
    assert_eq!(
        to_text(&doc.serialize()),
        r#"{"pandoc-api-version":[1,23],"meta":{},"blocks":[]}"#
    );
}

#[test]
fn title() {
    let doc = check_roundtrip_stability(
        r#"{"pandoc-api-version":[1,23,1],"meta":{"author":{"t":"MetaList","c":[{"t":"MetaInlines","c":[{"t":"Str","c":"author"}]}]},"date":{"t":"MetaInlines","c":[{"t":"Str","c":"date"}]},"title":{"t":"MetaInlines","c":[{"t":"Str","c":"title"}]}},"blocks":[]}"#,
    );
    assert_eq!(doc.meta.get("title"), Some(&MetaValue::MetaInlines(words("title"))));
    assert_eq!(
        doc.meta.get("author"),
        Some(&MetaValue::MetaList(vec![MetaValue::MetaInlines(words("author"))]))
    );
    assert_eq!(doc.meta.len(), 3);
}

#[test]
fn meta() {
    let doc = check_roundtrip_stability(
        r#"{"pandoc-api-version":[1,23,1],"meta":{"author":{"t":"MetaInlines","c":[{"t":"Str","c":"qwer"}]},"date":{"t":"MetaInlines","c":[{"t":"Str","c":"zxcv"}]},"foo":{"t":"MetaInlines","c":[{"t":"Str","c":"bar"}]},"fun":{"t":"MetaList","c":[{"t":"MetaInlines","c":[{"t":"Str","c":"2"}]},{"t":"MetaInlines","c":[{"t":"Str","c":"times"}]},{"t":"MetaInlines","c":[{"t":"Str","c":"2"}]}]},"title":{"t":"MetaInlines","c":[{"t":"Str","c":"asdf"}]}},"blocks":[]}"#,
    );
    assert_eq!(doc.meta.len(), 5);
    assert_eq!(doc.meta.get("title"), Some(&MetaValue::MetaInlines(words("asdf"))));
    assert_eq!(doc.meta.get("author"), Some(&MetaValue::MetaInlines(words("qwer"))));
    assert_eq!(doc.meta.get("date"), Some(&MetaValue::MetaInlines(words("zxcv"))));
    assert_eq!(doc.meta.get("foo"), Some(&MetaValue::MetaInlines(words("bar"))));
    assert_eq!(
        doc.meta.get("fun"),
        Some(&MetaValue::MetaList(vec![
            MetaValue::MetaInlines(words("2")),
            MetaValue::MetaInlines(words("times")),
            MetaValue::MetaInlines(words("2")),
        ]))
    );
}

#[test]
fn meta_of_every_kind() {
    let doc = check_roundtrip_stability(
        r#"{"pandoc-api-version":[1,23],"meta":{"draft":{"t":"MetaBool","c":true},"nested":{"t":"MetaMap","c":{"k":{"t":"MetaString","c":"v"}}},"long":{"t":"MetaBlocks","c":[{"t":"Para","c":[{"t":"Str","c":"p"}]}]}},"blocks":[]}"#,
    );
    assert_eq!(doc.meta.len(), 3);
    assert_eq!(doc.meta.get("draft"), Some(&MetaValue::MetaBool(true)));
    let mut nested = Meta::new();
    nested.insert(s("k"), MetaValue::MetaString(s("v")));
    assert_eq!(doc.meta.get("nested"), Some(&MetaValue::MetaMap(nested)));
    assert_eq!(
        doc.meta.get("long"),
        Some(&MetaValue::MetaBlocks(vec![Block::Para(words("p"))]))
    );
}

#[test]
fn para() {
    let text = r#"{"pandoc-api-version":[1,23,1],"meta":{},"blocks":[{"t":"Para","c":[{"t":"Str","c":"first"},{"t":"Space"},{"t":"Str","c":"paragraph"}]},{"t":"Para","c":[{"t":"Str","c":"second"},{"t":"Space"},{"t":"Str","c":"paragraph"}]}]}"#;
    let doc = check_roundtrip_stability(text);
    assert_eq!(
        doc.blocks,
        vec![Block::Para(words("first paragraph")), Block::Para(words("second paragraph"))]
    );
    assert_eq!(to_text(&doc.serialize()), text.replace("[1,23,1]", "[1,23]"));
}

#[test]
fn line_block() {
    let text = r#"{"pandoc-api-version":[1,23],"meta":{},"blocks":[{"t":"LineBlock","c":[[{"t":"Str","c":"line"}],[{"t":"Str","c":"block"}]]}]}"#;
    let doc = check_roundtrip_stability(text);
    assert_eq!(doc.blocks, vec![Block::LineBlock(vec![words("line"), words("block")])]);
    assert_eq!(to_text(&doc.serialize()), text);
}

#[test]
fn code_block() {
    let text = r#"{"pandoc-api-version":[1,23],"meta":{},"blocks":[{"t":"CodeBlock","c":[["",["bash"],[]],"$ echo hi\n$ uname -a"]}]}"#;
    let doc = check_roundtrip_stability(text);
    assert_eq!(
        doc.blocks,
        vec![Block::CodeBlock(
            Attr { identifier: s(""), classes: vec![s("bash")], attributes: vec![] },
            s("$ echo hi\n$ uname -a")
        )]
    );
    assert_eq!(to_text(&doc.serialize()), text);
}

#[test]
fn raw_block() {
    let text = r#"{"pandoc-api-version":[1,23],"meta":{},"blocks":[{"t":"CodeBlock","c":[["",["bash"],[]],"\\begin{enumerate}\n\\item one\n\\item two\n\\end{enumerate}"]}]}"#;
    let doc = check_roundtrip_stability(text);
    assert_eq!(
        doc.blocks,
        vec![Block::CodeBlock(
            Attr { identifier: s(""), classes: vec![s("bash")], attributes: vec![] },
            s("\\begin{enumerate}\n\\item one\n\\item two\n\\end{enumerate}")
        )]
    );
    assert_eq!(to_text(&doc.serialize()), text);
}

#[test]
fn raw_block_of_a_format() {
    let text = r#"{"pandoc-api-version":[1,23],"meta":{},"blocks":[{"t":"RawBlock","c":["latex","\\begin{enumerate}\n\\item one\n\\end{enumerate}"]}]}"#;
    let doc = check_roundtrip_stability(text);
    assert_eq!(
        doc.blocks,
        vec![Block::RawBlock(
            Format(s("latex")),
            s("\\begin{enumerate}\n\\item one\n\\end{enumerate}")
        )]
    );
    assert_eq!(to_text(&doc.serialize()), text);
}

fn words_json(text: &str) -> String {
    let parts: Vec<String> = text
        .split(' ')
        .map(|w| {
            if w == "\n" {
                r#"{"t":"SoftBreak"}"#.to_string()
            } else {
                format!(r#"{{"t":"Str","c":{}}}"#, Value::String(w.to_string()).to_string())
            }
        })
        .collect();
    let mut out = String::new();
    for (i, part) in parts.iter().enumerate() {
        if i > 0 {
            let soft = part.contains("SoftBreak") || parts[i - 1].contains("SoftBreak");
            if !soft {
                out.push_str(r#"{"t":"Space"},"#);
            }
        }
        out.push_str(part);
        if i + 1 < parts.len() {
            out.push(',');
        }
    }
    format!("[{}]", out)
}

fn lines(text: &str) -> Vec<Inline> {
    let mut out = Vec::new();
    for (i, w) in text.split(' ').enumerate() {
        if w == "\n" {
            out.push(Inline::SoftBreak);
            continue;
        }
        if i > 0 && out.last() != Some(&Inline::SoftBreak) {
            out.push(Inline::Space);
        }
        out.push(Inline::Str(s(w)));
    }
    out
}

#[test]
fn block_quote() {
    let quote = "Don’t worry about what anybody else is going to do. The best way to \n predict the future is to invent it.";
    let text = format!(
        r#"{{"pandoc-api-version":[1,23],"meta":{{}},"blocks":[{{"t":"BlockQuote","c":[{{"t":"Para","c":[{{"t":"Quoted","c":[{{"t":"DoubleQuote"}},{}]}}]}},{{"t":"Para","c":{}}}]}}]}}"#,
        words_json(quote),
        words_json("— Alan Kay")
    );
    let doc = check_roundtrip_stability(&text);
    assert_eq!(
        doc.blocks,
        vec![Block::BlockQuote(vec![
            Block::Para(vec![Inline::Quoted(QuoteType::DoubleQuote, lines(quote))]),
            Block::Para(words("— Alan Kay")),
        ])]
    );
    assert_eq!(to_text(&doc.serialize()), text);
}

#[test]
fn lists() {
    let item = |t: &str| format!(r#"[{{"t":"Plain","c":{}}}]"#, words_json(t));
    let text = format!(
        r#"{{"pandoc-api-version":[1,23],"meta":{{}},"blocks":[{{"t":"OrderedList","c":[[1,{{"t":"Decimal"}},{{"t":"Period"}}],[{},[{{"t":"Plain","c":{}}},{{"t":"BulletList","c":[{}]}}]]]}},{{"t":"OrderedList","c":[[1,{{"t":"LowerAlpha"}},{{"t":"Period"}}],[{},{},{}]]}},{{"t":"BulletList","c":[{},{},{}]}},{{"t":"DefinitionList","c":[[{},[{}]]]}}]}}"#,
        item("d \n e"),
        words_json("f"),
        item("g"),
        item("1"),
        item("2"),
        item("3"),
        item("a"),
        item("b"),
        item("c"),
        words_json("fun"),
        item("something you do with friends"),
    );
    let doc = check_roundtrip_stability(&text);
    assert_eq!(
        doc.blocks,
        vec![
            Block::OrderedList(
                ListAttributes {
                    start_number: 1,
                    style: ListNumberStyle::Decimal,
                    delim: ListNumberDelim::Period
                },
                vec![
                    vec![Block::Plain(lines("d \n e"))],
                    vec![plain("f"), Block::BulletList(vec![vec![plain("g")]])],
                ]
            ),
            Block::OrderedList(
                ListAttributes {
                    start_number: 1,
                    style: ListNumberStyle::LowerAlpha,
                    delim: ListNumberDelim::Period
                },
                vec![vec![plain("1")], vec![plain("2")], vec![plain("3")]]
            ),
            Block::BulletList(vec![vec![plain("a")], vec![plain("b")], vec![plain("c")]]),
            Block::DefinitionList(vec![(
                words("fun"),
                vec![vec![plain("something you do with friends")]]
            )]),
        ]
    );
    assert_eq!(to_text(&doc.serialize()), text);
}

#[test]
fn headers() {
    let names = ["a", "b", "c", "d", "e", "f"];
    let parts: Vec<String> = names
        .iter()
        .enumerate()
        .map(|(i, n)| {
            format!(
                r#"{{"t":"Header","c":[{},["{}",[],[]],[{{"t":"Str","c":"{}"}}]]}}"#,
                i + 1,
                n,
                n
            )
        })
        .collect();
    let text = format!(
        r#"{{"pandoc-api-version":[1,23],"meta":{{}},"blocks":[{}]}}"#,
        parts.join(",")
    );
    let doc = check_roundtrip_stability(&text);
    let expected: Vec<Block> = names
        .iter()
        .enumerate()
        .map(|(i, n)| {
            Block::Header(
                i as i32 + 1,
                Attr { identifier: s(n), classes: vec![], attributes: vec![] },
                words(n),
            )
        })
        .collect();
    assert_eq!(doc.blocks, expected);
    assert_eq!(to_text(&doc.serialize()), text);
}

#[test]
fn horizontal_rule() {
    let text = r#"{"pandoc-api-version":[1,23],"meta":{},"blocks":[{"t":"HorizontalRule"}]}"#;
    let doc = check_roundtrip_stability(text);
    assert_eq!(doc.blocks, vec![Block::HorizontalRule]);
    assert_eq!(to_text(&doc.serialize()), text);
}

fn cell_json(t: &str) -> String {
    format!(r#"[["",[],[]],{{"t":"AlignDefault"}},1,1,[{{"t":"Plain","c":{}}}]]"#, words_json(t))
}

fn row_json(cells: &[&str]) -> String {
    let inner: Vec<String> = cells.iter().map(|c| cell_json(c)).collect();
    format!(r#"[["",[],[]],[{}]]"#, inner.join(","))
}

#[test]
fn table() {
    let text = format!(
        r#"{{"pandoc-api-version":[1,23],"meta":{{}},"blocks":[{{"t":"Table","c":[["",[],[]],[null,[]],[[{{"t":"AlignRight"}},{{"t":"ColWidthDefault"}}],[{{"t":"AlignLeft"}},{{"t":"ColWidthDefault"}}],[{{"t":"AlignCenter"}},{{"t":"ColWidthDefault"}}]],[["",[],[]],[{}]],[[["",[],[]],0,[],[{},{}]]],[["",[],[]],[]]]}}]}}"#,
        row_json(&["right", "left", "center"]),
        row_json(&["1", "2", "3"]),
        row_json(&["4", "5", "6"]),
    );
    let doc = check_roundtrip_stability(&text);
    let cell = |t: &str| Cell {
        attr: Attr::null(),
        align: Alignment::AlignDefault,
        row_span: 1,
        col_span: 1,
        content: vec![plain(t)],
    };
    let row = |cells: &[&str]| Row {
        attr: Attr::null(),
        cells: cells.iter().map(|c| cell(c)).collect(),
    };
    assert_eq!(
        doc.blocks,
        vec![Block::Table(Table {
            attr: Attr::null(),
            caption: Caption { short: None, long: vec![] },
            colspecs: vec![
                ColSpec(Alignment::AlignRight, ColWidth::ColWidthDefault),
                ColSpec(Alignment::AlignLeft, ColWidth::ColWidthDefault),
                ColSpec(Alignment::AlignCenter, ColWidth::ColWidthDefault),
            ],
            head: TableHead { attr: Attr::null(), rows: vec![row(&["right", "left", "center"])] },
            bodies: vec![TableBody {
                attr: Attr::null(),
                row_head_columns: 0,
                head: vec![],
                body: vec![row(&["1", "2", "3"]), row(&["4", "5", "6"])],
            }],
            foot: TableFoot { attr: Attr::null(), rows: vec![] },
        })]
    );
    assert_eq!(to_text(&doc.serialize()), text);
}

#[test]
fn table_with_a_column_width() {
    let text = r#"{"pandoc-api-version":[1,23],"meta":{},"blocks":[{"t":"Table","c":[["",[],[]],[null,[]],[[{"t":"AlignRight"},{"t":"ColWidthDefault"}],[{"t":"AlignLeft"},{"t":"ColWidth","c":0.25}]],[["",[],[]],[[["",[],[]],[[["",[],[]],{"t":"AlignDefault"},1,1,[{"t":"Plain","c":[{"t":"Str","c":"right"}]}]],[["",[],[]],{"t":"AlignDefault"},1,1,[{"t":"Plain","c":[{"t":"Str","c":"left"}]}]]]]]],[[["",[],[]],0,[],[[["",[],[]],[[["",[],[]],{"t":"AlignDefault"},1,1,[{"t":"Plain","c":[{"t":"Str","c":"1"}]}]],[["",[],[]],{"t":"AlignDefault"},1,1,[{"t":"Plain","c":[{"t":"Str","c":"2"}]}]]]]]]],[["",[],[]],[]]]}]}"#;
    let doc = check_roundtrip_stability(text);
    let cell = |t: &str| Cell {
        attr: Attr::null(),
        align: Alignment::AlignDefault,
        row_span: 1,
        col_span: 1,
        content: vec![plain(t)],
    };
    assert_eq!(
        doc.blocks,
        vec![Block::Table(Table {
            attr: Attr::null(),
            caption: Caption { short: None, long: vec![] },
            colspecs: vec![
                ColSpec(Alignment::AlignRight, ColWidth::ColWidthDefault),
                ColSpec(
                    Alignment::AlignLeft,
                    ColWidth::ColWidth(Number::Double(0.25f64.to_bits()))
                ),
            ],
            head: TableHead {
                attr: Attr::null(),
                rows: vec![Row { attr: Attr::null(), cells: vec![cell("right"), cell("left")] }],
            },
            bodies: vec![TableBody {
                attr: Attr::null(),
                row_head_columns: 0,
                head: vec![],
                body: vec![Row { attr: Attr::null(), cells: vec![cell("1"), cell("2")] }],
            }],
            foot: TableFoot { attr: Attr::null(), rows: vec![] },
        })]
    );
    assert_eq!(to_text(&doc.serialize()), text);
}

#[test]
fn div() {
    let text = r#"{"pandoc-api-version":[1,23],"meta":{},"blocks":[{"t":"Div","c":[["foo",["bar"],[]],[{"t":"BulletList","c":[[{"t":"Plain","c":[{"t":"Str","c":"1"}]}],[{"t":"Plain","c":[{"t":"Str","c":"2"}]}],[{"t":"Plain","c":[{"t":"Str","c":"3"}]}]]}]]}]}"#;
    let doc = check_roundtrip_stability(text);
    assert_eq!(
        doc.blocks,
        vec![Block::Div(
            Attr { identifier: s("foo"), classes: vec![s("bar")], attributes: vec![] },
            vec![Block::BulletList(vec![vec![plain("1")], vec![plain("2")], vec![plain("3")]])]
        )]
    );
    assert_eq!(to_text(&doc.serialize()), text);
}

#[test]
fn div_with_attribute_pairs() {
    let text = r#"{"pandoc-api-version":[1,23],"meta":{},"blocks":[{"t":"Div","c":[["",[],[["k","v"],["data-x","1"]]],[]]}]}"#;
    let doc = check_roundtrip_stability(text);
    assert_eq!(
        doc.blocks,
        vec![Block::Div(
            Attr {
                identifier: s(""),
                classes: vec![],
                attributes: vec![(s("k"), s("v")), (s("data-x"), s("1"))]
            },
            vec![]
        )]
    );
    assert_eq!(to_text(&doc.serialize()), text);
}

#[test]
fn inline_roundtrip() {
    let text = r#"{"pandoc-api-version":[1,23],"meta":{},"blocks":[{"t":"Para","c":[{"t":"Emph","c":[{"t":"Str","c":"emph"}]},{"t":"Space"},{"t":"Cite","c":[[{"citationId":"cite","citationPrefix":[{"t":"Str","c":"see"}],"citationSuffix":[],"citationMode":{"t":"NormalCitation"},"citationNoteNum":1,"citationHash":0}],[{"t":"Str","c":"[see"},{"t":"Space"},{"t":"Str","c":"@cite]"}]]},{"t":"Code","c":[["",[],[]],"code"]},{"t":"LineBreak"},{"t":"Math","c":[{"t":"InlineMath"},"math"]},{"t":"RawInline","c":["html","<br>"]},{"t":"Link","c":[["",[],[]],[{"t":"Str","c":"link"}],["http://example.com",""]]},{"t":"Image","c":[["",[],[]],[{"t":"Str","c":"alt"}],["i.png","title"]]},{"t":"Note","c":[{"t":"Para","c":[{"t":"Span","c":[["",["asdf"],[]],[{"t":"Str","c":"span"}]]}]}]}]}]}"#;
    let doc = check_roundtrip_stability(text);
    assert_eq!(to_text(&doc.serialize()), text);
}

#[test]
fn malformed_documents_are_rejected() {
    let reject = |text: &str| {
        let value: Value = serde_json::from_str(text).unwrap();
        assert!(Pandoc::deserialize(&from_value(&value)).is_err(), "accepted {}", text);
    };
    reject(r#"{"pandoc-api-version":[],"meta":{},"blocks":[]}"#);
    reject(r#"{"pandoc-api-version":[1,24],"meta":{},"blocks":[]}"#);
    reject(r#"{"pandoc-api-version":[1.0,23],"meta":{},"blocks":[]}"#);
    reject(r#"{"pandoc-api-version":[1,23],"meta":{}}"#);
    reject(r#"{"pandoc-api-version":[1,23],"meta":[],"blocks":[]}"#);
    reject(r#"{"pandoc-api-version":[1,23],"meta":{},"blocks":{}}"#);
    reject(r#"{"pandoc-api-version":[1,23],"meta":{},"blocks":[{"t":"Para"}]}"#);
    reject(r#"{"pandoc-api-version":[1,23],"meta":{},"blocks":[{"t":"Blink","c":[]}]}"#);
    reject(r#"{"pandoc-api-version":[1,23],"meta":{},"blocks":[{"c":[]}]}"#);
    reject(r#"[1,23]"#);
}
