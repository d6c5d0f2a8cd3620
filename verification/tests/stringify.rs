use pandoc_types::definition::stringify::inline_to;
use pandoc_types::definition::stringify::inlines_to;
use pandoc_types::definition::Attr;
use pandoc_types::definition::Block;
use pandoc_types::definition::Citation;
use pandoc_types::definition::CitationMode;
use pandoc_types::definition::Format;
use pandoc_types::definition::Inline;
use pandoc_types::definition::MathType;
use pandoc_types::definition::QuoteType;
use pandoc_types::definition::Stringify;
use pandoc_types::definition::Target;
use pandoc_types::text::starts_with;
use pandoc_types::text::str_eq;

fn s(text: &str) -> String {
    text.to_string()
}

fn word(text: &str) -> Inline {
    Inline::Str(s(text))
}

#[test]
fn words_and_spaces() {
    let v = vec![word("a"), Inline::Space, word("b")];
    assert_eq!(v.stringify(), "a b");
}

#[test]
fn double_quotes() {
    let q = Inline::Quoted(QuoteType::DoubleQuote, vec![word("x")]);
    assert_eq!(q.stringify(), "\u{201C}x\u{201D}");
    assert_eq!(q.stringify(), "“x”");
}

#[test]
fn single_quotes() {
    let q = Inline::Quoted(QuoteType::SingleQuote, vec![word("x"), Inline::Space, word("y")]);
    assert_eq!(q.stringify(), "\u{2018}x y\u{2019}");
}

#[test]
fn breaks() {
    assert_eq!(Inline::Space.stringify(), " ");
    assert_eq!(Inline::SoftBreak.stringify(), " ");
    assert_eq!(Inline::LineBreak.stringify(), "\n");
}

#[test]
fn literal_text() {
    assert_eq!(word("text").stringify(), "text");
    assert_eq!(Inline::Code(Attr::null(), s("let x")).stringify(), "let x");
    assert_eq!(Inline::Math(MathType::DisplayMath, s("x^2")).stringify(), "x^2");
}

#[test]
fn html_line_break_is_a_space() {
    assert_eq!(Inline::RawInline(Format(s("html")), s("<br>")).stringify(), " ");
    assert_eq!(Inline::RawInline(Format(s("html")), s("<br />")).stringify(), " ");
    assert_eq!(Inline::RawInline(Format(s("html")), s("<br")).stringify(), " ");
}

#[test]
fn other_raw_inlines_give_nothing() {
    assert_eq!(Inline::RawInline(Format(s("html")), s("<b>")).stringify(), "");
    assert_eq!(Inline::RawInline(Format(s("html")), s("<b")).stringify(), "");
    assert_eq!(Inline::RawInline(Format(s("tex")), s("<br>")).stringify(), "");
    assert_eq!(Inline::RawInline(Format(s("HTML")), s("<br>")).stringify(), "");
}

#[test]
fn containers_give_the_text_of_their_children() {
    let inner = || vec![word("a"), Inline::Space, Inline::Emph(vec![word("b")])];
    let target = || Target { url: s("http://example.com"), title: s("title") };
    assert_eq!(Inline::Emph(inner()).stringify(), "a b");
    assert_eq!(Inline::Underline(inner()).stringify(), "a b");
    assert_eq!(Inline::Strong(inner()).stringify(), "a b");
    assert_eq!(Inline::Strikeout(inner()).stringify(), "a b");
    assert_eq!(Inline::Superscript(inner()).stringify(), "a b");
    assert_eq!(Inline::Subscript(inner()).stringify(), "a b");
    assert_eq!(Inline::SmallCaps(inner()).stringify(), "a b");
    assert_eq!(Inline::Link(Attr::null(), inner(), target()).stringify(), "a b");
    assert_eq!(Inline::Image(Attr::null(), inner(), target()).stringify(), "a b");
    assert_eq!(Inline::Span(Attr::null(), inner()).stringify(), "a b");
}

#[test]
fn citation_gives_its_fallback_text() {
    let c = Citation {
        citation_id: s("cite"),
        citation_prefix: vec![word("prefix")],
        citation_suffix: vec![word("suffix")],
        citation_mode: CitationMode::NormalCitation,
        citation_note_num: 0,
        citation_hash: 0,
    };
    let i = Inline::Cite(vec![c], vec![word("[see"), Inline::Space, word("@cite]")]);
    assert_eq!(i.stringify(), "[see @cite]");
}

#[test]
fn note_gives_nothing() {
    let n = Inline::Note(vec![Block::Para(vec![word("hidden")])]);
    assert_eq!(n.stringify(), "");
}

#[test]
fn empty_list_gives_nothing() {
    let v: Vec<Inline> = vec![];
    assert_eq!(v.stringify(), "");
}

#[test]
fn stringify_to_appends() {
    let mut out = s("start:");
    word("a").stringify_to(&mut out);
    vec![Inline::Space, word("b")].stringify_to(&mut out);
    assert_eq!(out, "start:a b");
    inline_to(&Inline::LineBreak, &mut out);
    inlines_to(&vec![word("c")], &mut out);
    assert_eq!(out, "start:a b\nc");
}

#[test]
fn stringify() {
    let target = || Target { url: s("http://example.com"), title: s("") };
    let cite = Citation {
        citation_id: s("cite"),
        citation_prefix: vec![word("see")],
        citation_suffix: vec![],
        citation_mode: CitationMode::NormalCitation,
        citation_note_num: 1,
        citation_hash: 0,
    };
    let inlines = vec![
        word("str"),
        Inline::Space,
        Inline::Emph(vec![word("emph")]),
        Inline::Space,
        Inline::Underline(vec![word("underline")]),
        Inline::Space,
        Inline::Strong(vec![word("strong")]),
        Inline::Space,
        Inline::Strikeout(vec![word("strikeout")]),
        Inline::Space,
        Inline::Superscript(vec![word("superscript")]),
        Inline::Space,
        Inline::Subscript(vec![word("subscript")]),
        Inline::Space,
        Inline::SmallCaps(vec![word("caps")]),
        Inline::Space,
        Inline::Quoted(QuoteType::SingleQuote, vec![word("single")]),
        Inline::Space,
        Inline::Quoted(QuoteType::DoubleQuote, vec![word("double")]),
        Inline::Space,
        Inline::Cite(vec![cite], vec![word("[see"), Inline::Space, word("@cite]")]),
        Inline::Space,
        Inline::Code(Attr::null(), s("code")),
        Inline::Space,
        word("line"),
        Inline::Space,
        word("break:"),
        Inline::LineBreak,
        Inline::Math(MathType::InlineMath, s("math")),
        Inline::Space,
        Inline::RawInline(Format(s("tex")), s("\\raw")),
        Inline::Space,
        Inline::Link(Attr::null(), vec![word("link")], target()),
        Inline::Space,
        Inline::Image(Attr::null(), vec![word("alt")], target()),
    ];
    assert_eq!(inlines.stringify(), "str emph underline strong strikeout superscript subscript caps ‘single’ “double” [see @cite] code line break:\nmath  link alt");
}

#[test]
fn string_comparisons() {
    assert!(str_eq("", ""));
    assert!(str_eq("html", "html"));
    assert!(!str_eq("html", "htm"));
    assert!(!str_eq("html", "htmx"));
    assert!(str_eq("é‘", "é‘"));
    assert!(!str_eq("é", "e"));
    assert!(starts_with("<br/>", "<br"));
    assert!(starts_with("<br", "<br"));
    assert!(starts_with("x", ""));
    assert!(!starts_with("<b", "<br"));
    assert!(!starts_with("‘br", "<br"));
    assert!(starts_with("‘br", "‘"));
}

#[test]
fn decimal_digits() {
    let render = |n: i128| {
        let mut out = String::new();
        pandoc_types::text::push_decimal(&mut out, n);
        out
    };
    assert_eq!(render(0), "0");
    assert_eq!(render(7), "7");
    assert_eq!(render(10), "10");
    assert_eq!(render(1234567890), "1234567890");
    assert_eq!(render(-1), "-1");
    assert_eq!(render(-905), "-905");
    let mut out = s("n=");
    pandoc_types::text::push_decimal_nat(&mut out, 40);
    pandoc_types::text::push_decimal_nat(&mut out, u128::MAX);
    assert_eq!(out, "n=40340282366920938463463374607431768211455");
}
