//! The plain text of inlines, with all formatting removed.

use crate::definition::view::inlines_view;
use crate::definition::view::InlineView;
use crate::definition::Inline;
use crate::definition::QuoteType;
use crate::text::is_prefix;
use crate::text::starts_with;
use crate::text::str_eq;
use vstd::prelude::*;
use vstd::string::StringExecFns;

verus! {

/// Whether a raw inline is an HTML line break: its format is `html` and its
/// text begins with `<br`.
pub open spec fn is_html_break(format: Seq<char>, raw: Seq<char>) -> bool {
    format == "html"@ && is_prefix("<br"@, raw)
}

/// The plain text of an inline.
///
/// Text, code and math give their text as it is. A space, a soft break and
/// an HTML line break give one space, a hard line break a newline. Quoted
/// text stands between typographic quotation marks. Every other container
/// gives the text of the inlines that it contains, and nothing between
/// them. A note and any other raw inline give nothing.
pub open spec fn stringify_inline(i: InlineView) -> Seq<char>
    decreases i,
{
    match i {
        InlineView::Space => seq![' '],
        InlineView::SoftBreak => seq![' '],
        InlineView::Str(s) => s,
        InlineView::Code(_, s) => s,
        InlineView::Math(_, s) => s,
        InlineView::RawInline(format, raw) => if is_html_break(format, raw) {
            seq![' ']
        } else {
            Seq::empty()
        },
        InlineView::LineBreak => seq!['\n'],
        InlineView::Quoted(QuoteType::SingleQuote, v) => seq!['\u{2018}'] + stringify_inlines(v)
            + seq!['\u{2019}'],
        InlineView::Quoted(QuoteType::DoubleQuote, v) => seq!['\u{201C}'] + stringify_inlines(v)
            + seq!['\u{201D}'],
        InlineView::Emph(v) => stringify_inlines(v),
        InlineView::Underline(v) => stringify_inlines(v),
        InlineView::Strong(v) => stringify_inlines(v),
        InlineView::Strikeout(v) => stringify_inlines(v),
        InlineView::Superscript(v) => stringify_inlines(v),
        InlineView::Subscript(v) => stringify_inlines(v),
        InlineView::SmallCaps(v) => stringify_inlines(v),
        InlineView::Cite(_, v) => stringify_inlines(v),
        InlineView::Link(_, v, _) => stringify_inlines(v),
        InlineView::Image(_, v, _) => stringify_inlines(v),
        InlineView::Span(_, v) => stringify_inlines(v),
        InlineView::Note(_) => Seq::empty(),
    }
}

/// The plain text of a list of inlines: the text of each, in order.
pub open spec fn stringify_inlines(s: Seq<InlineView>) -> Seq<char>
    decreases s,
{
    if s.len() == 0 {
        Seq::empty()
    } else {
        stringify_inlines(s.drop_last()) + stringify_inline(s.last())
    }
}

/// But for quoted text, a container's text is the text of its child
/// inlines, and what contains no inlines and is no text gives nothing.
pub proof fn law_stringify_children(i: InlineView)
    ensures
        match i {
            InlineView::Space => true,
            InlineView::SoftBreak => true,
            InlineView::LineBreak => true,
            InlineView::Str(_) => true,
            InlineView::Code(_, _) => true,
            InlineView::Math(_, _) => true,
            InlineView::RawInline(_, _) => true,
            InlineView::Quoted(_, _) => true,
            _ => stringify_inline(i) == stringify_inlines(i.child_inlines()),
        },
{
    assert(stringify_inlines(Seq::empty()) == Seq::<char>::empty());
}

/// The text of two lists one after the other is the text of the first,
/// then that of the second.
pub proof fn law_stringify_concat(a: Seq<InlineView>, b: Seq<InlineView>)
    ensures
        stringify_inlines(a + b) == stringify_inlines(a) + stringify_inlines(b),
    decreases b.len(),
{
    if b.len() == 0 {
        assert(a + b =~= a);
        assert(stringify_inlines(a) + stringify_inlines(b) =~= stringify_inlines(a));
    } else {
        law_stringify_concat(a, b.drop_last());
        assert((a + b).drop_last() =~= a + b.drop_last());
        assert((a + b).last() == b.last());
        assert(stringify_inlines(a + b) =~= stringify_inlines(a) + stringify_inlines(b));
    }
}

/// Converts an element into a string with all formatting removed.
pub trait Stringify {
    /// The plain text of the element.
    spec fn stringified(&self) -> Seq<char>;

    /// The plain text of the element.
    fn stringify(&self) -> (s: String)
        ensures
            s@ == self.stringified(),
    ;

    /// Appends the plain text of the element to `out`.
    fn stringify_to(&self, out: &mut String)
        ensures
            final(out)@ == old(out)@ + self.stringified(),
    ;
}

/// Appends the plain text of an inline to `out`.
pub fn inline_to(i: &Inline, out: &mut String)
    ensures
        final(out)@ == old(out)@ + stringify_inline(i@),
    decreases i,
{
    proof {
        reveal_strlit(" ");
        reveal_strlit("\n");
        reveal_strlit("\u{2018}");
        reveal_strlit("\u{2019}");
        reveal_strlit("\u{201C}");
        reveal_strlit("\u{201D}");
        assert(" "@ =~= seq![' ']);
        assert("\n"@ =~= seq!['\n']);
        assert("\u{2018}"@ =~= seq!['\u{2018}']);
        assert("\u{2019}"@ =~= seq!['\u{2019}']);
        assert("\u{201C}"@ =~= seq!['\u{201C}']);
        assert("\u{201D}"@ =~= seq!['\u{201D}']);
    }
    let ghost start = out@;
    match i {
        Inline::Space => out.append(" "),
        Inline::SoftBreak => out.append(" "),
        Inline::Str(x) => out.append(x.as_str()),
        Inline::Code(_, x) => out.append(x.as_str()),
        Inline::Math(_, x) => out.append(x.as_str()),
        Inline::RawInline(format, raw) => {
            if str_eq(format.0.as_str(), "html") && starts_with(raw.as_str(), "<br") {
                out.append(" ");
            } else {
                assert(out@ =~= start + Seq::<char>::empty());
            }
        },
        Inline::LineBreak => out.append("\n"),
        Inline::Quoted(QuoteType::SingleQuote, inlines) => {
            out.append("\u{2018}");
            inlines_to(inlines, out);
            out.append("\u{2019}");
            assert(out@ =~= start + stringify_inline(i@));
        },
        Inline::Quoted(QuoteType::DoubleQuote, inlines) => {
            out.append("\u{201C}");
            inlines_to(inlines, out);
            out.append("\u{201D}");
            assert(out@ =~= start + stringify_inline(i@));
        },
        Inline::Emph(inlines) => inlines_to(inlines, out),
        Inline::Underline(inlines) => inlines_to(inlines, out),
        Inline::Strong(inlines) => inlines_to(inlines, out),
        Inline::Strikeout(inlines) => inlines_to(inlines, out),
        Inline::Superscript(inlines) => inlines_to(inlines, out),
        Inline::Subscript(inlines) => inlines_to(inlines, out),
        Inline::SmallCaps(inlines) => inlines_to(inlines, out),
        Inline::Cite(_, inlines) => inlines_to(inlines, out),
        Inline::Link(_, inlines, _) => inlines_to(inlines, out),
        Inline::Image(_, inlines, _) => inlines_to(inlines, out),
        Inline::Span(_, inlines) => inlines_to(inlines, out),
        Inline::Note(_) => {
            assert(out@ =~= start + Seq::<char>::empty());
        },
    }
}

/// Appends the plain text of a list of inlines to `out`.
pub fn inlines_to(v: &Vec<Inline>, out: &mut String)
    ensures
        final(out)@ == old(out)@ + stringify_inlines(inlines_view(v@)),
    decreases v,
{
    let ghost start = out@;
    let ghost all = inlines_view(v@);
    let mut k: usize = 0;
    proof {
        assert(all.subrange(0, 0) =~= Seq::empty());
        assert(out@ =~= start + stringify_inlines(all.subrange(0, 0)));
    }
    while k < v.len()
        invariant
            k <= v.len(),
            all == inlines_view(v@),
            out@ == start + stringify_inlines(all.subrange(0, k as int)),
        decreases v.len() - k,
    {
        inline_to(&v[k], out);
        proof {
            assert(all.subrange(0, k + 1).drop_last() =~= all.subrange(0, k as int));
            assert(all.subrange(0, k + 1).last() == v@[k as int]@);
            assert(out@ =~= start + stringify_inlines(all.subrange(0, k + 1)));
        }
        k += 1;
    }
    proof {
        assert(all.subrange(0, k as int) =~= all);
    }
}

impl Stringify for Inline {
    open spec fn stringified(&self) -> Seq<char> {
        stringify_inline(self@)
    }

    fn stringify(&self) -> (s: String) {
        let mut s = String::new();
        inline_to(self, &mut s);
        proof {
            assert(s@ =~= stringify_inline(self@));
        }
        s
    }

    fn stringify_to(&self, out: &mut String) {
        inline_to(self, out)
    }
}

impl Stringify for Vec<Inline> {
    open spec fn stringified(&self) -> Seq<char> {
        stringify_inlines(inlines_view(self@))
    }

    fn stringify(&self) -> (s: String) {
        let mut s = String::new();
        inlines_to(self, &mut s);
        proof {
            assert(s@ =~= stringify_inlines(inlines_view(self@)));
        }
        s
    }

    fn stringify_to(&self, out: &mut String) {
        inlines_to(self, out)
    }
}

} // verus!
