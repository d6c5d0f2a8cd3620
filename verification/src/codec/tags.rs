//! The names under which the plain enumerations go over the wire.

use crate::definition::Alignment;
use crate::definition::CitationMode;
use crate::definition::ListNumberDelim;
use crate::definition::ListNumberStyle;
use crate::definition::MathType;
use crate::definition::QuoteType;
use crate::text::str_eq;
use vstd::prelude::*;

verus! {

impl Alignment {
    /// The name of the variant, which is its tag on the wire.
    pub open spec fn spec_name(self) -> Seq<char> {
        match self {
            Alignment::AlignLeft => "AlignLeft"@,
            Alignment::AlignRight => "AlignRight"@,
            Alignment::AlignCenter => "AlignCenter"@,
            Alignment::AlignDefault => "AlignDefault"@,
        }
    }

    /// The variant that `name` names, if it names one.
    pub open spec fn spec_from_name(name: Seq<char>) -> Option<Alignment> {
        if name == "AlignLeft"@ {
            Some(Alignment::AlignLeft)
        } else if name == "AlignRight"@ {
            Some(Alignment::AlignRight)
        } else if name == "AlignCenter"@ {
            Some(Alignment::AlignCenter)
        } else if name == "AlignDefault"@ {
            Some(Alignment::AlignDefault)
        } else {
            None
        }
    }

    /// The name of the variant, which is its tag on the wire.
    pub fn name(&self) -> (r: &'static str)
        ensures
            r@ == self.spec_name(),
    {
        match self {
            Alignment::AlignLeft => "AlignLeft",
            Alignment::AlignRight => "AlignRight",
            Alignment::AlignCenter => "AlignCenter",
            Alignment::AlignDefault => "AlignDefault",
        }
    }

    /// The variant that `name` names, if it names one.
    pub fn from_name(name: &str) -> (r: Option<Alignment>)
        ensures
            r == Alignment::spec_from_name(name@),
    {
        if str_eq(name, "AlignLeft") {
            Some(Alignment::AlignLeft)
        } else if str_eq(name, "AlignRight") {
            Some(Alignment::AlignRight)
        } else if str_eq(name, "AlignCenter") {
            Some(Alignment::AlignCenter)
        } else if str_eq(name, "AlignDefault") {
            Some(Alignment::AlignDefault)
        } else {
            None
        }
    }

    /// Each variant is found again by its name, and by no other name.
    pub proof fn lemma_names(self)
        ensures
            Alignment::spec_from_name(self.spec_name()) == Some(self),
            forall|name: Seq<char>|
                Alignment::spec_from_name(name) == Some(self) ==> name == self.spec_name(),
    {
        reveal_strlit("AlignLeft");
        assert("AlignLeft"@.len() == 9);
        reveal_strlit("AlignRight");
        assert("AlignRight"@.len() == 10);
        reveal_strlit("AlignCenter");
        assert("AlignCenter"@.len() == 11);
        reveal_strlit("AlignDefault");
        assert("AlignDefault"@.len() == 12);
    }
}

impl ListNumberStyle {
    /// The name of the variant, which is its tag on the wire.
    pub open spec fn spec_name(self) -> Seq<char> {
        match self {
            ListNumberStyle::DefaultStyle => "DefaultStyle"@,
            ListNumberStyle::Example => "Example"@,
            ListNumberStyle::Decimal => "Decimal"@,
            ListNumberStyle::LowerRoman => "LowerRoman"@,
            ListNumberStyle::UpperRoman => "UpperRoman"@,
            ListNumberStyle::LowerAlpha => "LowerAlpha"@,
            ListNumberStyle::UpperAlpha => "UpperAlpha"@,
        }
    }

    /// The variant that `name` names, if it names one.
    pub open spec fn spec_from_name(name: Seq<char>) -> Option<ListNumberStyle> {
        if name == "DefaultStyle"@ {
            Some(ListNumberStyle::DefaultStyle)
        } else if name == "Example"@ {
            Some(ListNumberStyle::Example)
        } else if name == "Decimal"@ {
            Some(ListNumberStyle::Decimal)
        } else if name == "LowerRoman"@ {
            Some(ListNumberStyle::LowerRoman)
        } else if name == "UpperRoman"@ {
            Some(ListNumberStyle::UpperRoman)
        } else if name == "LowerAlpha"@ {
            Some(ListNumberStyle::LowerAlpha)
        } else if name == "UpperAlpha"@ {
            Some(ListNumberStyle::UpperAlpha)
        } else {
            None
        }
    }

    /// The name of the variant, which is its tag on the wire.
    pub fn name(&self) -> (r: &'static str)
        ensures
            r@ == self.spec_name(),
    {
        match self {
            ListNumberStyle::DefaultStyle => "DefaultStyle",
            ListNumberStyle::Example => "Example",
            ListNumberStyle::Decimal => "Decimal",
            ListNumberStyle::LowerRoman => "LowerRoman",
            ListNumberStyle::UpperRoman => "UpperRoman",
            ListNumberStyle::LowerAlpha => "LowerAlpha",
            ListNumberStyle::UpperAlpha => "UpperAlpha",
        }
    }

    /// The variant that `name` names, if it names one.
    pub fn from_name(name: &str) -> (r: Option<ListNumberStyle>)
        ensures
            r == ListNumberStyle::spec_from_name(name@),
    {
        if str_eq(name, "DefaultStyle") {
            Some(ListNumberStyle::DefaultStyle)
        } else if str_eq(name, "Example") {
            Some(ListNumberStyle::Example)
        } else if str_eq(name, "Decimal") {
            Some(ListNumberStyle::Decimal)
        } else if str_eq(name, "LowerRoman") {
            Some(ListNumberStyle::LowerRoman)
        } else if str_eq(name, "UpperRoman") {
            Some(ListNumberStyle::UpperRoman)
        } else if str_eq(name, "LowerAlpha") {
            Some(ListNumberStyle::LowerAlpha)
        } else if str_eq(name, "UpperAlpha") {
            Some(ListNumberStyle::UpperAlpha)
        } else {
            None
        }
    }

    /// Each variant is found again by its name, and by no other name.
    pub proof fn lemma_names(self)
        ensures
            ListNumberStyle::spec_from_name(self.spec_name()) == Some(self),
            forall|name: Seq<char>|
                ListNumberStyle::spec_from_name(name) == Some(self) ==> name == self.spec_name(),
    {
        reveal_strlit("DefaultStyle");
        assert("DefaultStyle"@.len() == 12 && "DefaultStyle"@[0] == 'D' && "DefaultStyle"@[5] == 'l');
        reveal_strlit("Example");
        assert("Example"@.len() == 7 && "Example"@[0] == 'E' && "Example"@[5] == 'l');
        reveal_strlit("Decimal");
        assert("Decimal"@.len() == 7 && "Decimal"@[0] == 'D' && "Decimal"@[5] == 'a');
        reveal_strlit("LowerRoman");
        assert("LowerRoman"@.len() == 10 && "LowerRoman"@[0] == 'L' && "LowerRoman"@[5] == 'R');
        reveal_strlit("UpperRoman");
        assert("UpperRoman"@.len() == 10 && "UpperRoman"@[0] == 'U' && "UpperRoman"@[5] == 'R');
        reveal_strlit("LowerAlpha");
        assert("LowerAlpha"@.len() == 10 && "LowerAlpha"@[0] == 'L' && "LowerAlpha"@[5] == 'A');
        reveal_strlit("UpperAlpha");
        assert("UpperAlpha"@.len() == 10 && "UpperAlpha"@[0] == 'U' && "UpperAlpha"@[5] == 'A');
    }
}

impl ListNumberDelim {
    /// The name of the variant, which is its tag on the wire.
    pub open spec fn spec_name(self) -> Seq<char> {
        match self {
            ListNumberDelim::DefaultDelim => "DefaultDelim"@,
            ListNumberDelim::Period => "Period"@,
            ListNumberDelim::OneParen => "OneParen"@,
            ListNumberDelim::TwoParens => "TwoParens"@,
        }
    }

    /// The variant that `name` names, if it names one.
    pub open spec fn spec_from_name(name: Seq<char>) -> Option<ListNumberDelim> {
        if name == "DefaultDelim"@ {
            Some(ListNumberDelim::DefaultDelim)
        } else if name == "Period"@ {
            Some(ListNumberDelim::Period)
        } else if name == "OneParen"@ {
            Some(ListNumberDelim::OneParen)
        } else if name == "TwoParens"@ {
            Some(ListNumberDelim::TwoParens)
        } else {
            None
        }
    }

    /// The name of the variant, which is its tag on the wire.
    pub fn name(&self) -> (r: &'static str)
        ensures
            r@ == self.spec_name(),
    {
        match self {
            ListNumberDelim::DefaultDelim => "DefaultDelim",
            ListNumberDelim::Period => "Period",
            ListNumberDelim::OneParen => "OneParen",
            ListNumberDelim::TwoParens => "TwoParens",
        }
    }

    /// The variant that `name` names, if it names one.
    pub fn from_name(name: &str) -> (r: Option<ListNumberDelim>)
        ensures
            r == ListNumberDelim::spec_from_name(name@),
    {
        if str_eq(name, "DefaultDelim") {
            Some(ListNumberDelim::DefaultDelim)
        } else if str_eq(name, "Period") {
            Some(ListNumberDelim::Period)
        } else if str_eq(name, "OneParen") {
            Some(ListNumberDelim::OneParen)
        } else if str_eq(name, "TwoParens") {
            Some(ListNumberDelim::TwoParens)
        } else {
            None
        }
    }

    /// Each variant is found again by its name, and by no other name.
    pub proof fn lemma_names(self)
        ensures
            ListNumberDelim::spec_from_name(self.spec_name()) == Some(self),
            forall|name: Seq<char>|
                ListNumberDelim::spec_from_name(name) == Some(self) ==> name == self.spec_name(),
    {
        reveal_strlit("DefaultDelim");
        assert("DefaultDelim"@.len() == 12);
        reveal_strlit("Period");
        assert("Period"@.len() == 6);
        reveal_strlit("OneParen");
        assert("OneParen"@.len() == 8);
        reveal_strlit("TwoParens");
        assert("TwoParens"@.len() == 9);
    }
}

impl QuoteType {
    /// The name of the variant, which is its tag on the wire.
    pub open spec fn spec_name(self) -> Seq<char> {
        match self {
            QuoteType::SingleQuote => "SingleQuote"@,
            QuoteType::DoubleQuote => "DoubleQuote"@,
        }
    }

    /// The variant that `name` names, if it names one.
    pub open spec fn spec_from_name(name: Seq<char>) -> Option<QuoteType> {
        if name == "SingleQuote"@ {
            Some(QuoteType::SingleQuote)
        } else if name == "DoubleQuote"@ {
            Some(QuoteType::DoubleQuote)
        } else {
            None
        }
    }

    /// The name of the variant, which is its tag on the wire.
    pub fn name(&self) -> (r: &'static str)
        ensures
            r@ == self.spec_name(),
    {
        match self {
            QuoteType::SingleQuote => "SingleQuote",
            QuoteType::DoubleQuote => "DoubleQuote",
        }
    }

    /// The variant that `name` names, if it names one.
    pub fn from_name(name: &str) -> (r: Option<QuoteType>)
        ensures
            r == QuoteType::spec_from_name(name@),
    {
        if str_eq(name, "SingleQuote") {
            Some(QuoteType::SingleQuote)
        } else if str_eq(name, "DoubleQuote") {
            Some(QuoteType::DoubleQuote)
        } else {
            None
        }
    }

    /// Each variant is found again by its name, and by no other name.
    pub proof fn lemma_names(self)
        ensures
            QuoteType::spec_from_name(self.spec_name()) == Some(self),
            forall|name: Seq<char>|
                QuoteType::spec_from_name(name) == Some(self) ==> name == self.spec_name(),
    {
        reveal_strlit("SingleQuote");
        assert("SingleQuote"@.len() == 11 && "SingleQuote"@[0] == 'S');
        reveal_strlit("DoubleQuote");
        assert("DoubleQuote"@.len() == 11 && "DoubleQuote"@[0] == 'D');
    }
}

impl MathType {
    /// The name of the variant, which is its tag on the wire.
    pub open spec fn spec_name(self) -> Seq<char> {
        match self {
            MathType::DisplayMath => "DisplayMath"@,
            MathType::InlineMath => "InlineMath"@,
        }
    }

    /// The variant that `name` names, if it names one.
    pub open spec fn spec_from_name(name: Seq<char>) -> Option<MathType> {
        if name == "DisplayMath"@ {
            Some(MathType::DisplayMath)
        } else if name == "InlineMath"@ {
            Some(MathType::InlineMath)
        } else {
            None
        }
    }

    /// The name of the variant, which is its tag on the wire.
    pub fn name(&self) -> (r: &'static str)
        ensures
            r@ == self.spec_name(),
    {
        match self {
            MathType::DisplayMath => "DisplayMath",
            MathType::InlineMath => "InlineMath",
        }
    }

    /// The variant that `name` names, if it names one.
    pub fn from_name(name: &str) -> (r: Option<MathType>)
        ensures
            r == MathType::spec_from_name(name@),
    {
        if str_eq(name, "DisplayMath") {
            Some(MathType::DisplayMath)
        } else if str_eq(name, "InlineMath") {
            Some(MathType::InlineMath)
        } else {
            None
        }
    }

    /// Each variant is found again by its name, and by no other name.
    pub proof fn lemma_names(self)
        ensures
            MathType::spec_from_name(self.spec_name()) == Some(self),
            forall|name: Seq<char>|
                MathType::spec_from_name(name) == Some(self) ==> name == self.spec_name(),
    {
        reveal_strlit("DisplayMath");
        assert("DisplayMath"@.len() == 11);
        reveal_strlit("InlineMath");
        assert("InlineMath"@.len() == 10);
    }
}

impl CitationMode {
    /// The name of the variant, which is its tag on the wire.
    pub open spec fn spec_name(self) -> Seq<char> {
        match self {
            CitationMode::AuthorInText => "AuthorInText"@,
            CitationMode::SuppressAuthor => "SuppressAuthor"@,
            CitationMode::NormalCitation => "NormalCitation"@,
        }
    }

    /// The variant that `name` names, if it names one.
    pub open spec fn spec_from_name(name: Seq<char>) -> Option<CitationMode> {
        if name == "AuthorInText"@ {
            Some(CitationMode::AuthorInText)
        } else if name == "SuppressAuthor"@ {
            Some(CitationMode::SuppressAuthor)
        } else if name == "NormalCitation"@ {
            Some(CitationMode::NormalCitation)
        } else {
            None
        }
    }

    /// The name of the variant, which is its tag on the wire.
    pub fn name(&self) -> (r: &'static str)
        ensures
            r@ == self.spec_name(),
    {
        match self {
            CitationMode::AuthorInText => "AuthorInText",
            CitationMode::SuppressAuthor => "SuppressAuthor",
            CitationMode::NormalCitation => "NormalCitation",
        }
    }

    /// The variant that `name` names, if it names one.
    pub fn from_name(name: &str) -> (r: Option<CitationMode>)
        ensures
            r == CitationMode::spec_from_name(name@),
    {
        if str_eq(name, "AuthorInText") {
            Some(CitationMode::AuthorInText)
        } else if str_eq(name, "SuppressAuthor") {
            Some(CitationMode::SuppressAuthor)
        } else if str_eq(name, "NormalCitation") {
            Some(CitationMode::NormalCitation)
        } else {
            None
        }
    }

    /// Each variant is found again by its name, and by no other name.
    pub proof fn lemma_names(self)
        ensures
            CitationMode::spec_from_name(self.spec_name()) == Some(self),
            forall|name: Seq<char>|
                CitationMode::spec_from_name(name) == Some(self) ==> name == self.spec_name(),
    {
        reveal_strlit("AuthorInText");
        assert("AuthorInText"@.len() == 12 && "AuthorInText"@[0] == 'A');
        reveal_strlit("SuppressAuthor");
        assert("SuppressAuthor"@.len() == 14 && "SuppressAuthor"@[0] == 'S');
        reveal_strlit("NormalCitation");
        assert("NormalCitation"@.len() == 14 && "NormalCitation"@[0] == 'N');
    }
}

} // verus!
