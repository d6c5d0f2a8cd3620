//! Names for the kinds of block and inline, without their contents.
//!
//! A kind says which variant a node is. It serves in messages about a node
//! whose contents are beside the point, and it is the tag under which the
//! node goes over the wire.

use crate::definition::view::BlockView;
use crate::definition::view::InlineView;
use crate::definition::Block;
use crate::definition::Inline;
use crate::text::str_eq;
use vstd::prelude::*;
use vstd::std_specs::convert::FromSpecImpl;

verus! {

/// The kind of block, without its contents.
///
/// For example, a paragraph of any text has the kind `Para`.
#[derive(Debug, Clone, Copy, PartialEq, Eq, Structural)]
pub enum BlockType {
    Plain,
    Para,
    LineBlock,
    CodeBlock,
    RawBlock,
    BlockQuote,
    OrderedList,
    BulletList,
    DefinitionList,
    Header,
    HorizontalRule,
    Table,
    Figure,
    Div,
    Null,
}

impl BlockView {
    /// The kind of this block.
    pub open spec fn kind(self) -> BlockType {
        match self {
            BlockView::Plain(_) => BlockType::Plain,
            BlockView::Para(_) => BlockType::Para,
            BlockView::LineBlock(_) => BlockType::LineBlock,
            BlockView::CodeBlock(_, _) => BlockType::CodeBlock,
            BlockView::RawBlock(_, _) => BlockType::RawBlock,
            BlockView::BlockQuote(_) => BlockType::BlockQuote,
            BlockView::OrderedList(_, _) => BlockType::OrderedList,
            BlockView::BulletList(_) => BlockType::BulletList,
            BlockView::DefinitionList(_) => BlockType::DefinitionList,
            BlockView::Header(_, _, _) => BlockType::Header,
            BlockView::HorizontalRule => BlockType::HorizontalRule,
            BlockView::Table(_) => BlockType::Table,
            BlockView::Figure(_, _, _) => BlockType::Figure,
            BlockView::Div(_, _) => BlockType::Div,
            BlockView::Null => BlockType::Null,
        }
    }
}

impl BlockType {
    /// The name of the kind, which is its tag on the wire.
    pub open spec fn spec_name(self) -> Seq<char> {
        match self {
            BlockType::Plain => "Plain"@,
            BlockType::Para => "Para"@,
            BlockType::LineBlock => "LineBlock"@,
            BlockType::CodeBlock => "CodeBlock"@,
            BlockType::RawBlock => "RawBlock"@,
            BlockType::BlockQuote => "BlockQuote"@,
            BlockType::OrderedList => "OrderedList"@,
            BlockType::BulletList => "BulletList"@,
            BlockType::DefinitionList => "DefinitionList"@,
            BlockType::Header => "Header"@,
            BlockType::HorizontalRule => "HorizontalRule"@,
            BlockType::Table => "Table"@,
            BlockType::Figure => "Figure"@,
            BlockType::Div => "Div"@,
            BlockType::Null => "Null"@,
        }
    }

    /// The kind that `name` names, if it names one.
    pub open spec fn spec_from_name(name: Seq<char>) -> Option<BlockType> {
        if name == "Plain"@ {
            Some(BlockType::Plain)
        } else if name == "Para"@ {
            Some(BlockType::Para)
        } else if name == "LineBlock"@ {
            Some(BlockType::LineBlock)
        } else if name == "CodeBlock"@ {
            Some(BlockType::CodeBlock)
        } else if name == "RawBlock"@ {
            Some(BlockType::RawBlock)
        } else if name == "BlockQuote"@ {
            Some(BlockType::BlockQuote)
        } else if name == "OrderedList"@ {
            Some(BlockType::OrderedList)
        } else if name == "BulletList"@ {
            Some(BlockType::BulletList)
        } else if name == "DefinitionList"@ {
            Some(BlockType::DefinitionList)
        } else if name == "Header"@ {
            Some(BlockType::Header)
        } else if name == "HorizontalRule"@ {
            Some(BlockType::HorizontalRule)
        } else if name == "Table"@ {
            Some(BlockType::Table)
        } else if name == "Figure"@ {
            Some(BlockType::Figure)
        } else if name == "Div"@ {
            Some(BlockType::Div)
        } else if name == "Null"@ {
            Some(BlockType::Null)
        } else {
            None
        }
    }

    /// The name of the kind, which is its tag on the wire.
    pub fn name(&self) -> (r: &'static str)
        ensures
            r@ == self.spec_name(),
    {
        match self {
            BlockType::Plain => "Plain",
            BlockType::Para => "Para",
            BlockType::LineBlock => "LineBlock",
            BlockType::CodeBlock => "CodeBlock",
            BlockType::RawBlock => "RawBlock",
            BlockType::BlockQuote => "BlockQuote",
            BlockType::OrderedList => "OrderedList",
            BlockType::BulletList => "BulletList",
            BlockType::DefinitionList => "DefinitionList",
            BlockType::Header => "Header",
            BlockType::HorizontalRule => "HorizontalRule",
            BlockType::Table => "Table",
            BlockType::Figure => "Figure",
            BlockType::Div => "Div",
            BlockType::Null => "Null",
        }
    }

    /// The kind that `name` names, if it names one.
    pub fn from_name(name: &str) -> (r: Option<BlockType>)
        ensures
            r == BlockType::spec_from_name(name@),
    {
        if str_eq(name, "Plain") {
            Some(BlockType::Plain)
        } else if str_eq(name, "Para") {
            Some(BlockType::Para)
        } else if str_eq(name, "LineBlock") {
            Some(BlockType::LineBlock)
        } else if str_eq(name, "CodeBlock") {
            Some(BlockType::CodeBlock)
        } else if str_eq(name, "RawBlock") {
            Some(BlockType::RawBlock)
        } else if str_eq(name, "BlockQuote") {
            Some(BlockType::BlockQuote)
        } else if str_eq(name, "OrderedList") {
            Some(BlockType::OrderedList)
        } else if str_eq(name, "BulletList") {
            Some(BlockType::BulletList)
        } else if str_eq(name, "DefinitionList") {
            Some(BlockType::DefinitionList)
        } else if str_eq(name, "Header") {
            Some(BlockType::Header)
        } else if str_eq(name, "HorizontalRule") {
            Some(BlockType::HorizontalRule)
        } else if str_eq(name, "Table") {
            Some(BlockType::Table)
        } else if str_eq(name, "Figure") {
            Some(BlockType::Figure)
        } else if str_eq(name, "Div") {
            Some(BlockType::Div)
        } else if str_eq(name, "Null") {
            Some(BlockType::Null)
        } else {
            None
        }
    }

    /// Each kind is found again by its name, and by no other name.
    pub proof fn lemma_names(self)
        ensures
            BlockType::spec_from_name(self.spec_name()) == Some(self),
            forall|name: Seq<char>|
                BlockType::spec_from_name(name) == Some(self) ==> name == self.spec_name(),
    {
        reveal_strlit("Plain");
        assert("Plain"@.len() == 5 && "Plain"@[0] == 'P' && "Plain"@[1] == 'l');
        reveal_strlit("Para");
        assert("Para"@.len() == 4 && "Para"@[0] == 'P' && "Para"@[1] == 'a');
        reveal_strlit("LineBlock");
        assert("LineBlock"@.len() == 9 && "LineBlock"@[0] == 'L' && "LineBlock"@[1] == 'i');
        reveal_strlit("CodeBlock");
        assert("CodeBlock"@.len() == 9 && "CodeBlock"@[0] == 'C' && "CodeBlock"@[1] == 'o');
        reveal_strlit("RawBlock");
        assert("RawBlock"@.len() == 8 && "RawBlock"@[0] == 'R' && "RawBlock"@[1] == 'a');
        reveal_strlit("BlockQuote");
        assert("BlockQuote"@.len() == 10 && "BlockQuote"@[0] == 'B' && "BlockQuote"@[1] == 'l');
        reveal_strlit("OrderedList");
        assert("OrderedList"@.len() == 11 && "OrderedList"@[0] == 'O' && "OrderedList"@[1] == 'r');
        reveal_strlit("BulletList");
        assert("BulletList"@.len() == 10 && "BulletList"@[0] == 'B' && "BulletList"@[1] == 'u');
        reveal_strlit("DefinitionList");
        assert("DefinitionList"@.len() == 14 && "DefinitionList"@[0] == 'D' && "DefinitionList"@[1] == 'e');
        reveal_strlit("Header");
        assert("Header"@.len() == 6 && "Header"@[0] == 'H' && "Header"@[1] == 'e');
        reveal_strlit("HorizontalRule");
        assert("HorizontalRule"@.len() == 14 && "HorizontalRule"@[0] == 'H' && "HorizontalRule"@[1] == 'o');
        reveal_strlit("Table");
        assert("Table"@.len() == 5 && "Table"@[0] == 'T' && "Table"@[1] == 'a');
        reveal_strlit("Figure");
        assert("Figure"@.len() == 6 && "Figure"@[0] == 'F' && "Figure"@[1] == 'i');
        reveal_strlit("Div");
        assert("Div"@.len() == 3 && "Div"@[0] == 'D' && "Div"@[1] == 'i');
        reveal_strlit("Null");
        assert("Null"@.len() == 4 && "Null"@[0] == 'N' && "Null"@[1] == 'u');
    }
}

impl<'a> From<&'a Block> for BlockType {
    fn from(node: &'a Block) -> (r: BlockType) {
        match node {
            Block::Plain(_) => BlockType::Plain,
            Block::Para(_) => BlockType::Para,
            Block::LineBlock(_) => BlockType::LineBlock,
            Block::CodeBlock(_, _) => BlockType::CodeBlock,
            Block::RawBlock(_, _) => BlockType::RawBlock,
            Block::BlockQuote(_) => BlockType::BlockQuote,
            Block::OrderedList(_, _) => BlockType::OrderedList,
            Block::BulletList(_) => BlockType::BulletList,
            Block::DefinitionList(_) => BlockType::DefinitionList,
            Block::Header(_, _, _) => BlockType::Header,
            Block::HorizontalRule => BlockType::HorizontalRule,
            Block::Table(_) => BlockType::Table,
            Block::Figure(_, _, _) => BlockType::Figure,
            Block::Div(_, _) => BlockType::Div,
            Block::Null => BlockType::Null,
        }
    }
}

impl<'a> FromSpecImpl<&'a Block> for BlockType {
    open spec fn obeys_from_spec() -> bool {
        true
    }

    open spec fn from_spec(node: &'a Block) -> BlockType {
        node@.kind()
    }
}

/// The kind of inline, without its contents.
///
/// For example, an underlined passage of any text has the kind `Underline`.
#[derive(Debug, Clone, Copy, PartialEq, Eq, Structural)]
pub enum InlineType {
    Str,
    Emph,
    Underline,
    Strong,
    Strikeout,
    Superscript,
    Subscript,
    SmallCaps,
    Quoted,
    Cite,
    Code,
    Space,
    SoftBreak,
    LineBreak,
    Math,
    RawInline,
    Link,
    Image,
    Note,
    Span,
}

impl InlineView {
    /// The kind of this inline.
    pub open spec fn kind(self) -> InlineType {
        match self {
            InlineView::Str(_) => InlineType::Str,
            InlineView::Emph(_) => InlineType::Emph,
            InlineView::Underline(_) => InlineType::Underline,
            InlineView::Strong(_) => InlineType::Strong,
            InlineView::Strikeout(_) => InlineType::Strikeout,
            InlineView::Superscript(_) => InlineType::Superscript,
            InlineView::Subscript(_) => InlineType::Subscript,
            InlineView::SmallCaps(_) => InlineType::SmallCaps,
            InlineView::Quoted(_, _) => InlineType::Quoted,
            InlineView::Cite(_, _) => InlineType::Cite,
            InlineView::Code(_, _) => InlineType::Code,
            InlineView::Space => InlineType::Space,
            InlineView::SoftBreak => InlineType::SoftBreak,
            InlineView::LineBreak => InlineType::LineBreak,
            InlineView::Math(_, _) => InlineType::Math,
            InlineView::RawInline(_, _) => InlineType::RawInline,
            InlineView::Link(_, _, _) => InlineType::Link,
            InlineView::Image(_, _, _) => InlineType::Image,
            InlineView::Note(_) => InlineType::Note,
            InlineView::Span(_, _) => InlineType::Span,
        }
    }
}

impl InlineType {
    /// The name of the kind, which is its tag on the wire.
    pub open spec fn spec_name(self) -> Seq<char> {
        match self {
            InlineType::Str => "Str"@,
            InlineType::Emph => "Emph"@,
            InlineType::Underline => "Underline"@,
            InlineType::Strong => "Strong"@,
            InlineType::Strikeout => "Strikeout"@,
            InlineType::Superscript => "Superscript"@,
            InlineType::Subscript => "Subscript"@,
            InlineType::SmallCaps => "SmallCaps"@,
            InlineType::Quoted => "Quoted"@,
            InlineType::Cite => "Cite"@,
            InlineType::Code => "Code"@,
            InlineType::Space => "Space"@,
            InlineType::SoftBreak => "SoftBreak"@,
            InlineType::LineBreak => "LineBreak"@,
            InlineType::Math => "Math"@,
            InlineType::RawInline => "RawInline"@,
            InlineType::Link => "Link"@,
            InlineType::Image => "Image"@,
            InlineType::Note => "Note"@,
            InlineType::Span => "Span"@,
        }
    }

    /// The kind that `name` names, if it names one.
    pub open spec fn spec_from_name(name: Seq<char>) -> Option<InlineType> {
        if name == "Str"@ {
            Some(InlineType::Str)
        } else if name == "Emph"@ {
            Some(InlineType::Emph)
        } else if name == "Underline"@ {
            Some(InlineType::Underline)
        } else if name == "Strong"@ {
            Some(InlineType::Strong)
        } else if name == "Strikeout"@ {
            Some(InlineType::Strikeout)
        } else if name == "Superscript"@ {
            Some(InlineType::Superscript)
        } else if name == "Subscript"@ {
            Some(InlineType::Subscript)
        } else if name == "SmallCaps"@ {
            Some(InlineType::SmallCaps)
        } else if name == "Quoted"@ {
            Some(InlineType::Quoted)
        } else if name == "Cite"@ {
            Some(InlineType::Cite)
        } else if name == "Code"@ {
            Some(InlineType::Code)
        } else if name == "Space"@ {
            Some(InlineType::Space)
        } else if name == "SoftBreak"@ {
            Some(InlineType::SoftBreak)
        } else if name == "LineBreak"@ {
            Some(InlineType::LineBreak)
        } else if name == "Math"@ {
            Some(InlineType::Math)
        } else if name == "RawInline"@ {
            Some(InlineType::RawInline)
        } else if name == "Link"@ {
            Some(InlineType::Link)
        } else if name == "Image"@ {
            Some(InlineType::Image)
        } else if name == "Note"@ {
            Some(InlineType::Note)
        } else if name == "Span"@ {
            Some(InlineType::Span)
        } else {
            None
        }
    }

    /// The name of the kind, which is its tag on the wire.
    pub fn name(&self) -> (r: &'static str)
        ensures
            r@ == self.spec_name(),
    {
        match self {
            InlineType::Str => "Str",
            InlineType::Emph => "Emph",
            InlineType::Underline => "Underline",
            InlineType::Strong => "Strong",
            InlineType::Strikeout => "Strikeout",
            InlineType::Superscript => "Superscript",
            InlineType::Subscript => "Subscript",
            InlineType::SmallCaps => "SmallCaps",
            InlineType::Quoted => "Quoted",
            InlineType::Cite => "Cite",
            InlineType::Code => "Code",
            InlineType::Space => "Space",
            InlineType::SoftBreak => "SoftBreak",
            InlineType::LineBreak => "LineBreak",
            InlineType::Math => "Math",
            InlineType::RawInline => "RawInline",
            InlineType::Link => "Link",
            InlineType::Image => "Image",
            InlineType::Note => "Note",
            InlineType::Span => "Span",
        }
    }

    /// The kind that `name` names, if it names one.
    pub fn from_name(name: &str) -> (r: Option<InlineType>)
        ensures
            r == InlineType::spec_from_name(name@),
    {
        if str_eq(name, "Str") {
            Some(InlineType::Str)
        } else if str_eq(name, "Emph") {
            Some(InlineType::Emph)
        } else if str_eq(name, "Underline") {
            Some(InlineType::Underline)
        } else if str_eq(name, "Strong") {
            Some(InlineType::Strong)
        } else if str_eq(name, "Strikeout") {
            Some(InlineType::Strikeout)
        } else if str_eq(name, "Superscript") {
            Some(InlineType::Superscript)
        } else if str_eq(name, "Subscript") {
            Some(InlineType::Subscript)
        } else if str_eq(name, "SmallCaps") {
            Some(InlineType::SmallCaps)
        } else if str_eq(name, "Quoted") {
            Some(InlineType::Quoted)
        } else if str_eq(name, "Cite") {
            Some(InlineType::Cite)
        } else if str_eq(name, "Code") {
            Some(InlineType::Code)
        } else if str_eq(name, "Space") {
            Some(InlineType::Space)
        } else if str_eq(name, "SoftBreak") {
            Some(InlineType::SoftBreak)
        } else if str_eq(name, "LineBreak") {
            Some(InlineType::LineBreak)
        } else if str_eq(name, "Math") {
            Some(InlineType::Math)
        } else if str_eq(name, "RawInline") {
            Some(InlineType::RawInline)
        } else if str_eq(name, "Link") {
            Some(InlineType::Link)
        } else if str_eq(name, "Image") {
            Some(InlineType::Image)
        } else if str_eq(name, "Note") {
            Some(InlineType::Note)
        } else if str_eq(name, "Span") {
            Some(InlineType::Span)
        } else {
            None
        }
    }

    /// Each kind is found again by its name, and by no other name.
    pub proof fn lemma_names(self)
        ensures
            InlineType::spec_from_name(self.spec_name()) == Some(self),
            forall|name: Seq<char>|
                InlineType::spec_from_name(name) == Some(self) ==> name == self.spec_name(),
    {
        reveal_strlit("Str");
        assert("Str"@.len() == 3 && "Str"@[0] == 'S' && "Str"@[1] == 't');
        reveal_strlit("Emph");
        assert("Emph"@.len() == 4 && "Emph"@[0] == 'E' && "Emph"@[1] == 'm');
        reveal_strlit("Underline");
        assert("Underline"@.len() == 9 && "Underline"@[0] == 'U' && "Underline"@[1] == 'n');
        reveal_strlit("Strong");
        assert("Strong"@.len() == 6 && "Strong"@[0] == 'S' && "Strong"@[1] == 't');
        reveal_strlit("Strikeout");
        assert("Strikeout"@.len() == 9 && "Strikeout"@[0] == 'S' && "Strikeout"@[1] == 't');
        reveal_strlit("Superscript");
        assert("Superscript"@.len() == 11 && "Superscript"@[0] == 'S' && "Superscript"@[1] == 'u');
        reveal_strlit("Subscript");
        assert("Subscript"@.len() == 9 && "Subscript"@[0] == 'S' && "Subscript"@[1] == 'u');
        reveal_strlit("SmallCaps");
        assert("SmallCaps"@.len() == 9 && "SmallCaps"@[0] == 'S' && "SmallCaps"@[1] == 'm');
        reveal_strlit("Quoted");
        assert("Quoted"@.len() == 6 && "Quoted"@[0] == 'Q' && "Quoted"@[1] == 'u');
        reveal_strlit("Cite");
        assert("Cite"@.len() == 4 && "Cite"@[0] == 'C' && "Cite"@[1] == 'i');
        reveal_strlit("Code");
        assert("Code"@.len() == 4 && "Code"@[0] == 'C' && "Code"@[1] == 'o');
        reveal_strlit("Space");
        assert("Space"@.len() == 5 && "Space"@[0] == 'S' && "Space"@[1] == 'p');
        reveal_strlit("SoftBreak");
        assert("SoftBreak"@.len() == 9 && "SoftBreak"@[0] == 'S' && "SoftBreak"@[1] == 'o');
        reveal_strlit("LineBreak");
        assert("LineBreak"@.len() == 9 && "LineBreak"@[0] == 'L' && "LineBreak"@[1] == 'i');
        reveal_strlit("Math");
        assert("Math"@.len() == 4 && "Math"@[0] == 'M' && "Math"@[1] == 'a');
        reveal_strlit("RawInline");
        assert("RawInline"@.len() == 9 && "RawInline"@[0] == 'R' && "RawInline"@[1] == 'a');
        reveal_strlit("Link");
        assert("Link"@.len() == 4 && "Link"@[0] == 'L' && "Link"@[1] == 'i');
        reveal_strlit("Image");
        assert("Image"@.len() == 5 && "Image"@[0] == 'I' && "Image"@[1] == 'm');
        reveal_strlit("Note");
        assert("Note"@.len() == 4 && "Note"@[0] == 'N' && "Note"@[1] == 'o');
        reveal_strlit("Span");
        assert("Span"@.len() == 4 && "Span"@[0] == 'S' && "Span"@[1] == 'p');
    }
}

impl<'a> From<&'a Inline> for InlineType {
    fn from(node: &'a Inline) -> (r: InlineType) {
        match node {
            Inline::Str(_) => InlineType::Str,
            Inline::Emph(_) => InlineType::Emph,
            Inline::Underline(_) => InlineType::Underline,
            Inline::Strong(_) => InlineType::Strong,
            Inline::Strikeout(_) => InlineType::Strikeout,
            Inline::Superscript(_) => InlineType::Superscript,
            Inline::Subscript(_) => InlineType::Subscript,
            Inline::SmallCaps(_) => InlineType::SmallCaps,
            Inline::Quoted(_, _) => InlineType::Quoted,
            Inline::Cite(_, _) => InlineType::Cite,
            Inline::Code(_, _) => InlineType::Code,
            Inline::Space => InlineType::Space,
            Inline::SoftBreak => InlineType::SoftBreak,
            Inline::LineBreak => InlineType::LineBreak,
            Inline::Math(_, _) => InlineType::Math,
            Inline::RawInline(_, _) => InlineType::RawInline,
            Inline::Link(_, _, _) => InlineType::Link,
            Inline::Image(_, _, _) => InlineType::Image,
            Inline::Note(_) => InlineType::Note,
            Inline::Span(_, _) => InlineType::Span,
        }
    }
}

impl<'a> FromSpecImpl<&'a Inline> for InlineType {
    open spec fn obeys_from_spec() -> bool {
        true
    }

    open spec fn from_spec(node: &'a Inline) -> InlineType {
        node@.kind()
    }
}

} // verus!
