//! Pandoc's document model: the tree of blocks and inlines, its JSON wire
//! form, and the traversals over it.
//!
//! A document is a [`Pandoc`]: metadata and a list of blocks. It is written
//! as a JSON value by `serialize` and read from one by `deserialize`, which
//! every type of the model has. What is written is read again as it was.
//! The children of a node are handed out by [`IterBlocks`] and
//! [`IterInlines`], and [`Stringify`] gives the plain text of inlines.
//!
//! The library is verified: each function is proved to do what its contract
//! says, for every input, and none of them can panic.

pub mod codec;
pub mod definition;
pub mod json;
pub mod text;

pub use codec::error::DecodeError;
pub use definition::Alignment;
pub use definition::Attr;
pub use definition::Block;
pub use definition::Caption;
pub use definition::Cell;
pub use definition::Citation;
pub use definition::CitationMode;
pub use definition::ColSpec;
pub use definition::ColWidth;
pub use definition::Format;
pub use definition::Inline;
pub use definition::IterBlocks;
pub use definition::IterInlines;
pub use definition::ListAttributes;
pub use definition::ListNumberDelim;
pub use definition::ListNumberStyle;
pub use definition::MathType;
pub use definition::Meta;
pub use definition::MetaValue;
pub use definition::Pandoc;
pub use definition::QuoteType;
pub use definition::Row;
pub use definition::Stringify;
pub use definition::Table;
pub use definition::TableBody;
pub use definition::TableFoot;
pub use definition::TableHead;
pub use definition::Target;
pub use json::Json;
pub use json::Number;
