//! The wire codec: documents to JSON values and back.

pub mod decode;
pub mod document;
pub mod encode;
pub mod error;
pub mod laws;
pub mod nodes;
pub mod tags;
pub mod wire;
