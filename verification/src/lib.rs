//! Converts JSON documents into KDL documents, keeping every numeric literal
//! exactly as it was written.
//!
//! A conversion takes four steps. The text is read into a [`json::Json`] tree
//! ([`source`]). The tree is converted into a [`document::Document`]
//! ([`convert`]); what holds of every such conversion is stated in [`laws`].
//! The document is rebuilt as a document of the `kdl` crate, formatted and
//! brought to the version of KDL that was asked for ([`render`], over the
//! description of `kdl` in [`printer`]). The result is printed. [`cli`] reads
//! the command line and decides what is done with the files that it names.

pub mod cli;
pub mod convert;
pub mod document;
pub mod error;
pub mod json;
pub mod laws;
pub mod printer;
pub mod render;
pub mod sequence;
pub mod source;

pub use crate::convert::{convert_document, convert_file_content, KdlVersion};
pub use crate::error::ConversionError;
