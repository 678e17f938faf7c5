//! Front matter handling for book chapters.
//!
//! A chapter may open with a fenced block of YAML metadata. This library
//! removes that block from the chapter's text and, for chapters that are
//! selected for it, puts a block of HTML metadata tags built from the
//! block's fields in front of what remains.

pub mod fence;
pub mod fields;
pub mod matter;
pub mod rewriter;
pub mod tags;
pub mod text;

pub use crate::rewriter::FrontMatterPreprocessor;
