//! Repository ingestion and entity extraction for code search.
//!
//! The library turns the files of a source repository into a catalogue of
//! code entities: it decides which files are worth reading, picks the
//! extractor that understands each of them, lists the top-level declarations
//! that the extractor's syntax tree holds, and gathers the outcome of every
//! file into one corpus with a list of diagnostics beside it.

pub mod ast_extractor;
pub mod cli;
pub mod config;
pub mod document;
pub mod error;
pub mod file_handler;
pub mod language_support;
pub mod logging;
pub mod metadata;
pub mod pipeline;
pub mod repositories;
pub mod sequences;
pub mod syntax;
pub mod text;
