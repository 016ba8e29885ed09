//! The records that the pipeline produces.

use crate::error::ParseError;
use vstd::prelude::*;

verus! {

/// One top-level declaration found in a source file.
#[derive(Debug)]
pub struct CodeEntity {
    pub name: String,
    pub kind: String,
    pub details: String,
}

/// What a [`CodeEntity`] says, as sequences of characters.
pub struct EntityView {
    pub name: Seq<char>,
    pub kind: Seq<char>,
    pub details: Seq<char>,
}

impl View for CodeEntity {
    type V = EntityView;

    open spec fn view(&self) -> EntityView {
        EntityView { name: self.name@, kind: self.kind@, details: self.details@ }
    }
}

/// The views of a sequence of entities, in order.
pub open spec fn entity_views(entities: Seq<CodeEntity>) -> Seq<EntityView> {
    entities.map_values(|e: CodeEntity| e@)
}

/// A file that the walk yields: its path below the root and its content as
/// text.
#[derive(Debug)]
pub struct SourceFile {
    pub path: String,
    pub content: String,
}

/// What a [`SourceFile`] holds.
pub struct SourceFileView {
    pub path: Seq<char>,
    pub content: Seq<char>,
}

impl View for SourceFile {
    type V = SourceFileView;

    open spec fn view(&self) -> SourceFileView {
        SourceFileView { path: self.path@, content: self.content@ }
    }
}

/// The views of a sequence of source files, in order.
pub open spec fn source_views(files: Seq<SourceFile>) -> Seq<SourceFileView> {
    files.map_values(|f: SourceFile| f@)
}

/// The record of a file that yielded nothing, with the reason.
#[derive(Debug)]
pub struct Diagnostic {
    pub path: String,
    pub message: String,
}

/// What a [`Diagnostic`] says.
pub struct DiagnosticView {
    pub path: Seq<char>,
    pub message: Seq<char>,
}

impl View for Diagnostic {
    type V = DiagnosticView;

    open spec fn view(&self) -> DiagnosticView {
        DiagnosticView { path: self.path@, message: self.message@ }
    }
}

/// The views of a sequence of diagnostics, in order.
pub open spec fn diagnostic_views(diagnostics: Seq<Diagnostic>) -> Seq<DiagnosticView> {
    diagnostics.map_values(|d: Diagnostic| d@)
}

/// What the extractor made of one file.
#[derive(Debug)]
pub struct FileResult {
    pub path: String,
    pub outcome: Result<Vec<CodeEntity>, ParseError>,
}

/// What a [`FileResult`] says: the entities of the file, or the text of the
/// error.
pub struct FileResultView {
    pub path: Seq<char>,
    pub outcome: Result<Seq<EntityView>, Seq<char>>,
}

impl View for FileResult {
    type V = FileResultView;

    open spec fn view(&self) -> FileResultView {
        FileResultView {
            path: self.path@,
            outcome: match self.outcome {
                Ok(entities) => Ok(entity_views(entities@)),
                Err(error) => Err(error.text()),
            },
        }
    }
}

/// The views of a sequence of results, in order.
pub open spec fn result_views(results: Seq<FileResult>) -> Seq<FileResultView> {
    results.map_values(|r: FileResult| r@)
}

/// The outcome of a run: the entities of all files, and the record of the
/// files that yielded nothing.
#[derive(Debug)]
pub struct Report {
    pub corpus: Vec<CodeEntity>,
    pub diagnostics: Vec<Diagnostic>,
}

/// What a [`Report`] says.
pub struct ReportView {
    pub corpus: Seq<EntityView>,
    pub diagnostics: Seq<DiagnosticView>,
}

impl View for Report {
    type V = ReportView;

    open spec fn view(&self) -> ReportView {
        ReportView {
            corpus: entity_views(self.corpus@),
            diagnostics: diagnostic_views(self.diagnostics@),
        }
    }
}

} // verus!
