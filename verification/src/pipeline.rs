//! The run over a repository: from the files of a listing to the corpus of
//! their entities and the record of the files that yielded none.
//!
//! The walk keeps the files that are read and decodes them. Each file that
//! a language claims goes to that language's extractor. The results of all
//! files are then gathered: the entities of the files that were understood,
//! in the order of the files, and a diagnostic for each file that was not.
//! What one file yields depends on that file and the configuration alone.

use crate::ast_extractor::{
    entities_of, extraction, lemma_entities_are_named, outline_of, reports_fault, Backend,
};
use crate::config::{ParserConfig, ParserView};
use crate::error::{ConfigError, ConfigErrorView, Error};
use crate::file_handler::{
    extension_of, file_views, load_repository_files, readable, readable_each, undecodable,
    undecodable_each, undecodable_text, under_excluded, wanted, RawFile, RawFileView,
};
use crate::language_support::{route_of, standard_table, Registry, SourceLanguage};
use crate::metadata::{
    diagnostic_views, entity_views, result_views, source_views, CodeEntity, Diagnostic,
    DiagnosticView, EntityView, FileResult, FileResultView, Report, ReportView, SourceFile,
    SourceFileView,
};
use crate::sequences::{
    flat_map, lemma_flat_map_concat, lemma_flat_map_empty, lemma_flat_map_member,
    lemma_flat_map_one, lemma_flat_map_push, lemma_flat_map_reordered, lemma_flat_map_skip,
};
use crate::syntax::{grammar_of, grammar_refusal, syntax_tree};
use vstd::prelude::*;
use vstd::seq_lib::lemma_multiset_commutative;
use vstd::utf8::{decode_utf8, valid_utf8};

verus! {

/// What the extractor makes of one source file: a result where a language
/// claims the file, nothing where none does.
pub open spec fn result_one(table: Map<Seq<char>, SourceLanguage>, file: SourceFileView) -> Seq<
    FileResultView,
> {
    match route_of(table, file.path) {
        Some(language) => seq![
            FileResultView {
                path: file.path,
                outcome: match extraction(grammar_of(language), file.content) {
                    Ok(entities) => Ok(entities),
                    Err(fault) => Err(fault.text()),
                },
            },
        ],
        None => Seq::empty(),
    }
}

/// [`result_one`] under a table.
pub open spec fn result_each(table: Map<Seq<char>, SourceLanguage>) -> spec_fn(
    SourceFileView,
) -> Seq<FileResultView> {
    |file: SourceFileView| result_one(table, file)
}

/// The results of the source files that a language claims, in the order of
/// the files.
pub open spec fn results_of(table: Map<Seq<char>, SourceLanguage>, files: Seq<SourceFileView>) -> Seq<
    FileResultView,
> {
    flat_map(files, result_each(table))
}

/// The entities that one result adds to the corpus.
pub open spec fn entities_one(result: FileResultView) -> Seq<EntityView> {
    match result.outcome {
        Ok(entities) => entities,
        Err(_) => Seq::empty(),
    }
}

/// The diagnostic that one result adds to the record.
pub open spec fn failure_one(result: FileResultView) -> Seq<DiagnosticView> {
    match result.outcome {
        Ok(_) => Seq::empty(),
        Err(message) => seq![DiagnosticView { path: result.path, message }],
    }
}

/// The corpus of a run of results: the entities of those that succeeded,
/// laid end to end in the order of the results.
pub open spec fn corpus_of(results: Seq<FileResultView>) -> Seq<EntityView> {
    flat_map(results, |result: FileResultView| entities_one(result))
}

/// The record of a run of results: a diagnostic for each that failed, in the
/// order of the results.
pub open spec fn failures_of(results: Seq<FileResultView>) -> Seq<DiagnosticView> {
    flat_map(results, |result: FileResultView| failure_one(result))
}

/// The outcome of a run over a listing: the corpus of the files that were
/// understood; and the record, first of the files that hold no text, then of
/// those that the extractor could not read.
pub open spec fn report_of(
    table: Map<Seq<char>, SourceLanguage>,
    config: ParserView,
    files: Seq<RawFileView>,
) -> ReportView {
    let results = results_of(table, readable(config, files));
    ReportView {
        corpus: corpus_of(results),
        diagnostics: undecodable(config, files) + failures_of(results),
    }
}

/// Gathers the results of the files of a run into the corpus and the record
/// of failures. Nothing is merged and nothing is dropped.
pub fn aggregate(results: Vec<FileResult>) -> (report: Report)
    ensures
        report@.corpus == corpus_of(result_views(results@)),
        report@.diagnostics == failures_of(result_views(results@)),
{
    let ghost all = result_views(results@);
    let ghost entities = |result: FileResultView| entities_one(result);
    let ghost failures = |result: FileResultView| failure_one(result);
    let mut corpus: Vec<CodeEntity> = Vec::new();
    let mut diagnostics: Vec<Diagnostic> = Vec::new();
    proof {
        lemma_flat_map_empty(entities);
        lemma_flat_map_empty(failures);
        assert(all.take(0) == Seq::<FileResultView>::empty());
    }
    for result in it: results
        invariant
            it.seq() == results@,
            all == result_views(results@),
            entities == |result: FileResultView| entities_one(result),
            failures == |result: FileResultView| failure_one(result),
            entity_views(corpus@) == flat_map(all.take(it.index() as int), entities),
            diagnostic_views(diagnostics@) == flat_map(all.take(it.index() as int), failures),
    {
        let ghost corpus_before = entity_views(corpus@);
        let ghost diagnostics_before = diagnostic_views(diagnostics@);
        let ghost index = it.index() as int;
        proof {
            assert(all.take(index + 1) == all.take(index).push(result@));
            lemma_flat_map_push(all.take(index), result@, entities);
            lemma_flat_map_push(all.take(index), result@, failures);
        }
        let FileResult { path, outcome } = result;
        match outcome {
            Ok(mut found) => {
                let ghost added = entity_views(found@);
                corpus.append(&mut found);
                assert(entity_views(corpus@) == corpus_before + added);
                assert(diagnostics_before + Seq::<DiagnosticView>::empty() == diagnostics_before);
            },
            Err(error) => {
                let diagnostic = Diagnostic { path, message: error.message() };
                diagnostics.push(diagnostic);
                assert(diagnostic_views(diagnostics@) == diagnostics_before.push(diagnostic@));
                assert(corpus_before + Seq::<EntityView>::empty() == corpus_before);
            },
        }
    }
    assert(all.take(results@.len() as int) == all);
    Report { corpus, diagnostics }
}

/// The extractors of a run, set up once and used for one file after another.
pub struct Pipeline {
    registry: Registry,
    rust: Backend,
}

impl Pipeline {
    /// Which language claims which extension in this pipeline.
    pub closed spec fn table(&self) -> Map<Seq<char>, SourceLanguage> {
        self.registry@
    }

    /// Sets up the extractors for the languages of a registry. It fails
    /// exactly where the parser refuses a grammar, and hands on why.
    pub fn new(registry: Registry) -> (made: Result<Pipeline, Error>)
        ensures
            match grammar_refusal(grammar_of(SourceLanguage::Rust)) {
                None => made matches Ok(pipeline) && pipeline.table() == registry@,
                Some(fault) => made matches Err(Error::Parse(error)) && reports_fault(error, fault),
            },
    {
        match Backend::new(SourceLanguage::Rust) {
            Ok(rust) => Ok(Pipeline { registry, rust }),
            Err(error) => Err(Error::Parse(error)),
        }
    }

    /// Hands one source file to the extractor of the language that claims it.
    pub fn parse(&mut self, file: SourceFile) -> (result: Option<FileResult>)
        ensures
            final(self).table() == old(self).table(),
            match result {
                Some(r) => result_one(old(self).table(), file@) == seq![r@],
                None => result_one(old(self).table(), file@).len() == 0,
            },
    {
        match self.registry.route(file.path.as_str()) {
            Some(language) => {
                let outcome = match language {
                    SourceLanguage::Rust => self.rust.extract(file.content.as_str()),
                };
                Some(FileResult { path: file.path, outcome })
            },
            None => None,
        }
    }

    /// Runs over a listing: walks it under `config`, hands each file that is
    /// read to its extractor, and gathers the results.
    pub fn run(&mut self, files: Vec<RawFile>, config: &ParserConfig) -> (report: Report)
        ensures
            final(self).table() == old(self).table(),
            report@ == report_of(old(self).table(), config@, file_views(files@)),
    {
        let ghost table = self.table();
        let loaded = load_repository_files(files, config);
        let sources = loaded.files;
        let ghost all = source_views(sources@);
        let mut results: Vec<FileResult> = Vec::new();
        proof {
            lemma_flat_map_empty(result_each(table));
            assert(all.take(0) == Seq::<SourceFileView>::empty());
        }
        for source in it: sources
            invariant
                it.seq() == sources@,
                all == source_views(sources@),
                self.table() == table,
                result_views(results@) == results_of(table, all.take(it.index() as int)),
        {
            let ghost before = result_views(results@);
            let ghost index = it.index() as int;
            proof {
                assert(all.take(index + 1) == all.take(index).push(source@));
                lemma_flat_map_push(all.take(index), source@, result_each(table));
            }
            match self.parse(source) {
                Some(result) => {
                    results.push(result);
                    assert(result_views(results@) == before.push(result@));
                    assert(before + seq![result@] == before.push(result@));
                },
                None => {
                    assert(before + Seq::<FileResultView>::empty() == before);
                },
            }
        }
        assert(all.take(sources@.len() as int) == all);
        let gathered = aggregate(results);
        let mut diagnostics = loaded.skipped;
        let mut failures = gathered.diagnostics;
        let ghost skipped = diagnostic_views(diagnostics@);
        let ghost failed = diagnostic_views(failures@);
        diagnostics.append(&mut failures);
        assert(diagnostic_views(diagnostics@) == skipped + failed);
        Report { corpus: gathered.corpus, diagnostics }
    }
}

/// The complaint about a configuration that names no extension.
pub open spec fn no_extensions() -> ConfigErrorView {
    ConfigErrorView::InvalidValue("no file extensions are configured"@)
}

/// Whether `found` is the report `expected`.
pub open spec fn is_report(found: Result<Report, Error>, expected: ReportView) -> bool {
    found matches Ok(report) && report@ == expected
}

/// Whether `found` says that the parser refused a grammar, and why.
pub open spec fn is_grammar_failure(
    found: Result<Report, Error>,
    fault: tree_sitter::LanguageError,
) -> bool {
    found matches Err(Error::Parse(error)) && reports_fault(error, fault)
}

/// Whether `found` says that the configuration names no extension.
pub open spec fn is_refusal(found: Result<Report, Error>) -> bool {
    found matches Err(Error::Config(inner)) && inner@ == no_extensions()
}

/// Runs the pipeline once over the files of a repository. A configuration
/// that names no extension is refused before anything is set up. The one
/// other failure is a grammar that the parser refuses, which stops the run
/// before any file is looked at; a file that cannot be read or understood
/// is recorded in the report and stops nothing.
pub fn process_repository(files: Vec<RawFile>, config: &ParserConfig) -> (outcome: Result<
    Report,
    Error,
>)
    ensures
        config@.extensions.len() == 0 ==> is_refusal(outcome),
        config@.extensions.len() > 0 ==> match grammar_refusal(
            grammar_of(SourceLanguage::Rust),
        ) {
            Some(fault) => is_grammar_failure(outcome, fault),
            None => is_report(outcome, report_of(standard_table(), config@, file_views(files@))),
        },
{
    if config.extensions.len() == 0 {
        return Err(
            Error::Config(ConfigError::InvalidValue("no file extensions are configured".to_owned())),
        );
    }
    match Pipeline::new(Registry::standard()) {
        Ok(mut pipeline) => Ok(pipeline.run(files, config)),
        Err(error) => Err(error),
    }
}

/// The report of two listings, one after the other, is the report of the
/// first followed by that of the second: the corpus keeps the order of the
/// files, and what a file yields does not depend on the files around it.
pub proof fn lemma_report_of_concat(
    table: Map<Seq<char>, SourceLanguage>,
    config: ParserView,
    first: Seq<RawFileView>,
    second: Seq<RawFileView>,
)
    ensures
        report_of(table, config, first + second).corpus == report_of(table, config, first).corpus
            + report_of(table, config, second).corpus,
        results_of(table, readable(config, first + second)) == results_of(
            table,
            readable(config, first),
        ) + results_of(table, readable(config, second)),
        undecodable(config, first + second) == undecodable(config, first) + undecodable(
            config,
            second,
        ),
{
    lemma_flat_map_concat(first, second, readable_each(config));
    lemma_flat_map_concat(first, second, undecodable_each(config));
    lemma_flat_map_concat(readable(config, first), readable(config, second), result_each(table));
    lemma_flat_map_concat(
        results_of(table, readable(config, first)),
        results_of(table, readable(config, second)),
        |result: FileResultView| entities_one(result),
    );
}

/// A file that is not read leaves no trace: alone it yields no entity and
/// no diagnostic, and a listing yields the same with it as without it.
pub proof fn lemma_unread_file_leaves_no_trace(
    table: Map<Seq<char>, SourceLanguage>,
    config: ParserView,
    files: Seq<RawFileView>,
    place: int,
)
    requires
        0 <= place < files.len(),
        !wanted(config, files[place].path, files[place].bytes.len()),
    ensures
        report_of(table, config, seq![files[place]]).corpus.len() == 0,
        report_of(table, config, seq![files[place]]).diagnostics.len() == 0,
        report_of(table, config, files) == report_of(table, config, files.remove(place)),
{
    let file = files[place];
    assert(readable_each(config)(file).len() == 0);
    assert(undecodable_each(config)(file).len() == 0);
    lemma_flat_map_skip(files, place, readable_each(config));
    lemma_flat_map_skip(files, place, undecodable_each(config));
    lemma_flat_map_one(file, readable_each(config));
    lemma_flat_map_one(file, undecodable_each(config));
    lemma_flat_map_empty(result_each(table));
    lemma_flat_map_empty(|result: FileResultView| entities_one(result));
    lemma_flat_map_empty(|result: FileResultView| failure_one(result));
}

/// A file below a directory with an excluded name yields no entity and no
/// diagnostic, whatever its extension, and the report is the same with the
/// file as without it.
pub proof fn lemma_excluded_directory(
    table: Map<Seq<char>, SourceLanguage>,
    config: ParserView,
    files: Seq<RawFileView>,
    place: int,
)
    requires
        0 <= place < files.len(),
        under_excluded(files[place].path, config.exclude_dirs),
    ensures
        report_of(table, config, seq![files[place]]).corpus.len() == 0,
        report_of(table, config, seq![files[place]]).diagnostics.len() == 0,
        report_of(table, config, files) == report_of(table, config, files.remove(place)),
{
    lemma_unread_file_leaves_no_trace(table, config, files, place);
}

/// A file whose extension is not among those asked for yields no entity and
/// no diagnostic: it is passed over, not failed. The report is the same with
/// the file as without it.
pub proof fn lemma_other_extension(
    table: Map<Seq<char>, SourceLanguage>,
    config: ParserView,
    files: Seq<RawFileView>,
    place: int,
)
    requires
        0 <= place < files.len(),
        match extension_of(files[place].path) {
            Some(extension) => !config.extensions.contains(extension),
            None => true,
        },
    ensures
        report_of(table, config, seq![files[place]]).corpus.len() == 0,
        report_of(table, config, seq![files[place]]).diagnostics.len() == 0,
        report_of(table, config, files) == report_of(table, config, files.remove(place)),
{
    lemma_unread_file_leaves_no_trace(table, config, files, place);
}

/// A file larger than the limit yields no entity and no diagnostic, whatever
/// its bytes are, and the report is the same with the file as without it.
pub proof fn lemma_oversized_file(
    table: Map<Seq<char>, SourceLanguage>,
    config: ParserView,
    files: Seq<RawFileView>,
    place: int,
)
    requires
        0 <= place < files.len(),
        files[place].bytes.len() > config.max_file_size,
    ensures
        report_of(table, config, seq![files[place]]).corpus.len() == 0,
        report_of(table, config, seq![files[place]]).diagnostics.len() == 0,
        report_of(table, config, files) == report_of(table, config, files.remove(place)),
{
    lemma_unread_file_leaves_no_trace(table, config, files, place);
}

/// What one file yields alone, where it is read: nothing where no language
/// claims it; a diagnostic that names it, and no entity, where its bytes are
/// no text or the extractor cannot read it; else its entities and no
/// diagnostic.
pub open spec fn report_of_one(table: Map<Seq<char>, SourceLanguage>, file: RawFileView) -> ReportView {
    if !valid_utf8(file.bytes) {
        ReportView {
            corpus: Seq::empty(),
            diagnostics: seq![DiagnosticView { path: file.path, message: undecodable_text() }],
        }
    } else {
        match route_of(table, file.path) {
            None => ReportView { corpus: Seq::empty(), diagnostics: Seq::empty() },
            Some(language) => match extraction(grammar_of(language), decode_utf8(file.bytes)) {
                Ok(entities) => ReportView { corpus: entities, diagnostics: Seq::empty() },
                Err(fault) => ReportView {
                    corpus: Seq::empty(),
                    diagnostics: seq![DiagnosticView { path: file.path, message: fault.text() }],
                },
            },
        }
    }
}

/// A file that is read yields alone what [`report_of_one`] says. So a file
/// never yields both entities and a diagnostic, never more than one
/// diagnostic, and a file that cannot be understood yields exactly one, which
/// names it.
pub proof fn lemma_file_alone(
    table: Map<Seq<char>, SourceLanguage>,
    config: ParserView,
    file: RawFileView,
)
    requires
        wanted(config, file.path, file.bytes.len()),
    ensures
        report_of(table, config, seq![file]) == report_of_one(table, file),
        report_of(table, config, seq![file]).diagnostics.len() <= 1,
        report_of(table, config, seq![file]).diagnostics.len() == 1 ==> report_of(
            table,
            config,
            seq![file],
        ).corpus.len() == 0 && report_of(table, config, seq![file]).diagnostics[0].path
            == file.path,
{
    let entities = |result: FileResultView| entities_one(result);
    let failures = |result: FileResultView| failure_one(result);
    lemma_flat_map_one(file, readable_each(config));
    lemma_flat_map_one(file, undecodable_each(config));
    if valid_utf8(file.bytes) {
        let source = SourceFileView { path: file.path, content: decode_utf8(file.bytes) };
        lemma_flat_map_one(source, result_each(table));
        match route_of(table, file.path) {
            None => {
                lemma_flat_map_empty(entities);
                lemma_flat_map_empty(failures);
            },
            Some(language) => {
                let result = result_one(table, source)[0];
                lemma_flat_map_one(result, entities);
                lemma_flat_map_one(result, failures);
            },
        }
        assert(report_of(table, config, seq![file]).diagnostics == report_of_one(
            table,
            file,
        ).diagnostics);
    } else {
        lemma_flat_map_empty(result_each(table));
        lemma_flat_map_empty(entities);
        lemma_flat_map_empty(failures);
        assert(report_of(table, config, seq![file]).diagnostics == report_of_one(
            table,
            file,
        ).diagnostics);
    }
}

/// The same files in another order yield the same entities and the same
/// diagnostics, each as often; only their order may differ. A run over one
/// listing always yields one report, so running twice over the same files
/// yields the same corpus.
pub proof fn lemma_order_of_files(
    table: Map<Seq<char>, SourceLanguage>,
    config: ParserView,
    first: Seq<RawFileView>,
    second: Seq<RawFileView>,
)
    requires
        first.to_multiset() == second.to_multiset(),
    ensures
        report_of(table, config, first).corpus.to_multiset() == report_of(
            table,
            config,
            second,
        ).corpus.to_multiset(),
        report_of(table, config, first).diagnostics.to_multiset() == report_of(
            table,
            config,
            second,
        ).diagnostics.to_multiset(),
{
    let entities = |result: FileResultView| entities_one(result);
    let failures = |result: FileResultView| failure_one(result);
    lemma_flat_map_reordered(first, second, readable_each(config));
    lemma_flat_map_reordered(first, second, undecodable_each(config));
    let sources_first = readable(config, first);
    let sources_second = readable(config, second);
    lemma_flat_map_reordered(sources_first, sources_second, result_each(table));
    let results_first = results_of(table, sources_first);
    let results_second = results_of(table, sources_second);
    lemma_flat_map_reordered(results_first, results_second, entities);
    lemma_flat_map_reordered(results_first, results_second, failures);
    lemma_multiset_commutative(undecodable(config, first), failures_of(results_first));
    lemma_multiset_commutative(undecodable(config, second), failures_of(results_second));
}

/// A file yields in any listing what it yields alone: the corpus of a
/// listing is the corpus of the files before it, then its own, then that of
/// the files after it. So a file that cannot be understood takes nothing
/// from the files beside it.
pub proof fn lemma_files_stand_alone(
    table: Map<Seq<char>, SourceLanguage>,
    config: ParserView,
    files: Seq<RawFileView>,
    place: int,
)
    requires
        0 <= place < files.len(),
    ensures
        report_of(table, config, files).corpus == report_of(
            table,
            config,
            files.take(place),
        ).corpus + report_of(table, config, seq![files[place]]).corpus + report_of(
            table,
            config,
            files.skip(place + 1),
        ).corpus,
        forall|entity: EntityView|
            report_of(table, config, seq![files[place]]).corpus.contains(entity) ==> report_of(
                table,
                config,
                files,
            ).corpus.contains(entity),
{
    let before = files.take(place);
    let one = seq![files[place]];
    let after = files.skip(place + 1);
    assert(files == before + one + after);
    lemma_report_of_concat(table, config, before + one, after);
    lemma_report_of_concat(table, config, before, one);
    let left = report_of(table, config, before).corpus;
    let middle = report_of(table, config, one).corpus;
    let right = report_of(table, config, after).corpus;
    assert forall|entity: EntityView| middle.contains(entity) implies report_of(
        table,
        config,
        files,
    ).corpus.contains(entity) by {
        let at = choose|at: int| 0 <= at < middle.len() && middle[at] == entity;
        assert((left + middle + right)[left.len() + at] == entity);
    }
}

/// Every entity of a corpus is a function with a name: neither its name nor
/// its kind is empty.
pub proof fn lemma_corpus_is_named(
    table: Map<Seq<char>, SourceLanguage>,
    config: ParserView,
    files: Seq<RawFileView>,
    entity: EntityView,
)
    requires
        report_of(table, config, files).corpus.contains(entity),
    ensures
        entity.name.len() > 0,
        entity.kind == "function"@,
        entity.kind.len() > 0,
{
    let entities = |result: FileResultView| entities_one(result);
    let sources = readable(config, files);
    let results = results_of(table, sources);
    lemma_flat_map_member(results, entities, entity);
    let at = choose|at: int| 0 <= at < results.len() && (#[trigger] entities(results[at])).contains(
        entity,
    );
    let result = results[at];
    assert(results.contains(result));
    lemma_flat_map_member(sources, result_each(table), result);
    let from = choose|from: int|
        0 <= from < sources.len() && (#[trigger] result_each(table)(sources[from])).contains(result);
    let source = sources[from];
    let language = route_of(table, source.path)->0;
    assert(result_one(table, source)[0] == result);
    let tree = syntax_tree(grammar_of(language), source.content)->0;
    let found = entities_of(outline_of(tree, source.content));
    lemma_entities_are_named(outline_of(tree, source.content));
    let within = choose|within: int| 0 <= within < found.len() && found[within] == entity;
    assert(found[within] == entity);
}

} // verus!
