//! From the syntax tree of a file to the entities it declares.
//!
//! Only the top-level nodes of a tree are read. Each becomes a
//! [`Declaration`], its kind and the text of its name; [`extract_entities`]
//! turns the declarations of the kinds it knows into entities. Nothing here
//! depends on what the parser found but through the names of
//! [`crate::syntax`].

use crate::error::ParseError;
use crate::language_support::SourceLanguage;
use crate::metadata::{entity_views, CodeEntity, EntityView};
use crate::syntax::{
    child, child_count, end_byte, field, grammar, grammar_fault_message, grammar_fault_text,
    grammar_of, grammar_refusal, has_error, kind, new_parser, node_child, node_child_count, node_end, node_field,
    node_has_error, node_kind, node_start, parse_text, parser_grammar, root_node, set_grammar,
    start_byte, syntax_tree, text, tree_root,
};
use crate::text::same_text;
use vstd::prelude::*;
use vstd::utf8::{decode_utf8, encode_utf8, valid_utf8};

verus! {

/// One top-level node of a syntax tree: the name of its kind and, where the
/// node has a name of its own, that name.
#[derive(Debug)]
pub struct Declaration {
    pub kind: String,
    pub name: Option<String>,
}

/// What a [`Declaration`] says, as sequences of characters.
pub struct DeclarationView {
    pub kind: Seq<char>,
    pub name: Option<Seq<char>>,
}

impl View for Declaration {
    type V = DeclarationView;

    open spec fn view(&self) -> DeclarationView {
        DeclarationView {
            kind: self.kind@,
            name: match self.name {
                Some(name) => Some(name@),
                None => None,
            },
        }
    }
}

/// The views of a sequence of declarations, in order.
pub open spec fn declaration_views(declarations: Seq<Declaration>) -> Seq<DeclarationView> {
    declarations.map_values(|d: Declaration| d@)
}

/// The kind of entity that a node of the given kind declares, if any.
pub open spec fn entity_kind(node_kind: Seq<char>) -> Option<Seq<char>> {
    if node_kind == "function_item"@ || node_kind == "function_definition"@ {
        Some("function"@)
    } else {
        None
    }
}

/// The entity that a declaration stands for: one of a known kind that has a
/// name which is not empty. Any other declaration is passed over.
pub open spec fn entity_of(declaration: DeclarationView) -> Option<EntityView> {
    match (entity_kind(declaration.kind), declaration.name) {
        (Some(kind), Some(name)) => if name.len() > 0 {
            Some(EntityView { name, kind, details: Seq::empty() })
        } else {
            None
        },
        _ => None,
    }
}

/// The entities of a run of declarations, in the order of the declarations.
pub open spec fn entities_of(declarations: Seq<DeclarationView>) -> Seq<EntityView>
    decreases declarations.len(),
{
    if declarations.len() == 0 {
        Seq::empty()
    } else {
        let before = entities_of(declarations.drop_last());
        match entity_of(declarations.last()) {
            Some(entity) => before.push(entity),
            None => before,
        }
    }
}

/// Every entity of a run of declarations is a function with a name: neither
/// its name nor its kind is empty.
pub proof fn lemma_entities_are_named(declarations: Seq<DeclarationView>)
    ensures
        forall|i: int|
            0 <= i < entities_of(declarations).len() ==> {
                let entity = #[trigger] entities_of(declarations)[i];
                entity.name.len() > 0 && entity.kind == "function"@ && entity.kind.len() > 0
            },
    decreases declarations.len(),
{
    reveal_strlit("function");
    if declarations.len() > 0 {
        let before = entities_of(declarations.drop_last());
        lemma_entities_are_named(declarations.drop_last());
        assert forall|i: int| 0 <= i < entities_of(declarations).len() implies {
            let entity = #[trigger] entities_of(declarations)[i];
            entity.name.len() > 0 && entity.kind == "function"@ && entity.kind.len() > 0
        } by {
            if i < before.len() {
                assert(entities_of(declarations)[i] == before[i]);
            }
        }
    }
}

/// The kind of entity that a node kind maps to.
pub fn classify(node_kind: &str) -> (found: Option<String>)
    ensures
        match entity_kind(node_kind@) {
            Some(kind) => found matches Some(k) && k@ == kind,
            None => found is None,
        },
{
    if same_text(node_kind, "function_item") || same_text(node_kind, "function_definition") {
        Some("function".to_owned())
    } else {
        None
    }
}

/// Turns one declaration into its entity.
pub fn entity_from(declaration: &Declaration) -> (found: Option<CodeEntity>)
    ensures
        match entity_of(declaration@) {
            Some(entity) => found matches Some(e) && e@ == entity,
            None => found is None,
        },
{
    match (classify(declaration.kind.as_str()), &declaration.name) {
        (Some(kind), Some(name)) => {
            if !name.as_str().is_empty() {
                Some(CodeEntity { name: name.clone(), kind, details: String::new() })
            } else {
                None
            }
        },
        _ => None,
    }
}

/// Lists the entities that the declarations of a file stand for, in the order
/// of the declarations.
pub fn extract_entities(declarations: &Vec<Declaration>) -> (entities: Vec<CodeEntity>)
    ensures
        entity_views(entities@) == entities_of(declaration_views(declarations@)),
{
    let mut entities: Vec<CodeEntity> = Vec::new();
    let mut index: usize = 0;
    while index < declarations.len()
        invariant
            index <= declarations.len(),
            entity_views(entities@) == entities_of(
                declaration_views(declarations@).take(index as int),
            ),
        decreases declarations.len() - index,
    {
        let ghost views = declaration_views(declarations@);
        let ghost before = entity_views(entities@);
        assert(views.take(index + 1).drop_last() == views.take(index as int));
        assert(views.take(index + 1).last() == declarations@[index as int]@);
        match entity_from(&declarations[index]) {
            Some(entity) => {
                entities.push(entity);
                assert(entity_views(entities@) == before.push(entity@));
            },
            None => {},
        }
        index += 1;
    }
    assert(declaration_views(declarations@).take(index as int) == declaration_views(
        declarations@,
    ));
    entities
}

/// The text that a source holds between two byte offsets, where they mark
/// out well-formed UTF-8 within it.
pub open spec fn span_text(source: Seq<char>, start: nat, end: nat) -> Option<Seq<char>> {
    let bytes = encode_utf8(source);
    if start <= end <= bytes.len() && valid_utf8(bytes.subrange(start as int, end as int)) {
        Some(decode_utf8(bytes.subrange(start as int, end as int)))
    } else {
        None
    }
}

/// The name of a node: the text of the child in its field `name`.
pub open spec fn name_of(node: tree_sitter::Node, source: Seq<char>) -> Option<Seq<char>> {
    match node_field(node, "name"@) {
        Some(child) => span_text(source, node_start(child), node_end(child)),
        None => None,
    }
}

/// The declaration that the child of `root` at `index` stands for.
pub open spec fn declaration_at(root: tree_sitter::Node, source: Seq<char>, index: int) -> Option<
    DeclarationView,
> {
    match node_child(root, index) {
        Some(child) => Some(
            DeclarationView { kind: node_kind(child), name: name_of(child, source) },
        ),
        None => None,
    }
}

/// The declarations of the first `count` children of `root`, in their order.
pub open spec fn outline_upto(root: tree_sitter::Node, source: Seq<char>, count: nat) -> Seq<
    DeclarationView,
>
    decreases count,
{
    if count == 0 {
        Seq::empty()
    } else {
        let before = outline_upto(root, source, (count - 1) as nat);
        match declaration_at(root, source, count - 1) {
            Some(declaration) => before.push(declaration),
            None => before,
        }
    }
}

/// The declarations at the top level of a tree that was parsed from `source`.
pub open spec fn outline_of(tree: tree_sitter::Tree, source: Seq<char>) -> Seq<DeclarationView> {
    outline_upto(tree_root(tree), source, node_child_count(tree_root(tree)))
}

/// Why a file yields no entities.
#[derive(Debug, Clone, Copy, PartialEq, Eq, Structural)]
pub enum SyntaxFault {
    /// The parser handed back no tree.
    NoTree,
    /// The tree holds a syntax error.
    Malformed,
}

impl SyntaxFault {
    /// The words that say what went wrong.
    pub open spec fn detail(self) -> Seq<char> {
        match self {
            SyntaxFault::NoTree => "the parser returned no syntax tree"@,
            SyntaxFault::Malformed => "the source holds a syntax error"@,
        }
    }

    /// Whether `error` is the error that reports this fault.
    pub open spec fn describes(self, error: ParseError) -> bool {
        match self {
            SyntaxFault::NoTree => error matches ParseError::TraversalError(detail) && detail@
                == self.detail(),
            SyntaxFault::Malformed => error matches ParseError::InvalidSource(detail) && detail@
                == self.detail(),
        }
    }

    /// The text of the error that reports this fault.
    pub open spec fn text(self) -> Seq<char> {
        match self {
            SyntaxFault::NoTree => "AST traversal error: "@ + self.detail(),
            SyntaxFault::Malformed => "Invalid source code: "@ + self.detail(),
        }
    }

    /// The error that reports this fault.
    pub fn to_error(self) -> (error: ParseError)
        ensures
            self.describes(error),
            error.text() == self.text(),
    {
        match self {
            SyntaxFault::NoTree => ParseError::TraversalError(
                "the parser returned no syntax tree".to_owned(),
            ),
            SyntaxFault::Malformed => ParseError::InvalidSource(
                "the source holds a syntax error".to_owned(),
            ),
        }
    }
}

/// What a tree yields: the entities of its outline, unless it holds a syntax
/// error.
pub open spec fn tree_entities(tree: tree_sitter::Tree, source: Seq<char>) -> Result<
    Seq<EntityView>,
    SyntaxFault,
> {
    if node_has_error(tree_root(tree)) {
        Err(SyntaxFault::Malformed)
    } else {
        Ok(entities_of(outline_of(tree, source)))
    }
}

/// What a source yields under a grammar.
pub open spec fn extraction(grammar: tree_sitter::Language, source: Seq<char>) -> Result<
    Seq<EntityView>,
    SyntaxFault,
> {
    match syntax_tree(grammar, source) {
        Some(tree) => tree_entities(tree, source),
        None => Err(SyntaxFault::NoTree),
    }
}

/// Whether `found` is what `expected` describes.
pub open spec fn matches_extraction(
    found: Result<Vec<CodeEntity>, ParseError>,
    expected: Result<Seq<EntityView>, SyntaxFault>,
) -> bool {
    match expected {
        Ok(entities) => found matches Ok(list) && entity_views(list@) == entities,
        Err(fault) => found matches Err(error) && fault.describes(error),
    }
}

/// Reads the name of a node out of the source.
fn name_text(node: &tree_sitter::Node, source: &str) -> (found: Option<String>)
    ensures
        match name_of(*node, source@) {
            Some(name) => found matches Some(text) && text@ == name,
            None => found is None,
        },
{
    match field(node, "name") {
        Some(child) => {
            let start = start_byte(&child);
            let end = end_byte(&child);
            if start <= end && end <= source.as_bytes().len() {
                match text(&child, source) {
                    Some(name) => Some(name.to_owned()),
                    None => None,
                }
            } else {
                None
            }
        },
        None => None,
    }
}

/// Lists the top-level declarations of a tree that was parsed from `source`.
pub fn outline(tree: &tree_sitter::Tree, source: &str) -> (declarations: Vec<Declaration>)
    ensures
        declaration_views(declarations@) == outline_of(*tree, source@),
{
    let root = root_node(tree);
    let count = child_count(&root);
    let mut declarations: Vec<Declaration> = Vec::new();
    let mut index: u32 = 0;
    while index < count
        invariant
            index <= count,
            root == tree_root(*tree),
            count == node_child_count(root),
            declaration_views(declarations@) == outline_upto(root, source@, index as nat),
        decreases count - index,
    {
        let ghost before = declaration_views(declarations@);
        match child(&root, index) {
            Some(node) => {
                let declaration = Declaration {
                    kind: kind(&node).to_owned(),
                    name: name_text(&node, source),
                };
                declarations.push(declaration);
                assert(declaration_views(declarations@) == before.push(declaration@));
            },
            None => {},
        }
        index += 1;
    }
    declarations
}

/// Lists the entities of a tree that was parsed from `source`, or reports
/// the syntax error that the tree holds.
pub fn entities_in(tree: &tree_sitter::Tree, source: &str) -> (found: Result<
    Vec<CodeEntity>,
    ParseError,
>)
    ensures
        matches_extraction(found, tree_entities(*tree, source@)),
{
    let root = root_node(tree);
    if has_error(&root) {
        Err(SyntaxFault::Malformed.to_error())
    } else {
        let declarations = outline(tree, source);
        Ok(extract_entities(&declarations))
    }
}

/// Whether `error` says that a grammar was refused, in the words of `fault`.
pub open spec fn reports_fault(error: ParseError, fault: tree_sitter::LanguageError) -> bool {
    error matches ParseError::GrammarLoadFailed(detail) && detail@ == grammar_fault_text(fault)
}

/// The error for a grammar that a parser refused.
pub fn load_failure(fault: &tree_sitter::LanguageError) -> (error: ParseError)
    ensures
        reports_fault(error, *fault),
{
    ParseError::GrammarLoadFailed(grammar_fault_message(fault))
}

/// The extractor of one language: a parser that holds the language's grammar.
pub struct Backend {
    language: SourceLanguage,
    parser: tree_sitter::Parser,
}

impl Backend {
    #[verifier::type_invariant]
    spec fn holds_grammar(self) -> bool {
        parser_grammar(self.parser) == Some(grammar_of(self.language))
    }

    /// The language that the backend reads.
    pub closed spec fn language(&self) -> SourceLanguage {
        self.language
    }

    /// Sets up the extractor of a language. It fails exactly where the parser
    /// refuses the language's grammar, and then says why in the parser's
    /// words.
    pub fn new(language: SourceLanguage) -> (made: Result<Backend, ParseError>)
        ensures
            match grammar_refusal(grammar_of(language)) {
                None => made matches Ok(backend) && backend.language() == language,
                Some(fault) => made matches Err(error) && reports_fault(error, fault),
            },
    {
        let mut parser = new_parser();
        let grammar = grammar(language);
        match set_grammar(&mut parser, &grammar) {
            Ok(()) => Ok(Backend { language, parser }),
            Err(fault) => Err(load_failure(&fault)),
        }
    }

    /// The language that the backend reads.
    pub fn source_language(&self) -> (language: SourceLanguage)
        ensures
            language == self.language(),
    {
        self.language
    }

    /// Parses a source and lists the entities that it declares at its top
    /// level.
    pub fn extract(&mut self, content: &str) -> (found: Result<Vec<CodeEntity>, ParseError>)
        ensures
            final(self).language() == old(self).language(),
            matches_extraction(found, extraction(grammar_of(old(self).language()), content@)),
    {
        proof {
            use_type_invariant(&*self);
        }
        match parse_text(&mut self.parser, content) {
            Some(tree) => entities_in(&tree, content),
            None => Err(SyntaxFault::NoTree.to_error()),
        }
    }
}

/// Whether `found` is what parsing `source` as `language` comes to: the
/// report of the refusal where the parser refuses the language's grammar,
/// else what the source yields under that grammar.
pub open spec fn matches_parse(
    found: Result<Vec<CodeEntity>, ParseError>,
    language: SourceLanguage,
    source: Seq<char>,
) -> bool {
    match grammar_refusal(grammar_of(language)) {
        Some(fault) => found matches Err(error) && reports_fault(error, fault),
        None => matches_extraction(found, extraction(grammar_of(language), source)),
    }
}

/// Parses Rust source and lists the functions that it declares at its top
/// level.
pub fn parse_rust(source_code: &str) -> (found: Result<Vec<CodeEntity>, ParseError>)
    ensures
        matches_parse(found, SourceLanguage::Rust, source_code@),
{
    match Backend::new(SourceLanguage::Rust) {
        Ok(mut backend) => backend.extract(source_code),
        Err(error) => Err(error),
    }
}

} // verus!
