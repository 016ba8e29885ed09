//! The outside parser, as far as the extractor reads its syntax trees.
//!
//! Nothing in this file is proved. Each function below makes one call into
//! `tree-sitter` and states what that call returns, mostly by giving the
//! result a name that the contracts of the extractor can speak of. A
//! grammar, a tree or a node stands here for what can be read from it, not
//! for its place in memory: the library never compares two of them.

use crate::language_support::SourceLanguage;
use vstd::prelude::*;
use vstd::utf8::{decode_utf8, encode_utf8, valid_utf8};

verus! {

#[verifier::external_type_specification]
#[verifier::external_body]
pub struct ExParser(tree_sitter::Parser);

#[verifier::external_type_specification]
#[verifier::external_body]
pub struct ExLanguage(tree_sitter::Language);

#[verifier::external_type_specification]
#[verifier::external_body]
pub struct ExLanguageError(tree_sitter::LanguageError);

#[verifier::external_type_specification]
#[verifier::external_body]
pub struct ExTree(tree_sitter::Tree);

#[verifier::external_type_specification]
#[verifier::external_body]
pub struct ExNode<'tree>(tree_sitter::Node<'tree>);

/// The grammar that the grammar crate of a language ships.
pub uninterp spec fn grammar_of(language: SourceLanguage) -> tree_sitter::Language;

/// The grammar that a parser works with, if it was given one.
pub uninterp spec fn parser_grammar(parser: tree_sitter::Parser) -> Option<tree_sitter::Language>;

/// Why `Parser::set_language` refuses a grammar, where it does: it goes by
/// the version of the grammar's format and by whether the grammar can be
/// parsed with, so by the grammar alone.
pub uninterp spec fn grammar_refusal(grammar: tree_sitter::Language) -> Option<
    tree_sitter::LanguageError,
>;

/// What `LanguageError` prints of itself.
pub uninterp spec fn grammar_fault_text(fault: tree_sitter::LanguageError) -> Seq<char>;

/// The tree that `Parser::parse` builds from a text under a grammar.
pub uninterp spec fn syntax_tree(grammar: tree_sitter::Language, text: Seq<char>) -> Option<
    tree_sitter::Tree,
>;

/// The root of a tree.
pub uninterp spec fn tree_root(tree: tree_sitter::Tree) -> tree_sitter::Node<'static>;

/// Whether a node is a syntax error or holds one.
pub uninterp spec fn node_has_error(node: tree_sitter::Node) -> bool;

/// The name of a node's type.
pub uninterp spec fn node_kind(node: tree_sitter::Node) -> Seq<char>;

/// How many children `Node::child_count` reports.
pub uninterp spec fn node_child_count(node: tree_sitter::Node) -> nat;

/// The child that `Node::child` finds at an index.
pub uninterp spec fn node_child(node: tree_sitter::Node, index: int) -> Option<
    tree_sitter::Node<'static>,
>;

/// The child that `Node::child_by_field_name` finds under a field name.
pub uninterp spec fn node_field(node: tree_sitter::Node, field: Seq<char>) -> Option<
    tree_sitter::Node<'static>,
>;

/// The byte offset at which a node starts.
pub uninterp spec fn node_start(node: tree_sitter::Node) -> nat;

/// The byte offset at which a node ends.
pub uninterp spec fn node_end(node: tree_sitter::Node) -> nat;

/// Turns the constant `tree_sitter_rust::LANGUAGE` into a `Language`. The
/// constant stands for one grammar, so the result depends on the language
/// alone.
#[verifier::external_body]
pub(crate) fn grammar(language: SourceLanguage) -> (grammar: tree_sitter::Language)
    ensures
        grammar == grammar_of(language),
{
    match language {
        SourceLanguage::Rust => tree_sitter_rust::LANGUAGE.into(),
    }
}

/// `Parser::new`: a parser that has no grammar yet.
#[verifier::external_body]
pub(crate) fn new_parser() -> (parser: tree_sitter::Parser)
    ensures
        parser_grammar(parser) is None,
{
    tree_sitter::Parser::new()
}

/// `Parser::set_language`. Whether it takes the grammar depends on the
/// grammar alone: it refuses one of another version of the parser's format
/// and one that cannot be parsed with, and says which. On success the
/// parser works with the grammar it was handed; on failure it keeps what it
/// had. (A grammar for WebAssembly it would take and then lack; without the
/// `wasm` feature there is none.)
#[verifier::external_body]
pub(crate) fn set_grammar(parser: &mut tree_sitter::Parser, grammar: &tree_sitter::Language) -> (outcome:
    Result<(), tree_sitter::LanguageError>)
    ensures
        match grammar_refusal(*grammar) {
            Some(fault) => outcome == Err::<(), tree_sitter::LanguageError>(fault),
            None => outcome is Ok,
        },
        outcome is Ok ==> parser_grammar(*final(parser)) == Some(*grammar),
        outcome is Err ==> parser_grammar(*final(parser)) == parser_grammar(*old(parser)),
{
    parser.set_language(grammar)
}

/// The `Display` text of a `LanguageError`.
#[verifier::external_body]
pub(crate) fn grammar_fault_message(fault: &tree_sitter::LanguageError) -> (message: String)
    ensures
        message@ == grammar_fault_text(*fault),
{
    fault.to_string()
}

/// `Parser::parse` on a whole text, with no earlier tree. The parser keeps
/// its grammar, and the tree depends on that grammar and the text alone.
/// This holds of a parser whose only setting is its grammar; the
/// library makes no other.
#[verifier::external_body]
pub(crate) fn parse_text(parser: &mut tree_sitter::Parser, text: &str) -> (tree: Option<
    tree_sitter::Tree,
>)
    ensures
        parser_grammar(*final(parser)) == parser_grammar(*old(parser)),
        parser_grammar(*old(parser)) matches Some(grammar) ==> tree == syntax_tree(grammar, text@),
    no_unwind
{
    parser.parse(text, None)
}

/// `Tree::root_node`. (It unwraps the root, which a tree always has.)
#[verifier::external_body]
pub(crate) fn root_node(tree: &tree_sitter::Tree) -> (node: tree_sitter::Node<'_>)
    ensures
        node == tree_root(*tree),
{
    tree.root_node()
}

/// `Node::has_error`.
#[verifier::external_body]
pub(crate) fn has_error(node: &tree_sitter::Node) -> (faulty: bool)
    ensures
        faulty == node_has_error(*node),
{
    node.has_error()
}

/// `Node::kind`. (It unwraps the name of the node's type, which the
/// grammar gives to every node of a tree, as text.)
#[verifier::external_body]
pub(crate) fn kind<'tree>(node: &tree_sitter::Node<'tree>) -> (name: &'tree str)
    ensures
        name@ == node_kind(*node),
{
    node.kind()
}

/// `Node::child_count`.
#[verifier::external_body]
pub(crate) fn child_count(node: &tree_sitter::Node) -> (count: u32)
    ensures
        count == node_child_count(*node),
{
    node.child_count()
}

/// `Node::child`.
#[verifier::external_body]
pub(crate) fn child<'tree>(node: &tree_sitter::Node<'tree>, index: u32) -> (found: Option<
    tree_sitter::Node<'tree>,
>)
    ensures
        found == node_child(*node, index as int),
{
    node.child(index)
}

/// `Node::child_by_field_name`.
#[verifier::external_body]
pub(crate) fn field<'tree>(node: &tree_sitter::Node<'tree>, name: &str) -> (found: Option<
    tree_sitter::Node<'tree>,
>)
    ensures
        found == node_field(*node, name@),
{
    node.child_by_field_name(name)
}

/// `Node::start_byte`.
#[verifier::external_body]
pub(crate) fn start_byte(node: &tree_sitter::Node) -> (offset: usize)
    ensures
        offset == node_start(*node),
{
    node.start_byte()
}

/// `Node::end_byte`.
#[verifier::external_body]
pub(crate) fn end_byte(node: &tree_sitter::Node) -> (offset: usize)
    ensures
        offset == node_end(*node),
{
    node.end_byte()
}

/// `Node::utf8_text`, which decodes the bytes of the source between the
/// node's start and its end. It indexes the source with that range, so the
/// range has to lie within the source.
#[verifier::external_body]
pub(crate) fn text<'a>(node: &tree_sitter::Node, source: &'a str) -> (found: Option<&'a str>)
    requires
        node_start(*node) <= node_end(*node) <= encode_utf8(source@).len(),
    ensures
        found is Some <==> valid_utf8(
            encode_utf8(source@).subrange(node_start(*node) as int, node_end(*node) as int),
        ),
        found matches Some(t) ==> t@ == decode_utf8(
            encode_utf8(source@).subrange(node_start(*node) as int, node_end(*node) as int),
        ),
{
    node.utf8_text(source.as_bytes()).ok()
}

} // verus!
