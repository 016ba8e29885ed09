//! The languages that the library can read, and the way from a file to the
//! extractor that understands it.
//!
//! A file goes to the extractor that claims its extension. A registry holds
//! these claims; it takes each extension once, so that no file can have two
//! extractors. A file whose extension nobody claims has none, and is passed
//! over.

use crate::ast_extractor::{matches_parse, Backend};
use crate::error::{reports, ConfigError, ConfigErrorView, Error, ParseError};
use crate::file_handler::{extension, extension_of};
use crate::metadata::CodeEntity;
use crate::text::{join, same_text};
use vstd::prelude::*;

verus! {

/// A language with an extractor of its own.
#[derive(Debug, Clone, Copy, PartialEq, Eq, Structural)]
pub enum SourceLanguage {
    Rust,
}

/// The claims of a list of entries: each extension with the language that
/// was entered for it last.
pub open spec fn table_of(entries: Seq<(String, SourceLanguage)>) -> Map<
    Seq<char>,
    SourceLanguage,
>
    decreases entries.len(),
{
    if entries.len() == 0 {
        Map::empty()
    } else {
        table_of(entries.drop_last()).insert(entries.last().0@, entries.last().1)
    }
}

/// The claims that the library starts with.
pub open spec fn standard_table() -> Map<Seq<char>, SourceLanguage> {
    Map::empty().insert("rs"@, SourceLanguage::Rust)
}

/// The language that a table gives for a path: the one that claims the
/// path's extension.
pub open spec fn route_of(table: Map<Seq<char>, SourceLanguage>, path: Seq<char>) -> Option<
    SourceLanguage,
> {
    match extension_of(path) {
        Some(extension) => if table.dom().contains(extension) {
            Some(table[extension])
        } else {
            None
        },
        None => None,
    }
}

/// Which language claims which extension.
#[derive(Debug)]
pub struct Registry {
    entries: Vec<(String, SourceLanguage)>,
}

impl View for Registry {
    type V = Map<Seq<char>, SourceLanguage>;

    closed spec fn view(&self) -> Map<Seq<char>, SourceLanguage> {
        table_of(self.entries@)
    }
}

impl Registry {
    /// A registry without claims.
    pub fn new() -> (registry: Registry)
        ensures
            registry@ == Map::<Seq<char>, SourceLanguage>::empty(),
    {
        Registry { entries: Vec::new() }
    }

    /// The registry that the library starts with: Rust claims `rs`.
    pub fn standard() -> (registry: Registry)
        ensures
            registry@ == standard_table(),
    {
        let mut entries: Vec<(String, SourceLanguage)> = Vec::new();
        entries.push(("rs".to_owned(), SourceLanguage::Rust));
        assert(entries@.drop_last() == Seq::<(String, SourceLanguage)>::empty());
        assert(table_of(entries@.drop_last()) == Map::<Seq<char>, SourceLanguage>::empty());
        assert(table_of(entries@) == standard_table());
        Registry { entries }
    }

    /// The language that claims an extension.
    pub fn claimant(&self, extension: &str) -> (found: Option<SourceLanguage>)
        ensures
            found == if self@.dom().contains(extension@) {
                Some(self@[extension@])
            } else {
                None
            },
    {
        let mut index: usize = self.entries.len();
        assert(self.entries@.take(index as int) == self.entries@);
        while index > 0
            invariant
                index <= self.entries.len(),
                self@.dom().contains(extension@) == table_of(
                    self.entries@.take(index as int),
                ).dom().contains(extension@),
                self@.dom().contains(extension@) ==> self@[extension@] == table_of(
                    self.entries@.take(index as int),
                )[extension@],
            decreases index,
        {
            let ghost upto = self.entries@.take(index as int);
            index -= 1;
            assert(upto.drop_last() == self.entries@.take(index as int));
            assert(upto.last() == self.entries@[index as int]);
            if same_text(self.entries[index].0.as_str(), extension) {
                return Some(self.entries[index].1);
            }
        }
        None
    }

    /// Enters the claim of a language to an extension. An extension that is
    /// claimed already is refused, and the registry stays as it was.
    pub fn register(&mut self, extension: &str, language: SourceLanguage) -> (outcome: Result<
        (),
        Error,
    >)
        ensures
            old(self)@.dom().contains(extension@) ==> final(self)@ == old(self)@ && reports(
                outcome,
                Some(ConfigErrorView::InvalidValue("extension claimed twice: "@ + extension@)),
            ),
            !old(self)@.dom().contains(extension@) ==> outcome is Ok && final(self)@ == old(
                self,
            )@.insert(extension@, language),
    {
        match self.claimant(extension) {
            Some(_) => Err(
                Error::Config(ConfigError::InvalidValue(join("extension claimed twice: ", extension))),
            ),
            None => {
                let ghost before = self.entries@;
                self.entries.push((extension.to_owned(), language));
                assert(self.entries@.drop_last() == before);
                Ok(())
            },
        }
    }

    /// The language whose extractor reads the file at `path`.
    pub fn route(&self, path: &str) -> (found: Option<SourceLanguage>)
        ensures
            found == route_of(self@, path@),
    {
        match extension(path) {
            Some(extension) => self.claimant(extension),
            None => None,
        }
    }
}

/// Lists the entities of one file. The file goes to the extractor of the
/// language that claims its path; a file that no language claims has no
/// entities.
pub fn parse_code(file_path: &str, content: &str) -> (found: Result<Vec<CodeEntity>, ParseError>)
    ensures
        match route_of(standard_table(), file_path@) {
            Some(language) => matches_parse(found, language, content@),
            None => found matches Ok(list) && list@.len() == 0,
        },
{
    let registry = Registry::standard();
    match registry.route(file_path) {
        Some(language) => match Backend::new(language) {
            Ok(mut backend) => backend.extract(content),
            Err(error) => Err(error),
        },
        None => Ok(Vec::new()),
    }
}

} // verus!
