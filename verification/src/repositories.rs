//! Where a repository comes from and where its copy goes, and who fetches
//! it.
//!
//! The two settings are read from the table `repository` of a TOML document
//! where there is one, and from the environment of the program where there
//! is none.

use crate::document::{
    entry, parse_document, string_of, toml_document, value_entry, value_string,
};
use crate::error::Error;
use vstd::prelude::*;

verus! {

/// The address of a repository and the place of its local copy.
#[derive(Debug, PartialEq)]
pub struct RepoConfig {
    pub repo_url: String,
    pub local_path: String,
}

/// What a [`RepoConfig`] says.
pub struct RepoView {
    pub repo_url: Seq<char>,
    pub local_path: Seq<char>,
}

impl View for RepoConfig {
    type V = RepoView;

    open spec fn view(&self) -> RepoView {
        RepoView { repo_url: self.repo_url@, local_path: self.local_path@ }
    }
}

/// The text under `key` in the table `table` of a document.
pub open spec fn setting(document: toml::Value, table: Seq<char>, key: Seq<char>) -> Option<
    Seq<char>,
> {
    match value_entry(document, table) {
        Some(inner) => match value_entry(inner, key) {
            Some(value) => value_string(value),
            None => None,
        },
        None => None,
    }
}

/// The settings that a parsed document holds, or the complaint about the
/// first that is missing: both have to be there, as strings.
pub open spec fn settings_in(document: toml::Value) -> Result<RepoView, Seq<char>> {
    match setting(document, "repository"@, "repo_url"@) {
        None => Err("Missing repository.repo_url"@),
        Some(repo_url) => match setting(document, "repository"@, "local_path"@) {
            None => Err("Missing repository.local_path"@),
            Some(local_path) => Ok(RepoView { repo_url, local_path }),
        },
    }
}

/// The settings that the text of a document holds, or what is wrong with
/// the document.
pub open spec fn settings_of_document(text: Seq<char>) -> Result<RepoView, Seq<char>> {
    match toml_document(text) {
        Err(message) => Err(message),
        Ok(document) => settings_in(document),
    }
}

/// The settings that the environment holds, or the complaint about the
/// first variable that is not set: both have to be.
pub open spec fn settings_of_environment(
    repo_url: Option<Seq<char>>,
    local_path: Option<Seq<char>>,
) -> Result<RepoView, Seq<char>> {
    match repo_url {
        None => Err("Missing REPO_URL"@),
        Some(repo_url) => match local_path {
            None => Err("Missing LOCAL_PATH"@),
            Some(local_path) => Ok(RepoView { repo_url, local_path }),
        },
    }
}

/// Whether `found` is what `expected` describes. A failure is known by its
/// message.
pub open spec fn matches_settings(
    found: Result<RepoConfig, String>,
    expected: Result<RepoView, Seq<char>>,
) -> bool {
    match expected {
        Ok(settings) => found matches Ok(config) && config@ == settings,
        Err(text) => found matches Err(message) && message@ == text,
    }
}

/// The text of an optional value.
pub open spec fn optional_text(value: Option<String>) -> Option<Seq<char>> {
    match value {
        Some(text) => Some(text@),
        None => None,
    }
}

/// The text of an optional piece of text.
pub open spec fn optional_piece(value: Option<&str>) -> Option<Seq<char>> {
    match value {
        Some(text) => Some(text@),
        None => None,
    }
}

fn missing(complaint: &str) -> (outcome: Result<RepoConfig, String>)
    ensures
        matches_settings(outcome, Err(complaint@)),
{
    Err(complaint.to_owned())
}

/// Looks up the text under `key` in the table `table` of a document.
fn lookup(document: &toml::Value, table: &str, key: &str) -> (found: Option<String>)
    ensures
        optional_text(found) == setting(*document, table@, key@),
{
    match entry(document, table) {
        Some(inner) => match entry(inner, key) {
            Some(value) => match string_of(value) {
                Some(text) => Some(text.to_owned()),
                None => None,
            },
            None => None,
        },
        None => None,
    }
}

/// Reads the settings out of a parsed document.
pub fn settings_from_document(document: &toml::Value) -> (outcome: Result<RepoConfig, String>)
    ensures
        matches_settings(outcome, settings_in(*document)),
{
    let repo_url = match lookup(document, "repository", "repo_url") {
        Some(repo_url) => repo_url,
        None => {
            return missing("Missing repository.repo_url");
        },
    };
    let local_path = match lookup(document, "repository", "local_path") {
        Some(local_path) => local_path,
        None => {
            return missing("Missing repository.local_path");
        },
    };
    Ok(RepoConfig { repo_url, local_path })
}

/// Takes the settings from the two variables of the environment.
pub fn settings_from_environment(repo_url: Option<String>, local_path: Option<String>) -> (outcome:
    Result<RepoConfig, String>)
    ensures
        matches_settings(
            outcome,
            settings_of_environment(optional_text(repo_url), optional_text(local_path)),
        ),
{
    let repo_url = match repo_url {
        Some(repo_url) => repo_url,
        None => {
            return missing("Missing REPO_URL");
        },
    };
    let local_path = match local_path {
        Some(local_path) => local_path,
        None => {
            return missing("Missing LOCAL_PATH");
        },
    };
    Ok(RepoConfig { repo_url, local_path })
}

/// Settles the settings of a repository. `document` is the text of the
/// settings file, where one was named and could be read; the settings are
/// then those of the document. Without a document they are those of the
/// environment, of which `repo_url` and `local_path` are the two variables.
/// A failure is the message that says what is wrong or missing.
pub fn load_config(
    document: Option<&str>,
    repo_url: Option<String>,
    local_path: Option<String>,
) -> (outcome: Result<RepoConfig, String>)
    ensures
        matches_settings(
            outcome,
            match optional_piece(document) {
                Some(text) => settings_of_document(text),
                None => settings_of_environment(optional_text(repo_url), optional_text(local_path)),
            },
        ),
{
    match document {
        Some(text) => match parse_document(text) {
            Ok(parsed) => settings_from_document(&parsed),
            Err(message) => Err(message),
        },
        None => settings_from_environment(repo_url, local_path),
    }
}

/// Something that can get a repository onto the disk.
pub trait GitRepo {
    /// What a call may come to: the promise of the one who implements the
    /// trait. Who promises nothing leaves it as it is.
    open spec fn may_yield(
        &self,
        repo_url: Seq<char>,
        local_path: Seq<char>,
        outcome: Result<(), Error>,
    ) -> bool {
        true
    }

    /// Clones the repository at `repo_url` to `local_path`.
    fn clone_repo(&self, repo_url: &str, local_path: &str) -> (outcome: Result<(), Error>)
        ensures
            self.may_yield(repo_url@, local_path@, outcome),
    ;
}

/// Clones a repository with the given client, and hands on what the client
/// reports, as it is.
pub fn clone_repository<T: GitRepo>(git_client: &T, repo_url: &str, local_path: &str) -> (outcome:
    Result<(), Error>)
    ensures
        git_client.may_yield(repo_url@, local_path@, outcome),
{
    git_client.clone_repo(repo_url, local_path)
}

} // verus!
