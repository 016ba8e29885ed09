//! The configuration of the application and the rules it has to meet.

use crate::error::{reports, ConfigError, ConfigErrorView, Error};
use crate::logging::{parsed_level, LogLevel};
use crate::text::{join, texts};
use vstd::prelude::*;

verus! {

/// The whole configuration.
#[derive(Debug, Clone)]
pub struct Config {
    pub logging: LoggingConfig,
    pub parser: ParserConfig,
    pub storage: StorageConfig,
    pub embeddings: EmbeddingsConfig,
}

/// How the application logs.
#[derive(Debug, Clone)]
pub struct LoggingConfig {
    pub level: String,
}

/// Which files the pipeline reads: none larger than `max_file_size` bytes,
/// only those with one of `extensions`, and none below a directory named in
/// `exclude_dirs`.
#[derive(Debug, Clone)]
pub struct ParserConfig {
    pub max_file_size: usize,
    pub extensions: Vec<String>,
    pub exclude_dirs: Vec<String>,
}

/// Where the catalogue is stored.
#[derive(Debug, Clone)]
pub struct StorageConfig {
    pub surreal_url: String,
    pub surreal_user: String,
    pub surreal_password: String,
    pub qdrant_url: String,
    pub qdrant_collection: String,
}

/// How embeddings are computed.
#[derive(Debug, Clone)]
pub struct EmbeddingsConfig {
    pub model_path: String,
    pub dimension: usize,
    pub max_chunk_size: usize,
    pub chunk_overlap: usize,
}

/// What a [`LoggingConfig`] says.
pub struct LoggingView {
    pub level: Seq<char>,
}

/// What a [`ParserConfig`] says.
pub struct ParserView {
    pub max_file_size: nat,
    pub extensions: Seq<Seq<char>>,
    pub exclude_dirs: Seq<Seq<char>>,
}

/// What a [`StorageConfig`] says.
pub struct StorageView {
    pub surreal_url: Seq<char>,
    pub surreal_user: Seq<char>,
    pub surreal_password: Seq<char>,
    pub qdrant_url: Seq<char>,
    pub qdrant_collection: Seq<char>,
}

/// What an [`EmbeddingsConfig`] says.
pub struct EmbeddingsView {
    pub model_path: Seq<char>,
    pub dimension: nat,
    pub max_chunk_size: nat,
    pub chunk_overlap: nat,
}

/// What a [`Config`] says.
pub struct ConfigView {
    pub logging: LoggingView,
    pub parser: ParserView,
    pub storage: StorageView,
    pub embeddings: EmbeddingsView,
}

impl View for LoggingConfig {
    type V = LoggingView;

    open spec fn view(&self) -> LoggingView {
        LoggingView { level: self.level@ }
    }
}

impl View for ParserConfig {
    type V = ParserView;

    open spec fn view(&self) -> ParserView {
        ParserView {
            max_file_size: self.max_file_size as nat,
            extensions: texts(self.extensions@),
            exclude_dirs: texts(self.exclude_dirs@),
        }
    }
}

impl View for StorageConfig {
    type V = StorageView;

    open spec fn view(&self) -> StorageView {
        StorageView {
            surreal_url: self.surreal_url@,
            surreal_user: self.surreal_user@,
            surreal_password: self.surreal_password@,
            qdrant_url: self.qdrant_url@,
            qdrant_collection: self.qdrant_collection@,
        }
    }
}

impl View for EmbeddingsConfig {
    type V = EmbeddingsView;

    open spec fn view(&self) -> EmbeddingsView {
        EmbeddingsView {
            model_path: self.model_path@,
            dimension: self.dimension as nat,
            max_chunk_size: self.max_chunk_size as nat,
            chunk_overlap: self.chunk_overlap as nat,
        }
    }
}

impl View for Config {
    type V = ConfigView;

    open spec fn view(&self) -> ConfigView {
        ConfigView {
            logging: self.logging@,
            parser: self.parser@,
            storage: self.storage@,
            embeddings: self.embeddings@,
        }
    }
}

/// What was found where a configuration file was looked for.
#[derive(Debug)]
pub enum ConfigSource {
    /// No file is there.
    Missing,
    /// The file could not be read as a configuration; the text says why.
    Unreadable(String),
    /// The configuration that the file holds.
    Parsed(Config),
}

/// The configuration that is used where no file gives one.
pub open spec fn default_config() -> ConfigView {
    ConfigView {
        logging: LoggingView { level: "info"@ },
        parser: ParserView {
            max_file_size: 1048576,
            extensions: seq!["rs"@],
            exclude_dirs: seq!["target"@, ".git"@],
        },
        storage: StorageView {
            surreal_url: "ws://localhost:8000"@,
            surreal_user: "root"@,
            surreal_password: "root"@,
            qdrant_url: "http://localhost:6333"@,
            qdrant_collection: "code-rag"@,
        },
        embeddings: EmbeddingsView {
            model_path: "models/codebert"@,
            dimension: 768,
            max_chunk_size: 512,
            chunk_overlap: 128,
        },
    }
}

/// The first rule that a configuration breaks, with the complaint about it:
/// the log level has to be a level's name, the two storage addresses must not
/// be empty, the embedding dimension and the largest file size have to be
/// positive, and at least one extension has to be named.
pub open spec fn first_fault(config: ConfigView) -> Option<ConfigErrorView> {
    if parsed_level(config.logging.level) is Err {
        Some(parsed_level(config.logging.level)->Err_0)
    } else if config.storage.surreal_url.len() == 0 {
        Some(ConfigErrorView::ValidationFailed("SurrealDB URL cannot be empty"@))
    } else if config.storage.qdrant_url.len() == 0 {
        Some(ConfigErrorView::ValidationFailed("Qdrant URL cannot be empty"@))
    } else if config.embeddings.dimension == 0 {
        Some(ConfigErrorView::ValidationFailed("Embedding dimension must be greater than 0"@))
    } else if config.parser.extensions.len() == 0 {
        Some(ConfigErrorView::ValidationFailed("Parser extensions cannot be empty"@))
    } else if config.parser.max_file_size == 0 {
        Some(ConfigErrorView::ValidationFailed("Maximum file size must be greater than 0"@))
    } else {
        None
    }
}

/// What loading from `source`, looked for at `path`, yields.
pub open spec fn loaded(path: Seq<char>, source: ConfigSource) -> Result<
    ConfigView,
    ConfigErrorView,
> {
    match source {
        ConfigSource::Missing => Err(
            ConfigErrorView::LoadFailed("Configuration file not found: "@ + path),
        ),
        ConfigSource::Unreadable(reason) => Err(ConfigErrorView::LoadFailed(reason@)),
        ConfigSource::Parsed(config) => Ok(config@),
    }
}

/// Whether `found` is what `expected` describes.
pub open spec fn matches_loaded(
    found: Result<Config, Error>,
    expected: Result<ConfigView, ConfigErrorView>,
) -> bool {
    match expected {
        Ok(config) => found matches Ok(c) && c@ == config,
        Err(fault) => found matches Err(Error::Config(error)) && error@ == fault,
    }
}

fn failed(complaint: &str) -> (outcome: Result<(), Error>)
    ensures
        reports(outcome, Some(ConfigErrorView::ValidationFailed(complaint@))),
{
    Err(Error::Config(ConfigError::ValidationFailed(complaint.to_owned())))
}

impl Config {
    /// The places where a configuration file is looked for when none is
    /// named, in the order in which they are tried.
    pub fn default_paths() -> (paths: Vec<String>)
        ensures
            texts(paths@) == seq![
                "config.json"@,
                "config/config.json"@,
                "/etc/query-ai/config.json"@,
            ],
    {
        let mut paths: Vec<String> = Vec::new();
        paths.push("config.json".to_owned());
        paths.push("config/config.json".to_owned());
        paths.push("/etc/query-ai/config.json".to_owned());
        assert(texts(paths@) == seq![
            "config.json"@,
            "config/config.json"@,
            "/etc/query-ai/config.json"@,
        ]);
        paths
    }

    /// Settles what loading the file at `path` comes to, given what was
    /// found there.
    pub fn load(path: &str, source: ConfigSource) -> (outcome: Result<Config, Error>)
        ensures
            matches_loaded(outcome, loaded(path@, source)),
    {
        match source {
            ConfigSource::Missing => Err(
                Error::Config(
                    ConfigError::LoadFailed(join("Configuration file not found: ", path)),
                ),
            ),
            ConfigSource::Unreadable(reason) => Err(Error::Config(ConfigError::LoadFailed(reason))),
            ConfigSource::Parsed(config) => Ok(config),
        }
    }

    /// Settles the configuration to run with when no file was named: the one
    /// of the first default place that holds a file, or the default where
    /// none does.
    pub fn load_default(found: Option<(String, ConfigSource)>) -> (outcome: Result<Config, Error>)
        ensures
            match found {
                Some((path, source)) => matches_loaded(outcome, loaded(path@, source)),
                None => matches_loaded(outcome, Ok(default_config())),
            },
    {
        match found {
            Some((path, source)) => Config::load(path.as_str(), source),
            None => Ok(Config::default()),
        }
    }

    /// Checks the configuration against the rules, and reports the first one
    /// that it breaks.
    pub fn validate(&self) -> (outcome: Result<(), Error>)
        ensures
            reports(outcome, first_fault(self@)),
    {
        match LogLevel::parse(self.logging.level.as_str()) {
            Err(error) => {
                return Err(error);
            },
            Ok(_) => {},
        }
        if self.storage.surreal_url.as_str().is_empty() {
            return failed("SurrealDB URL cannot be empty");
        }
        if self.storage.qdrant_url.as_str().is_empty() {
            return failed("Qdrant URL cannot be empty");
        }
        if self.embeddings.dimension == 0 {
            return failed("Embedding dimension must be greater than 0");
        }
        if self.parser.extensions.len() == 0 {
            return failed("Parser extensions cannot be empty");
        }
        if self.parser.max_file_size == 0 {
            return failed("Maximum file size must be greater than 0");
        }
        Ok(())
    }
}

impl Default for Config {
    fn default() -> (config: Config)
        ensures
            config@ == default_config(),
    {
        let mut extensions: Vec<String> = Vec::new();
        extensions.push("rs".to_owned());
        let mut exclude_dirs: Vec<String> = Vec::new();
        exclude_dirs.push("target".to_owned());
        exclude_dirs.push(".git".to_owned());
        assert(texts(extensions@) == seq!["rs"@]);
        assert(texts(exclude_dirs@) == seq!["target"@, ".git"@]);
        Config {
            logging: LoggingConfig { level: "info".to_owned() },
            parser: ParserConfig { max_file_size: 1048576, extensions, exclude_dirs },
            storage: StorageConfig {
                surreal_url: "ws://localhost:8000".to_owned(),
                surreal_user: "root".to_owned(),
                surreal_password: "root".to_owned(),
                qdrant_url: "http://localhost:6333".to_owned(),
                qdrant_collection: "code-rag".to_owned(),
            },
            embeddings: EmbeddingsConfig {
                model_path: "models/codebert".to_owned(),
                dimension: 768,
                max_chunk_size: 512,
                chunk_overlap: 128,
            },
        }
    }
}

} // verus!
