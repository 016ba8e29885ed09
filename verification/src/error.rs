//! The errors that the library reports.

use crate::text::join;
use vstd::prelude::*;
use vstd::std_specs::convert::FromSpecImpl;

verus! {

/// A failure while parsing source code.
#[derive(Debug)]
pub enum ParseError {
    ParseFailed { file: String, message: String },
    GrammarLoadFailed(String),
    TraversalError(String),
    InvalidSource(String),
}

/// A failure of the storage layer.
#[derive(Debug)]
pub enum StorageError {
    ConnectionFailed(String),
    QueryFailed(String),
    TransactionFailed(String),
    NotFound(String),
    VectorError(String),
}

/// A failure while computing embeddings.
#[derive(Debug)]
pub enum EmbeddingError {
    ModelLoadFailed(String),
    GenerationFailed(String),
    InvalidInput(String),
    VectorOperationFailed(String),
}

/// A failure while loading or checking a configuration.
#[derive(Debug)]
pub enum ConfigError {
    LoadFailed(String),
    MissingValue(String),
    InvalidValue(String),
    ValidationFailed(String),
}

/// Any failure of the library. `Io` holds the text of the failed operation's
/// error.
#[derive(Debug)]
pub enum Error {
    Parse(ParseError),
    Storage(StorageError),
    Embedding(EmbeddingError),
    Config(ConfigError),
    Io(String),
    Other(String),
}

/// What a [`ConfigError`] says, as sequences of characters.
pub enum ConfigErrorView {
    LoadFailed(Seq<char>),
    MissingValue(Seq<char>),
    InvalidValue(Seq<char>),
    ValidationFailed(Seq<char>),
}

impl View for ConfigError {
    type V = ConfigErrorView;

    open spec fn view(&self) -> ConfigErrorView {
        match self {
            ConfigError::LoadFailed(detail) => ConfigErrorView::LoadFailed(detail@),
            ConfigError::MissingValue(detail) => ConfigErrorView::MissingValue(detail@),
            ConfigError::InvalidValue(detail) => ConfigErrorView::InvalidValue(detail@),
            ConfigError::ValidationFailed(detail) => ConfigErrorView::ValidationFailed(detail@),
        }
    }
}

/// Whether `found` reports exactly the fault `expected`, or none.
pub open spec fn reports(found: Result<(), Error>, expected: Option<ConfigErrorView>) -> bool {
    match expected {
        None => found is Ok,
        Some(fault) => found matches Err(Error::Config(error)) && error@ == fault,
    }
}

impl ParseError {
    /// The text that describes the error.
    pub open spec fn text(&self) -> Seq<char> {
        match self {
            ParseError::ParseFailed { file, message } => "Failed to parse file "@ + file@ + ": "@
                + message@,
            ParseError::GrammarLoadFailed(detail) => "Failed to load grammar: "@ + detail@,
            ParseError::TraversalError(detail) => "AST traversal error: "@ + detail@,
            ParseError::InvalidSource(detail) => "Invalid source code: "@ + detail@,
        }
    }

    pub fn message(&self) -> (message: String)
        ensures
            message@ == self.text(),
    {
        match self {
            ParseError::ParseFailed { file, message } => {
                let lead = join("Failed to parse file ", file.as_str());
                let lead = join(lead.as_str(), ": ");
                join(lead.as_str(), message.as_str())
            },
            ParseError::GrammarLoadFailed(detail) => join("Failed to load grammar: ", detail.as_str()),
            ParseError::TraversalError(detail) => join("AST traversal error: ", detail.as_str()),
            ParseError::InvalidSource(detail) => join("Invalid source code: ", detail.as_str()),
        }
    }
}

impl StorageError {
    /// The text that describes the error.
    pub open spec fn text(&self) -> Seq<char> {
        match self {
            StorageError::ConnectionFailed(detail) => "Database connection error: "@ + detail@,
            StorageError::QueryFailed(detail) => "Query execution error: "@ + detail@,
            StorageError::TransactionFailed(detail) => "Transaction error: "@ + detail@,
            StorageError::NotFound(detail) => "Data not found: "@ + detail@,
            StorageError::VectorError(detail) => "Vector storage error: "@ + detail@,
        }
    }

    pub fn message(&self) -> (message: String)
        ensures
            message@ == self.text(),
    {
        match self {
            StorageError::ConnectionFailed(detail) => join(
                "Database connection error: ",
                detail.as_str(),
            ),
            StorageError::QueryFailed(detail) => join("Query execution error: ", detail.as_str()),
            StorageError::TransactionFailed(detail) => join("Transaction error: ", detail.as_str()),
            StorageError::NotFound(detail) => join("Data not found: ", detail.as_str()),
            StorageError::VectorError(detail) => join("Vector storage error: ", detail.as_str()),
        }
    }
}

impl EmbeddingError {
    /// The text that describes the error.
    pub open spec fn text(&self) -> Seq<char> {
        match self {
            EmbeddingError::ModelLoadFailed(detail) => "Model loading error: "@ + detail@,
            EmbeddingError::GenerationFailed(detail) => "Embedding generation error: "@ + detail@,
            EmbeddingError::InvalidInput(detail) => "Invalid input for embedding: "@ + detail@,
            EmbeddingError::VectorOperationFailed(detail) => "Vector operation error: "@ + detail@,
        }
    }

    pub fn message(&self) -> (message: String)
        ensures
            message@ == self.text(),
    {
        match self {
            EmbeddingError::ModelLoadFailed(detail) => join("Model loading error: ", detail.as_str()),
            EmbeddingError::GenerationFailed(detail) => join(
                "Embedding generation error: ",
                detail.as_str(),
            ),
            EmbeddingError::InvalidInput(detail) => join(
                "Invalid input for embedding: ",
                detail.as_str(),
            ),
            EmbeddingError::VectorOperationFailed(detail) => join(
                "Vector operation error: ",
                detail.as_str(),
            ),
        }
    }
}

impl ConfigError {
    /// The text that describes the error.
    pub open spec fn text(&self) -> Seq<char> {
        match self {
            ConfigError::LoadFailed(detail) => "Configuration loading error: "@ + detail@,
            ConfigError::MissingValue(detail) => "Missing configuration value: "@ + detail@,
            ConfigError::InvalidValue(detail) => "Invalid configuration value: "@ + detail@,
            ConfigError::ValidationFailed(detail) => "Configuration validation error: "@ + detail@,
        }
    }

    pub fn message(&self) -> (message: String)
        ensures
            message@ == self.text(),
    {
        match self {
            ConfigError::LoadFailed(detail) => join("Configuration loading error: ", detail.as_str()),
            ConfigError::MissingValue(detail) => join(
                "Missing configuration value: ",
                detail.as_str(),
            ),
            ConfigError::InvalidValue(detail) => join(
                "Invalid configuration value: ",
                detail.as_str(),
            ),
            ConfigError::ValidationFailed(detail) => join(
                "Configuration validation error: ",
                detail.as_str(),
            ),
        }
    }
}

impl Error {
    /// The text that describes the error: a word on the part of the library
    /// that failed, then the text of the failure itself.
    pub open spec fn text(&self) -> Seq<char> {
        match self {
            Error::Parse(inner) => "Parser error: "@ + inner.text(),
            Error::Storage(inner) => "Storage error: "@ + inner.text(),
            Error::Embedding(inner) => "Embedding error: "@ + inner.text(),
            Error::Config(inner) => "Configuration error: "@ + inner.text(),
            Error::Io(detail) => "IO error: "@ + detail@,
            Error::Other(detail) => "Other error: "@ + detail@,
        }
    }

    pub fn message(&self) -> (message: String)
        ensures
            message@ == self.text(),
    {
        match self {
            Error::Parse(inner) => join("Parser error: ", inner.message().as_str()),
            Error::Storage(inner) => join("Storage error: ", inner.message().as_str()),
            Error::Embedding(inner) => join("Embedding error: ", inner.message().as_str()),
            Error::Config(inner) => join("Configuration error: ", inner.message().as_str()),
            Error::Io(detail) => join("IO error: ", detail.as_str()),
            Error::Other(detail) => join("Other error: ", detail.as_str()),
        }
    }
}

impl From<ParseError> for Error {
    /// A failure of parsing, as a failure of the library.
    fn from(error: ParseError) -> (wrapped: Error) {
        Error::Parse(error)
    }
}

impl FromSpecImpl<ParseError> for Error {
    open spec fn obeys_from_spec() -> bool {
        true
    }

    open spec fn from_spec(error: ParseError) -> Error {
        Error::Parse(error)
    }
}

impl From<StorageError> for Error {
    /// A failure of the storage layer, as a failure of the library.
    fn from(error: StorageError) -> (wrapped: Error) {
        Error::Storage(error)
    }
}

impl FromSpecImpl<StorageError> for Error {
    open spec fn obeys_from_spec() -> bool {
        true
    }

    open spec fn from_spec(error: StorageError) -> Error {
        Error::Storage(error)
    }
}

impl From<EmbeddingError> for Error {
    /// A failure of embedding, as a failure of the library.
    fn from(error: EmbeddingError) -> (wrapped: Error) {
        Error::Embedding(error)
    }
}

impl FromSpecImpl<EmbeddingError> for Error {
    open spec fn obeys_from_spec() -> bool {
        true
    }

    open spec fn from_spec(error: EmbeddingError) -> Error {
        Error::Embedding(error)
    }
}

impl From<ConfigError> for Error {
    /// A failure of the configuration, as a failure of the library.
    fn from(error: ConfigError) -> (wrapped: Error) {
        Error::Config(error)
    }
}

impl FromSpecImpl<ConfigError> for Error {
    open spec fn obeys_from_spec() -> bool {
        true
    }

    open spec fn from_spec(error: ConfigError) -> Error {
        Error::Config(error)
    }
}

} // verus!
