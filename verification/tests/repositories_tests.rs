use query_ai::error::{ConfigError, EmbeddingError, Error, ParseError, StorageError};
use query_ai::repositories::{
    clone_repository, load_config, settings_from_document, settings_from_environment, GitRepo,
    RepoConfig,
};
use std::cell::RefCell;

struct MockGitClient {
    expected: Option<(&'static str, &'static str)>,
    outcome: fn() -> Result<(), Error>,
    calls: RefCell<Vec<(String, String)>>,
}

impl GitRepo for MockGitClient {
    fn clone_repo(&self, repo_url: &str, local_path: &str) -> Result<(), Error> {
        if let Some((url, path)) = self.expected {
            assert_eq!(repo_url, url);
            assert_eq!(local_path, path);
        }
        self.calls.borrow_mut().push((repo_url.to_string(), local_path.to_string()));
        (self.outcome)()
    }
}

#[test]
fn test_clone_repository_success() {
    let mock_client = MockGitClient {
        expected: Some(("https://github.com/example/test-repo.git", "repos/test-repo")),
        outcome: || Ok(()),
        calls: RefCell::new(Vec::new()),
    };

    let result = clone_repository(
        &mock_client,
        "https://github.com/example/test-repo.git",
        "repos/test-repo",
    );
    assert!(result.is_ok());
}

#[test]
fn test_clone_repository_failure() {
    let mock_client = MockGitClient {
        expected: None,
        outcome: || Err(Error::Other("Cloning failed".to_string())),
        calls: RefCell::new(Vec::new()),
    };

    let result = clone_repository(
        &mock_client,
        "https://github.com/example/fail-repo.git",
        "repos/fail-repo",
    );
    assert!(result.is_err());
}

#[test]
fn clone_repository_calls_the_client_once_with_its_arguments() {
    let mock_client =
        MockGitClient { expected: None, outcome: || Ok(()), calls: RefCell::new(Vec::new()) };
    clone_repository(&mock_client, "url", "path").unwrap();
    assert_eq!(*mock_client.calls.borrow(), vec![("url".to_string(), "path".to_string())]);
}


#[test]
fn test_load_config_from_file() {
    let config_content = r#"
        [repository]
        repo_url = "https://github.com/example/test-repo.git"
        local_path = "repos/test-repo"
        "#;

    let config = load_config(Some(config_content), None, None).unwrap();

    assert_eq!(config.repo_url, "https://github.com/example/test-repo.git");
    assert_eq!(config.local_path, "repos/test-repo");
}

#[test]
fn test_load_config_from_env() {
    let config = load_config(
        None,
        Some("https://github.com/example/env-repo.git".to_string()),
        Some("repos/env-repo".to_string()),
    )
    .unwrap();

    assert_eq!(config.repo_url, "https://github.com/example/env-repo.git");
    assert_eq!(config.local_path, "repos/env-repo");
}

#[test]
fn test_load_config_file_missing() {
    let result = load_config(None, None, None);
    assert!(result.is_err(), "Expected error when config file is missing");
}

#[test]
fn test_load_config_file_malformed() {
    let bad_config_content = r#"
        [repository]
        repo_url = "https://github.com/example/malformed
        local_path = "repos/malformed"
        "#;

    let result = load_config(Some(bad_config_content), None, None);

    assert!(result.is_err(), "Expected error when parsing a malformed TOML file");
}

#[test]
fn test_load_config_env_missing() {
    let result = load_config(None, None, None);
    assert!(result.is_err(), "Expected error when environment variables are missing");
}

#[test]
fn the_document_wins_over_the_environment() {
    let document = "[repository]\nrepo_url = \"from-file\"\nlocal_path = \"file-path\"\n";
    let config =
        load_config(Some(document), Some("from-env".to_string()), Some("env-path".to_string()))
            .unwrap();
    assert_eq!(
        config,
        RepoConfig { repo_url: "from-file".to_string(), local_path: "file-path".to_string() }
    );
}

#[test]
fn a_malformed_document_fails_with_what_is_wrong() {
    let message = load_config(Some("[repository\nrepo_url = 1"), None, None).unwrap_err();
    assert!(!message.is_empty());
    assert!(!message.starts_with("Missing"));
    let fault = toml::from_str::<toml::Value>("[repository\nrepo_url = 1").unwrap_err();
    assert_eq!(message, fault.message());
}

#[test]
fn a_document_has_to_hold_both_settings_as_strings() {
    let cases = [
        ("", "Missing repository.repo_url"),
        ("repo_url = \"u\"\nlocal_path = \"p\"", "Missing repository.repo_url"),
        ("[repository]\nlocal_path = \"p\"", "Missing repository.repo_url"),
        ("[repository]\nrepo_url = 5\nlocal_path = \"p\"", "Missing repository.repo_url"),
        ("repository = \"text\"", "Missing repository.repo_url"),
        ("[repository]\nrepo_url = \"u\"", "Missing repository.local_path"),
        ("[repository]\nrepo_url = \"u\"\nlocal_path = [\"p\"]", "Missing repository.local_path"),
    ];
    for (document, complaint) in cases {
        let variables = (Some("from-env".to_string()), Some("env-path".to_string()));
        assert_eq!(load_config(Some(document), variables.0, variables.1).unwrap_err(), complaint);
    }
}

#[test]
fn settings_are_read_out_of_a_parsed_document() {
    let document: toml::Value =
        toml::from_str("[repository]\nrepo_url = \"u\"\nlocal_path = \"p\"\n[other]\nx = 1")
            .unwrap();
    let config = settings_from_document(&document).unwrap();
    assert_eq!(config.repo_url, "u");
    assert_eq!(config.local_path, "p");
}

#[test]
fn the_environment_has_to_hold_both_variables() {
    assert_eq!(
        settings_from_environment(None, Some("p".to_string())).unwrap_err(),
        "Missing REPO_URL"
    );
    assert_eq!(settings_from_environment(None, None).unwrap_err(), "Missing REPO_URL");
    assert_eq!(
        settings_from_environment(Some("u".to_string()), None).unwrap_err(),
        "Missing LOCAL_PATH"
    );
    let config = settings_from_environment(Some(String::new()), Some(String::new())).unwrap();
    assert_eq!(config.repo_url, "");
}

#[test]
fn load_config_names_the_variable_that_is_missing() {
    assert_eq!(load_config(None, None, None).unwrap_err(), "Missing REPO_URL");
    assert_eq!(
        load_config(None, None, Some("repos/x".to_string())).unwrap_err(),
        "Missing REPO_URL"
    );
    assert_eq!(
        load_config(None, Some("https://example.org/x.git".to_string()), None).unwrap_err(),
        "Missing LOCAL_PATH"
    );
}

#[test]
fn failures_of_the_parts_become_failures_of_the_library() {
    match Error::from(ParseError::InvalidSource("s".to_string())) {
        Error::Parse(ParseError::InvalidSource(detail)) => assert_eq!(detail, "s"),
        other => panic!("unexpected: {:?}", other),
    }
    match Error::from(StorageError::NotFound("n".to_string())) {
        Error::Storage(StorageError::NotFound(detail)) => assert_eq!(detail, "n"),
        other => panic!("unexpected: {:?}", other),
    }
    match Error::from(EmbeddingError::InvalidInput("i".to_string())) {
        Error::Embedding(EmbeddingError::InvalidInput(detail)) => assert_eq!(detail, "i"),
        other => panic!("unexpected: {:?}", other),
    }
    let wrapped: Error = ConfigError::MissingValue("m".to_string()).into();
    match wrapped {
        Error::Config(ConfigError::MissingValue(detail)) => assert_eq!(detail, "m"),
        other => panic!("unexpected: {:?}", other),
    }
}

#[test]
fn parse_errors_say_what_failed() {
    assert_eq!(
        ParseError::ParseFailed { file: "a.rs".to_string(), message: "m".to_string() }.message(),
        "Failed to parse file a.rs: m"
    );
    assert_eq!(
        ParseError::GrammarLoadFailed("g".to_string()).message(),
        "Failed to load grammar: g"
    );
    assert_eq!(ParseError::TraversalError("t".to_string()).message(), "AST traversal error: t");
    assert_eq!(ParseError::InvalidSource("s".to_string()).message(), "Invalid source code: s");
}

#[test]
fn storage_errors_say_what_failed() {
    assert_eq!(
        StorageError::ConnectionFailed("c".to_string()).message(),
        "Database connection error: c"
    );
    assert_eq!(StorageError::QueryFailed("q".to_string()).message(), "Query execution error: q");
    assert_eq!(
        StorageError::TransactionFailed("t".to_string()).message(),
        "Transaction error: t"
    );
    assert_eq!(StorageError::NotFound("n".to_string()).message(), "Data not found: n");
    assert_eq!(StorageError::VectorError("v".to_string()).message(), "Vector storage error: v");
}

#[test]
fn embedding_errors_say_what_failed() {
    assert_eq!(
        EmbeddingError::ModelLoadFailed("m".to_string()).message(),
        "Model loading error: m"
    );
    assert_eq!(
        EmbeddingError::GenerationFailed("g".to_string()).message(),
        "Embedding generation error: g"
    );
    assert_eq!(
        EmbeddingError::InvalidInput("i".to_string()).message(),
        "Invalid input for embedding: i"
    );
    assert_eq!(
        EmbeddingError::VectorOperationFailed("v".to_string()).message(),
        "Vector operation error: v"
    );
}

#[test]
fn config_errors_say_what_failed() {
    assert_eq!(
        ConfigError::LoadFailed("l".to_string()).message(),
        "Configuration loading error: l"
    );
    assert_eq!(
        ConfigError::MissingValue("m".to_string()).message(),
        "Missing configuration value: m"
    );
    assert_eq!(
        ConfigError::InvalidValue("i".to_string()).message(),
        "Invalid configuration value: i"
    );
    assert_eq!(
        ConfigError::ValidationFailed("v".to_string()).message(),
        "Configuration validation error: v"
    );
}

#[test]
fn errors_name_the_part_that_failed() {
    assert_eq!(
        Error::Parse(ParseError::InvalidSource("s".to_string())).message(),
        "Parser error: Invalid source code: s"
    );
    assert_eq!(
        Error::Storage(StorageError::NotFound("n".to_string())).message(),
        "Storage error: Data not found: n"
    );
    assert_eq!(
        Error::Embedding(EmbeddingError::InvalidInput("i".to_string())).message(),
        "Embedding error: Invalid input for embedding: i"
    );
    assert_eq!(
        Error::Config(ConfigError::MissingValue("m".to_string())).message(),
        "Configuration error: Missing configuration value: m"
    );
    assert_eq!(Error::Io("disk".to_string()).message(), "IO error: disk");
    assert_eq!(Error::Other("o".to_string()).message(), "Other error: o");
}
