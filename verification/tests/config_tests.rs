use query_ai::config::{
    Config, ConfigSource, EmbeddingsConfig, LoggingConfig, ParserConfig, StorageConfig,
};
use query_ai::error::{ConfigError, Error};
use query_ai::logging::LogLevel;
use std::str::FromStr;

fn loaded_config() -> Config {
    Config {
        logging: LoggingConfig { level: "debug".to_string() },
        parser: ParserConfig {
            max_file_size: 2097152,
            extensions: vec!["rs".to_string(), "toml".to_string()],
            exclude_dirs: vec![
                "target".to_string(),
                ".git".to_string(),
                "node_modules".to_string(),
            ],
        },
        storage: StorageConfig {
            surreal_url: "ws://localhost:8000".to_string(),
            surreal_user: "testuser".to_string(),
            surreal_password: "testpass".to_string(),
            qdrant_url: "http://localhost:6333".to_string(),
            qdrant_collection: "test-collection".to_string(),
        },
        embeddings: EmbeddingsConfig {
            model_path: "models/test-model".to_string(),
            dimension: 512,
            max_chunk_size: 256,
            chunk_overlap: 64,
        },
    }
}

#[test]
fn test_default_config() {
    let config = Config::default();
    assert_eq!(config.logging.level, "info");
    assert_eq!(config.parser.max_file_size, 1024 * 1024);
    assert!(config.parser.extensions.contains(&"rs".to_string()));
}

#[test]
fn test_load_config() {
    let config = Config::load("config.json", ConfigSource::Parsed(loaded_config())).unwrap();
    assert_eq!(config.logging.level, "debug");
    assert_eq!(config.parser.max_file_size, 2097152);
    assert!(config.parser.extensions.contains(&"rs".to_string()));
    assert!(config.parser.extensions.contains(&"toml".to_string()));
    assert_eq!(config.embeddings.dimension, 512);
}

#[test]
fn test_config_validation() {
    let mut config = Config::default();
    assert!(config.validate().is_ok());

    config.logging.level = "invalid".to_string();
    assert!(config.validate().is_err());
    config.logging.level = "info".to_string();

    config.storage.surreal_url = "".to_string();
    assert!(config.validate().is_err());
    config.storage.surreal_url = "ws://localhost:8000".to_string();

    config.embeddings.dimension = 0;
    assert!(config.validate().is_err());
}

#[test]
fn test_log_level_from_str() {
    assert!(matches!(LogLevel::from_str("trace").unwrap(), LogLevel::Trace));
    assert!(matches!(LogLevel::from_str("debug").unwrap(), LogLevel::Debug));
    assert!(matches!(LogLevel::from_str("info").unwrap(), LogLevel::Info));
    assert!(matches!(LogLevel::from_str("warn").unwrap(), LogLevel::Warn));
    assert!(matches!(LogLevel::from_str("error").unwrap(), LogLevel::Error));

    assert!(LogLevel::from_str("invalid").is_err());
}

#[test]
fn log_level_is_read_in_any_case() {
    assert_eq!(LogLevel::parse("INFO").unwrap(), LogLevel::Info);
    assert_eq!(LogLevel::parse("Warn").unwrap(), LogLevel::Warn);
    assert_eq!(LogLevel::parse("eRRoR").unwrap(), LogLevel::Error);
}

#[test]
fn log_level_names_are_exact() {
    assert_eq!(LogLevel::named("info"), Some(LogLevel::Info));
    assert_eq!(LogLevel::named("INFO"), None);
    assert_eq!(LogLevel::named(" info"), None);
    assert_eq!(LogLevel::named(""), None);
    for level in [
        LogLevel::Trace,
        LogLevel::Debug,
        LogLevel::Info,
        LogLevel::Warn,
        LogLevel::Error,
    ] {
        assert_eq!(LogLevel::named(level.name()), Some(level));
    }
}

#[test]
fn log_level_complaint_quotes_the_name_as_written() {
    match LogLevel::parse("Loud") {
        Err(Error::Config(ConfigError::InvalidValue(message))) => {
            assert_eq!(message, "Invalid log level: Loud")
        }
        other => panic!("unexpected: {:?}", other),
    }
}

#[test]
fn default_config_in_full() {
    let config = Config::default();
    assert_eq!(config.parser.max_file_size, 1048576);
    assert_eq!(config.parser.extensions, vec!["rs".to_string()]);
    assert_eq!(config.parser.exclude_dirs, vec!["target".to_string(), ".git".to_string()]);
    assert_eq!(config.storage.surreal_url, "ws://localhost:8000");
    assert_eq!(config.storage.surreal_user, "root");
    assert_eq!(config.storage.surreal_password, "root");
    assert_eq!(config.storage.qdrant_url, "http://localhost:6333");
    assert_eq!(config.storage.qdrant_collection, "code-rag");
    assert_eq!(config.embeddings.model_path, "models/codebert");
    assert_eq!(config.embeddings.dimension, 768);
    assert_eq!(config.embeddings.max_chunk_size, 512);
    assert_eq!(config.embeddings.chunk_overlap, 128);
}

fn validation_message(config: &Config) -> String {
    match config.validate() {
        Err(Error::Config(ConfigError::ValidationFailed(message))) => message,
        other => panic!("unexpected: {:?}", other),
    }
}

#[test]
fn validation_names_the_rule_that_is_broken() {
    let mut config = Config::default();
    config.storage.surreal_url = String::new();
    assert_eq!(validation_message(&config), "SurrealDB URL cannot be empty");

    let mut config = Config::default();
    config.storage.qdrant_url = String::new();
    assert_eq!(validation_message(&config), "Qdrant URL cannot be empty");

    let mut config = Config::default();
    config.embeddings.dimension = 0;
    assert_eq!(validation_message(&config), "Embedding dimension must be greater than 0");

    let mut config = Config::default();
    config.parser.extensions.clear();
    assert_eq!(validation_message(&config), "Parser extensions cannot be empty");

    let mut config = Config::default();
    config.parser.max_file_size = 0;
    assert_eq!(validation_message(&config), "Maximum file size must be greater than 0");
}

#[test]
fn validation_reports_the_first_broken_rule() {
    let mut config = Config::default();
    config.logging.level = "loud".to_string();
    config.storage.surreal_url = String::new();
    config.embeddings.dimension = 0;
    match config.validate() {
        Err(Error::Config(ConfigError::InvalidValue(message))) => {
            assert_eq!(message, "Invalid log level: loud")
        }
        other => panic!("unexpected: {:?}", other),
    }
    config.logging.level = "TRACE".to_string();
    assert_eq!(validation_message(&config), "SurrealDB URL cannot be empty");
    config.storage.surreal_url = "ws://x".to_string();
    config.storage.qdrant_url = String::new();
    assert_eq!(validation_message(&config), "Qdrant URL cannot be empty");
}

#[test]
fn load_reports_a_missing_file() {
    match Config::load("conf/app.json", ConfigSource::Missing) {
        Err(Error::Config(ConfigError::LoadFailed(message))) => {
            assert_eq!(message, "Configuration file not found: conf/app.json")
        }
        other => panic!("unexpected: {:?}", other),
    }
}

#[test]
fn load_hands_on_why_a_file_is_unreadable() {
    match Config::load("config.json", ConfigSource::Unreadable("missing field `parser`".to_string()))
    {
        Err(Error::Config(ConfigError::LoadFailed(message))) => {
            assert_eq!(message, "missing field `parser`")
        }
        other => panic!("unexpected: {:?}", other),
    }
}

#[test]
fn load_default_falls_back_to_the_default() {
    let config = Config::load_default(None).unwrap();
    assert_eq!(config.logging.level, "info");
    assert_eq!(config.embeddings.dimension, 768);
}

#[test]
fn load_default_uses_the_file_that_was_found() {
    let found = Some(("config/config.json".to_string(), ConfigSource::Parsed(loaded_config())));
    let config = Config::load_default(found).unwrap();
    assert_eq!(config.logging.level, "debug");

    let found = Some(("config.json".to_string(), ConfigSource::Missing));
    match Config::load_default(found) {
        Err(Error::Config(ConfigError::LoadFailed(message))) => {
            assert_eq!(message, "Configuration file not found: config.json")
        }
        other => panic!("unexpected: {:?}", other),
    }
}

#[test]
fn default_paths_in_order() {
    assert_eq!(
        Config::default_paths(),
        vec![
            "config.json".to_string(),
            "config/config.json".to_string(),
            "/etc/query-ai/config.json".to_string(),
        ]
    );
}

#[test]
fn a_configuration_can_be_copied() {
    let config = loaded_config();
    let copy = config.clone();
    assert_eq!(copy.logging.level, config.logging.level);
    assert_eq!(copy.parser.max_file_size, config.parser.max_file_size);
    assert_eq!(copy.parser.extensions, config.parser.extensions);
    assert_eq!(copy.parser.exclude_dirs, config.parser.exclude_dirs);
    assert_eq!(copy.storage.clone().qdrant_collection, "test-collection");
    assert_eq!(copy.embeddings.clone().chunk_overlap, 64);
    assert_eq!(copy.logging.clone().level, "debug");
    assert_eq!(copy.parser.clone().extensions.len(), 2);
}
