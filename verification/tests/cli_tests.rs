use query_ai::cli::{limit, Cli, Command, UsageError};
use query_ai::logging::LogLevel;

#[test]
fn test_cli_parse_default_log_level() {
    let args = vec!["query_ai", "query", "my query"];
    let cli = Cli::parse_from(args).unwrap();

    assert_eq!(cli.log_level, "info");
    let log_level = cli.get_log_level().unwrap();
    assert!(matches!(log_level, LogLevel::Info));
}

#[test]
fn test_cli_parse_custom_log_level() {
    let args = vec!["query_ai", "--log-level", "debug", "query", "my query"];
    let cli = Cli::parse_from(args).unwrap();

    assert_eq!(cli.log_level, "debug");
    let log_level = cli.get_log_level().unwrap();
    assert!(matches!(log_level, LogLevel::Debug));
}

#[test]
fn test_cli_parse_invalid_log_level() {
    let args = vec!["query_ai", "--log-level", "invalid", "query", "my query"];
    let cli = Cli::parse_from(args).unwrap();

    assert_eq!(cli.log_level, "invalid");
    assert!(cli.get_log_level().is_err());
}

#[test]
fn test_cli_parse_index_command() {
    let args = vec!["query_ai", "index", "https://github.com/example/repo.git"];
    let cli = Cli::parse_from(args).unwrap();

    match cli.command {
        Command::Index(cmd) => {
            assert_eq!(cmd.repo_url, "https://github.com/example/repo.git");
            assert_eq!(cmd.branch, "main");
            assert!(!cmd.verbose);
        }
        _ => panic!("Expected Index command"),
    }
}

#[test]
fn test_cli_parse_index_command_with_options() {
    let args = vec![
        "query_ai",
        "index",
        "https://github.com/example/repo.git",
        "--branch",
        "develop",
        "--verbose",
    ];
    let cli = Cli::parse_from(args).unwrap();

    match cli.command {
        Command::Index(cmd) => {
            assert_eq!(cmd.repo_url, "https://github.com/example/repo.git");
            assert_eq!(cmd.branch, "develop");
            assert!(cmd.verbose);
        }
        _ => panic!("Expected Index command"),
    }
}

#[test]
fn test_cli_parse_update_command() {
    let args = vec!["query_ai", "update", "webhook.json"];
    let cli = Cli::parse_from(args).unwrap();

    match cli.command {
        Command::Update(cmd) => {
            assert_eq!(cmd.payload_file, "webhook.json");
            assert!(!cmd.force);
        }
        _ => panic!("Expected Update command"),
    }
}

#[test]
fn test_cli_parse_update_command_with_force() {
    let args = vec!["query_ai", "update", "webhook.json", "--force"];
    let cli = Cli::parse_from(args).unwrap();

    match cli.command {
        Command::Update(cmd) => {
            assert_eq!(cmd.payload_file, "webhook.json");
            assert!(cmd.force);
        }
        _ => panic!("Expected Update command"),
    }
}

#[test]
fn test_cli_parse_query_command() {
    let args = vec!["query_ai", "query", "how does error handling work?"];
    let cli = Cli::parse_from(args).unwrap();

    match cli.command {
        Command::Query(cmd) => {
            assert_eq!(cmd.query, "how does error handling work?");
            assert_eq!(cmd.limit, 10);
            assert_eq!(cmd.format, "text");
        }
        _ => panic!("Expected Query command"),
    }
}

#[test]
fn test_cli_parse_query_command_with_options() {
    let args = vec![
        "query_ai",
        "query",
        "how does error handling work?",
        "--limit",
        "20",
        "--format",
        "json",
    ];
    let cli = Cli::parse_from(args).unwrap();

    match cli.command {
        Command::Query(cmd) => {
            assert_eq!(cmd.query, "how does error handling work?");
            assert_eq!(cmd.limit, 20);
            assert_eq!(cmd.format, "json");
        }
        _ => panic!("Expected Query command"),
    }
}

#[test]
fn test_cli_parse_config_option() {
    let args = vec!["query_ai", "--config", "my_config.json", "query", "test"];
    let cli = Cli::parse_from(args).unwrap();

    assert_eq!(cli.config, Some("my_config.json".to_string()));
}

#[test]
fn cli_config_is_absent_unless_given() {
    let cli = Cli::parse_from(vec!["query_ai", "query", "test"]).unwrap();
    assert_eq!(cli.config, None);
}

#[test]
fn cli_short_options_mean_the_same() {
    let cli = Cli::parse_from(vec![
        "query_ai", "-c", "a.json", "-l", "warn", "index", "-b", "develop", "-v", "url",
    ])
    .unwrap();
    assert_eq!(cli.config, Some("a.json".to_string()));
    assert_eq!(cli.log_level, "warn");
    match cli.command {
        Command::Index(cmd) => {
            assert_eq!(cmd.repo_url, "url");
            assert_eq!(cmd.branch, "develop");
            assert!(cmd.verbose);
        }
        _ => panic!("Expected Index command"),
    }
}

#[test]
fn cli_long_option_carries_its_value() {
    let cli = Cli::parse_from(vec![
        "query_ai", "--config=a=b.json", "query", "--limit=7", "q", "--format=",
    ])
    .unwrap();
    assert_eq!(cli.config, Some("a=b.json".to_string()));
    match cli.command {
        Command::Query(cmd) => {
            assert_eq!(cmd.query, "q");
            assert_eq!(cmd.limit, 7);
            assert_eq!(cmd.format, "");
        }
        _ => panic!("Expected Query command"),
    }
}

#[test]
fn cli_short_l_is_the_level_before_the_command_and_the_limit_after() {
    let cli = Cli::parse_from(vec!["query_ai", "-l", "trace", "query", "-l", "3", "q"]).unwrap();
    assert_eq!(cli.log_level, "trace");
    match cli.command {
        Command::Query(cmd) => assert_eq!(cmd.limit, 3),
        _ => panic!("Expected Query command"),
    }
}

#[test]
fn cli_option_takes_the_next_argument_whatever_it_is() {
    let cli = Cli::parse_from(vec!["query_ai", "index", "--branch", "--verbose", "url"]).unwrap();
    match cli.command {
        Command::Index(cmd) => {
            assert_eq!(cmd.branch, "--verbose");
            assert!(!cmd.verbose);
        }
        _ => panic!("Expected Index command"),
    }
}

#[test]
fn cli_single_dash_is_an_argument() {
    let cli = Cli::parse_from(vec!["query_ai", "update", "-"]).unwrap();
    match cli.command {
        Command::Update(cmd) => assert_eq!(cmd.payload_file, "-"),
        _ => panic!("Expected Update command"),
    }
}

#[test]
fn cli_refuses_a_missing_command() {
    assert_eq!(Cli::parse_from(vec![]).unwrap_err(), UsageError::MissingCommand);
    assert_eq!(Cli::parse_from(vec!["query_ai"]).unwrap_err(), UsageError::MissingCommand);
    assert_eq!(
        Cli::parse_from(vec!["query_ai", "--config", "c.json"]).unwrap_err(),
        UsageError::MissingCommand
    );
}

#[test]
fn cli_refuses_an_unknown_command() {
    assert_eq!(
        Cli::parse_from(vec!["query_ai", "remove", "x"]).unwrap_err(),
        UsageError::UnknownCommand
    );
    assert_eq!(
        Cli::parse_from(vec!["query_ai", "Index", "x"]).unwrap_err(),
        UsageError::UnknownCommand
    );
}

#[test]
fn cli_refuses_an_unknown_option() {
    assert_eq!(
        Cli::parse_from(vec!["query_ai", "--verbose", "index", "x"]).unwrap_err(),
        UsageError::UnknownOption
    );
    assert_eq!(
        Cli::parse_from(vec!["query_ai", "index", "x", "--force"]).unwrap_err(),
        UsageError::UnknownOption
    );
    assert_eq!(
        Cli::parse_from(vec!["query_ai", "index", "x", "-bdevelop"]).unwrap_err(),
        UsageError::UnknownOption
    );
    assert_eq!(
        Cli::parse_from(vec!["query_ai", "index", "x", "--config", "c.json"]).unwrap_err(),
        UsageError::UnknownOption
    );
}

#[test]
fn cli_refuses_an_option_without_its_value() {
    assert_eq!(
        Cli::parse_from(vec!["query_ai", "index", "x", "--branch"]).unwrap_err(),
        UsageError::MissingValue
    );
    assert_eq!(
        Cli::parse_from(vec!["query_ai", "--log-level"]).unwrap_err(),
        UsageError::MissingValue
    );
}

#[test]
fn cli_refuses_a_value_on_a_flag() {
    assert_eq!(
        Cli::parse_from(vec!["query_ai", "update", "x", "--force=yes"]).unwrap_err(),
        UsageError::UnexpectedValue
    );
}

#[test]
fn cli_refuses_a_repeated_option() {
    assert_eq!(
        Cli::parse_from(vec!["query_ai", "-c", "a", "--config", "b", "query", "q"]).unwrap_err(),
        UsageError::RepeatedOption
    );
    assert_eq!(
        Cli::parse_from(vec!["query_ai", "update", "x", "-f", "--force"]).unwrap_err(),
        UsageError::RepeatedOption
    );
}

#[test]
fn cli_refuses_a_missing_argument() {
    assert_eq!(
        Cli::parse_from(vec!["query_ai", "index"]).unwrap_err(),
        UsageError::MissingArgument
    );
    assert_eq!(
        Cli::parse_from(vec!["query_ai", "query", "--limit", "5"]).unwrap_err(),
        UsageError::MissingArgument
    );
}

#[test]
fn cli_refuses_a_second_argument() {
    assert_eq!(
        Cli::parse_from(vec!["query_ai", "index", "a", "b"]).unwrap_err(),
        UsageError::UnexpectedArgument
    );
}

#[test]
fn cli_refuses_a_limit_that_is_no_number() {
    assert_eq!(
        Cli::parse_from(vec!["query_ai", "query", "q", "--limit", "ten"]).unwrap_err(),
        UsageError::InvalidNumber
    );
    assert_eq!(
        Cli::parse_from(vec!["query_ai", "query", "q", "--limit", ""]).unwrap_err(),
        UsageError::InvalidNumber
    );
    assert_eq!(
        Cli::parse_from(vec!["query_ai", "query", "q", "--limit", "+5"]).unwrap_err(),
        UsageError::InvalidNumber
    );
}

#[test]
fn cli_reports_requests_for_help_and_version() {
    assert_eq!(Cli::parse_from(vec!["query_ai", "--help"]).unwrap_err(), UsageError::HelpRequested);
    assert_eq!(
        Cli::parse_from(vec!["query_ai", "index", "-h"]).unwrap_err(),
        UsageError::HelpRequested
    );
    assert_eq!(Cli::parse_from(vec!["query_ai", "-V"]).unwrap_err(), UsageError::VersionRequested);
    assert_eq!(
        Cli::parse_from(vec!["query_ai", "--version", "query", "q"]).unwrap_err(),
        UsageError::VersionRequested
    );
    assert_eq!(
        Cli::parse_from(vec!["query_ai", "query", "q", "--version"]).unwrap_err(),
        UsageError::UnknownOption
    );
}

#[test]
fn limit_reads_decimal_digits() {
    assert_eq!(limit("0"), Some(0));
    assert_eq!(limit("007"), Some(7));
    assert_eq!(limit("1234567890"), Some(1234567890));
    assert_eq!(limit(&usize::MAX.to_string()), Some(usize::MAX));
}

#[test]
fn limit_refuses_what_does_not_fit_or_is_no_number() {
    assert_eq!(limit(""), None);
    assert_eq!(limit("12a"), None);
    assert_eq!(limit("-1"), None);
    assert_eq!(limit("१२"), None);
    assert_eq!(limit("340282366920938463463374607431768211456"), None);
    let mut beyond = usize::MAX.to_string();
    beyond.push('0');
    assert_eq!(limit(&beyond), None);
}

#[test]
fn usage_errors_say_why() {
    assert_eq!(UsageError::MissingCommand.message(), "no command is named");
    assert_eq!(UsageError::UnknownCommand.message(), "the command is not known");
    assert_eq!(UsageError::UnknownOption.message(), "an option is not known where it stands");
    assert_eq!(UsageError::MissingValue.message(), "an option lacks its value");
    assert_eq!(
        UsageError::UnexpectedValue.message(),
        "an option that takes no value carries one"
    );
    assert_eq!(UsageError::RepeatedOption.message(), "an option is given twice");
    assert_eq!(UsageError::MissingArgument.message(), "the argument of the command is missing");
    assert_eq!(UsageError::UnexpectedArgument.message(), "the command takes one argument only");
    assert_eq!(UsageError::InvalidNumber.message(), "the limit is no number that fits");
    assert_eq!(UsageError::HelpRequested.message(), "help was asked for");
    assert_eq!(UsageError::VersionRequested.message(), "the version was asked for");
}
