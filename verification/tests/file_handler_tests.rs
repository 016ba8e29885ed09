use query_ai::config::ParserConfig;
use query_ai::file_handler::{
    accepts, extension, is_excluded, load_repository_files, should_descend, RawFile,
};
use query_ai::text::{characters, contains_text, join, same_text};

fn config(max_file_size: usize, extensions: &[&str], exclude_dirs: &[&str]) -> ParserConfig {
    ParserConfig {
        max_file_size,
        extensions: extensions.iter().map(|e| e.to_string()).collect(),
        exclude_dirs: exclude_dirs.iter().map(|e| e.to_string()).collect(),
    }
}

fn names(list: &[&str]) -> Vec<String> {
    list.iter().map(|n| n.to_string()).collect()
}

#[test]
fn extension_is_what_follows_the_last_dot_of_the_name() {
    assert_eq!(extension("main.rs"), Some("rs"));
    assert_eq!(extension("src/main.rs"), Some("rs"));
    assert_eq!(extension("a/b/archive.tar.gz"), Some("gz"));
    assert_eq!(extension("a/b/name."), Some(""));
    assert_eq!(extension("a/.hidden.txt"), Some("txt"));
    assert_eq!(extension("a/größe.rs"), Some("rs"));
    assert_eq!(extension("a/b.名前"), Some("名前"));
}

#[test]
fn extension_is_absent_without_a_dot_inside_the_name() {
    assert_eq!(extension(""), None);
    assert_eq!(extension("Makefile"), None);
    assert_eq!(extension("src/Makefile"), None);
    assert_eq!(extension(".gitignore"), None);
    assert_eq!(extension("src/.gitignore"), None);
    assert_eq!(extension("a.b/c"), None);
    assert_eq!(extension("a.b/"), None);
    assert_eq!(extension(".."), None);
    assert_eq!(extension("a/.."), None);
    assert_eq!(extension("."), None);
    assert_eq!(extension("..."), Some(""));
}

#[test]
fn excluded_is_a_matter_of_directories_only() {
    let excluded = names(&["target", ".git"]);
    assert!(is_excluded("target/debug/main.rs", &excluded));
    assert!(is_excluded("a/b/target/main.rs", &excluded));
    assert!(is_excluded("a/target/b/c/main.rs", &excluded));
    assert!(is_excluded(".git/config", &excluded));
    assert!(!is_excluded("main.rs", &excluded));
    assert!(!is_excluded("target", &excluded));
    assert!(!is_excluded("src/target", &excluded));
    assert!(!is_excluded("targets/main.rs", &excluded));
    assert!(!is_excluded("a/mytarget/main.rs", &excluded));
    assert!(!is_excluded("Target/main.rs", &excluded));
    assert!(!is_excluded("", &excluded));
    assert!(!is_excluded("target/main.rs", &Vec::new()));
}

#[test]
fn excluded_takes_empty_parts_as_they_are() {
    assert!(is_excluded("/main.rs", &names(&[""])));
    assert!(is_excluded("a//main.rs", &names(&[""])));
    assert!(!is_excluded("a/main.rs", &names(&[""])));
    assert!(!is_excluded("/main.rs", &names(&["a"])));
}

#[test]
fn walk_goes_down_unless_the_name_is_excluded() {
    let config = config(10, &["rs"], &["target", ".git"]);
    assert!(should_descend("src", &config));
    assert!(should_descend("Target", &config));
    assert!(should_descend("", &config));
    assert!(!should_descend("target", &config));
    assert!(!should_descend(".git", &config));
}

#[test]
fn accepts_asks_for_extension_size_and_place() {
    let config = config(100, &["rs", "toml"], &["target"]);
    assert!(accepts("src/main.rs", 0, &config));
    assert!(accepts("src/main.rs", 100, &config));
    assert!(!accepts("src/main.rs", 101, &config));
    assert!(!accepts("src/main.rs", u64::MAX, &config));
    assert!(accepts("Cargo.toml", 10, &config));
    assert!(!accepts("src/main.RS", 10, &config));
    assert!(!accepts("src/main.py", 10, &config));
    assert!(!accepts("src/main", 10, &config));
    assert!(!accepts("target/main.rs", 10, &config));
    assert!(accepts("src/target.rs", 10, &config));
}

#[test]
fn accepts_nothing_without_extensions() {
    let config = config(100, &[], &[]);
    assert!(!accepts("src/main.rs", 1, &config));
    assert!(!accepts("name.", 1, &config));
}

#[test]
fn accepts_an_empty_extension_where_it_is_asked_for() {
    let config = config(100, &[""], &[]);
    assert!(accepts("name.", 1, &config));
    assert!(!accepts("name", 1, &config));
}

#[test]
fn load_keeps_the_files_that_are_read_in_order() {
    let config = config(8, &["rs"], &["target"]);
    let files = vec![
        RawFile { path: "b.rs".to_string(), bytes: b"fn b(){}".to_vec() },
        RawFile { path: "a.txt".to_string(), bytes: b"text".to_vec() },
        RawFile { path: "big.rs".to_string(), bytes: b"fn big(){}".to_vec() },
        RawFile { path: "bad.rs".to_string(), bytes: vec![0x80] },
        RawFile { path: "target/t.rs".to_string(), bytes: b"fn t(){}".to_vec() },
        RawFile { path: "a.rs".to_string(), bytes: "fn ä()".as_bytes().to_vec() },
        RawFile { path: "big_bad.rs".to_string(), bytes: vec![0x80; 9] },
    ];
    let loaded = load_repository_files(files, &config);
    let kept: Vec<(&str, &str)> =
        loaded.files.iter().map(|f| (f.path.as_str(), f.content.as_str())).collect();
    assert_eq!(kept, vec![("b.rs", "fn b(){}"), ("a.rs", "fn ä()")]);
    assert_eq!(loaded.skipped.len(), 1);
    assert_eq!(loaded.skipped[0].path, "bad.rs");
    assert_eq!(loaded.skipped[0].message, "Invalid source code: the file is not valid UTF-8");
}

#[test]
fn characters_are_the_chars_of_the_text() {
    assert_eq!(characters("aé名"), vec!['a', 'é', '名']);
    assert!(characters("").is_empty());
}

#[test]
fn contains_text_compares_whole_texts() {
    let list = names(&["rs", "toml"]);
    assert!(contains_text(&list, "rs"));
    assert!(contains_text(&list, "toml"));
    assert!(!contains_text(&list, "r"));
    assert!(!contains_text(&list, "RS"));
    assert!(!contains_text(&list, ""));
    assert!(!contains_text(&Vec::new(), "rs"));
}

#[test]
fn join_puts_one_text_behind_the_other() {
    assert_eq!(join("ab", "cd"), "abcd");
    assert_eq!(join("", "cd"), "cd");
    assert_eq!(join("ab", ""), "ab");
}

#[test]
fn same_text_compares_character_by_character() {
    assert!(same_text("", ""));
    assert!(same_text("größe", "größe"));
    assert!(!same_text("rs", "RS"));
    assert!(!same_text("rs", "rs "));
    assert!(!same_text("a", ""));
}
