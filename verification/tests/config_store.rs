use tinyconfig::config_path;
use tinyconfig::is_whitespace_char;
use tinyconfig::resolve_config_path;
use tinyconfig::strip_whitespace;
use tinyconfig::ConfigError;

#[test]
fn strips_spaces_around_separator() {
    assert_eq!(strip_whitespace("key = value\n"), "key=value");
}

#[test]
fn empty_input_stays_empty() {
    assert_eq!(strip_whitespace(""), "");
}

#[test]
fn text_without_whitespace_is_unchanged() {
    assert_eq!(strip_whitespace("key=value"), "key=value");
}

#[test]
fn strips_tabs_newlines_and_carriage_returns() {
    assert_eq!(strip_whitespace("a\tb\nc\rd e"), "abcde");
}

#[test]
fn strips_unicode_spaces() {
    assert_eq!(strip_whitespace("a\u{A0}b\u{2003}c\u{3000}d"), "abcd");
}

#[test]
fn whitespace_only_input_becomes_empty() {
    assert_eq!(
        strip_whitespace(" \t\r\n\u{B}\u{C}\u{85}\u{1680}\u{2028}\u{2029}\u{202F}\u{205F}"),
        ""
    );
}

#[test]
fn zero_width_space_is_kept() {
    assert_eq!(strip_whitespace("a\u{200B}b"), "a\u{200B}b");
}

#[test]
fn whitespace_inside_values_is_stripped_too() {
    assert_eq!(strip_whitespace("greeting = hello world\n"), "greeting=helloworld");
}

#[test]
fn classifies_whitespace_characters() {
    let whitespace = [
        '\t', '\n', '\u{B}', '\u{C}', '\r', ' ', '\u{85}', '\u{A0}', '\u{1680}', '\u{2000}',
        '\u{2005}', '\u{200A}', '\u{2028}', '\u{2029}', '\u{202F}', '\u{205F}', '\u{3000}',
    ];
    for c in whitespace {
        assert!(is_whitespace_char(c));
        assert!(c.is_whitespace());
    }
    let other = ['a', 'Z', '0', '_', '-', '=', '\u{8}', '\u{E}', '\u{200B}', '\u{180E}'];
    for c in other {
        assert!(!is_whitespace_char(c));
        assert!(!c.is_whitespace());
    }
}

#[test]
fn config_path_appends_dotfile_name() {
    assert_eq!(config_path("/home/user"), "/home/user/.tinyconfig");
}

#[test]
fn config_path_of_empty_home() {
    assert_eq!(config_path(""), "/.tinyconfig");
}

#[test]
fn resolve_with_home_set() {
    assert_eq!(
        resolve_config_path(Some("/root")),
        Ok(String::from("/root/.tinyconfig"))
    );
}

#[test]
fn resolve_without_home_fails() {
    assert_eq!(resolve_config_path(None), Err(ConfigError::HomeMissing));
}

#[test]
fn error_kinds_are_distinct() {
    let kinds = [
        ConfigError::HomeMissing,
        ConfigError::FileNotFound,
        ConfigError::ReadFailed,
        ConfigError::WriteFailed,
        ConfigError::DirectoryCreateFailed,
    ];
    for i in 0..kinds.len() {
        for j in 0..kinds.len() {
            assert_eq!(i == j, kinds[i] == kinds[j]);
        }
    }
}
