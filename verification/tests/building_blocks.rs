use glyphit::catalog::emoji_options;
use glyphit::creds::{select_strategy, CredentialStrategy};
use glyphit::errors::OpError;
use glyphit::message::{build_message, glyph_of, placeholder_message, resolve_message, MessageInput};
use glyphit::paths::normalize_path;
use glyphit::push::make_refspec;
use glyphit::text::trim_text;

#[test]
fn test_trim_removes_surrounding_whitespace() {
    assert_eq!(trim_text("  a commit title \n"), "a commit title");
    assert_eq!(trim_text(""), "");
    assert_eq!(trim_text(" \t \n"), "");
    assert_eq!(trim_text("no trim needed"), "no trim needed");
    assert_eq!(trim_text("\u{00A0}wide\u{3000}"), "wide");
}

#[test]
fn test_normalize_strips_relative_prefix() {
    assert_eq!(normalize_path("./a.txt"), "a.txt");
    assert_eq!(normalize_path(".\\a.txt"), "a.txt");
    assert_eq!(normalize_path("a.txt"), "a.txt");
    assert_eq!(normalize_path("./"), "");
    assert_eq!(normalize_path(".\\"), "");
    assert_eq!(normalize_path("."), ".");
    assert_eq!(normalize_path("dir/a.txt"), "dir/a.txt");
    assert_eq!(normalize_path("dir\\a.txt"), "dir\\a.txt");
}

#[test]
fn test_glyph_is_the_leading_character() {
    assert_eq!(glyph_of("🐛 :bug: Fix a bug"), "🐛");
    assert_eq!(glyph_of("x"), "x");
    assert_eq!(glyph_of(""), "");
}

#[test]
fn test_build_message_layout() {
    let input = MessageInput {
        label: "🐛 :bug: Fix a bug".to_string(),
        title: " Fix the parser ".to_string(),
        body: "It mis-read empty input.".to_string(),
        breaking: "".to_string(),
    };
    let message = build_message(&input);
    assert_eq!(
        message,
        "🐛Fix the parser\nIt mis-read empty input.\nBREAKING CHANGES: \n"
    );
}

#[test]
fn test_placeholder_message_is_fixed() {
    assert_eq!(placeholder_message(), "unit testing");
    let resolved = resolve_message(true, None).unwrap();
    assert_eq!(resolved, "unit testing");
}

#[test]
fn test_resolve_message_without_answers_is_aborted() {
    assert_eq!(resolve_message(false, None).unwrap_err(), OpError::SelectionAborted);
}

#[test]
fn test_strategy_selection() {
    assert_eq!(
        select_strategy("https://github.com/user/repo.git"),
        CredentialStrategy::CredentialHelper
    );
    assert_eq!(
        select_strategy("git@github.com:user/repo.git"),
        CredentialStrategy::SshAgent
    );
    assert_eq!(
        select_strategy("ssh://host/weird/https-in-path"),
        CredentialStrategy::CredentialHelper
    );
    assert_eq!(select_strategy(""), CredentialStrategy::SshAgent);
}

#[test]
fn test_refspec_shape() {
    assert_eq!(make_refspec("main"), "refs/heads/main:refs/heads/main");
    assert_eq!(make_refspec("dev/x"), "refs/heads/dev/x:refs/heads/dev/x");
}

#[test]
fn test_catalog_size_and_glyphs() {
    let options = emoji_options();
    assert_eq!(options.len(), 66);
    assert!(options[0].starts_with("🎨"));
    for label in &options {
        assert!(!glyph_of(label).is_empty());
    }
}
