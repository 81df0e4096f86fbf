use repocard_studio::github::first_line;
use repocard_studio::github::parse_repo_url;

#[test]
fn test_parse_repo_url_full() {
    let result = parse_repo_url("https://github.com/microsoft/vscode");
    assert!(result.is_ok());
    let (owner, repo) = result.unwrap();
    assert_eq!(owner, "microsoft");
    assert_eq!(repo, "vscode");
}

#[test]
fn test_parse_repo_url_short() {
    let result = parse_repo_url("facebook/react");
    assert!(result.is_ok());
    let (owner, repo) = result.unwrap();
    assert_eq!(owner, "facebook");
    assert_eq!(repo, "react");
}

#[test]
fn test_parse_repo_url_invalid() {
    let result = parse_repo_url("invalid-url");
    assert!(result.is_err());
}

#[test]
fn test_parse_repo_url_variants() {
    // surrounding whitespace is trimmed
    let (owner, repo) = parse_repo_url("  facebook/react\n").unwrap();
    assert_eq!(owner, "facebook");
    assert_eq!(repo, "react");
    // http scheme and trailing slashes
    let (owner, repo) = parse_repo_url("http://github.com/rust-lang/rust/").unwrap();
    assert_eq!(owner, "rust-lang");
    assert_eq!(repo, "rust");
    // extra path segments after owner and repository are ignored
    let (owner, repo) = parse_repo_url("https://github.com/a/b/tree/main").unwrap();
    assert_eq!(owner, "a");
    assert_eq!(repo, "b");
    // other schemes are rejected, and the message names the trimmed input
    let err = parse_repo_url(" ssh://github.com/a/b ").unwrap_err();
    assert_eq!(err, "Invalid GitHub URL or repo format: ssh://github.com/a/b");
    // a short form with more than one slash is rejected
    assert!(parse_repo_url("a/b/c").is_err());
}

#[test]
fn test_first_line_extraction() {
    assert_eq!(first_line("feat: subject\n\nbody text"), "feat: subject");
    assert_eq!(first_line("single line"), "single line");
    assert_eq!(first_line("windows line\r\nmore"), "windows line");
    assert_eq!(first_line(""), "");
}

#[test]
fn test_parse_repo_url_unicode_whitespace() {
    // non-ASCII whitespace around the locator is trimmed like ASCII spaces
    let (owner, repo) = parse_repo_url("\u{a0}facebook/react\u{2003}").unwrap();
    assert_eq!(owner, "facebook");
    assert_eq!(repo, "react");
}
