use repocard_studio::docs::categorize_commits;
use repocard_studio::docs::generate_press_kit;
use repocard_studio::docs::generate_readme_snippet;
use repocard_studio::docs::generate_release_notes_draft;
use repocard_studio::docs::release_notes_with_date;
use repocard_studio::{CommitInfo, LicenseInfo, OwnerInfo, RepoMetadata};

fn sample_metadata() -> RepoMetadata {
    RepoMetadata {
        name: "test-repo".to_string(),
        full_name: "owner/test-repo".to_string(),
        description: Some("A test repository".to_string()),
        html_url: "https://github.com/owner/test-repo".to_string(),
        stargazers_count: 1234,
        forks_count: 56,
        watchers_count: 100,
        open_issues_count: 10,
        language: Some("Rust".to_string()),
        topics: vec!["testing".to_string(), "rust".to_string()],
        created_at: "2024-01-01T00:00:00Z".to_string(),
        updated_at: "2024-06-01T00:00:00Z".to_string(),
        pushed_at: "2024-06-01T00:00:00Z".to_string(),
        default_branch: "main".to_string(),
        license: Some(LicenseInfo {
            key: "mit".to_string(),
            name: "MIT License".to_string(),
            spdx_id: Some("MIT".to_string()),
        }),
        owner: OwnerInfo {
            login: "owner".to_string(),
            avatar_url: "https://github.com/owner.png".to_string(),
            html_url: "https://github.com/owner".to_string(),
        },
    }
}

fn commit(sha: &str, message: &str) -> CommitInfo {
    CommitInfo {
        sha: sha.to_string(),
        message: message.to_string(),
        author_name: "Test".to_string(),
        author_email: "test@example.com".to_string(),
        date: "2024-01-01T00:00:00Z".to_string(),
    }
}

#[test]
fn test_generate_readme_snippet() {
    let metadata = sample_metadata();
    let snippet = generate_readme_snippet(&metadata, true);
    assert!(snippet.contains("# test-repo"));
    assert!(snippet.contains("RepoCard Studio"));
    assert!(snippet.contains("<!-- KZ signature: LAZYFROG -->"));
}

#[test]
fn test_readme_snippet_snapshot() {
    let metadata = sample_metadata();
    let snippet = generate_readme_snippet(&metadata, true);

    assert!(snippet.starts_with("<!-- KZ signature: LAZYFROG -->"));

    assert!(snippet.contains("## 📊 Stats"));
    assert!(snippet.contains("## 🔗 Links"));
    assert!(snippet.contains("## 🚀 Quick Start"));

    assert!(snippet.contains("img.shields.io/github/stars"));
    assert!(snippet.contains("img.shields.io/github/forks"));

    assert!(snippet.contains("kindware.dev"));
}

#[test]
fn test_readme_license_badge() {
    let metadata = sample_metadata();
    let snippet = generate_readme_snippet(&metadata, false);
    assert!(snippet.contains("img.shields.io/badge/license-MIT-blue.svg"));
    assert!(snippet.contains("MIT License"));
    assert!(!snippet.contains("kindware.dev"));

    let mut bare = sample_metadata();
    bare.license = None;
    bare.language = None;
    let snippet = generate_readme_snippet(&bare, false);
    assert!(!snippet.contains("img.shields.io/badge/license-"));
    assert!(snippet.contains("**Language**: Not specified"));
    assert!(snippet.contains("**License**: Not specified"));
}

#[test]
fn test_release_notes_sections() {
    let metadata = sample_metadata();
    let commits = vec![
        commit("abc1234", "feat: add things"),
        commit("def5678", "fix: repair things"),
        commit("0123abc", "refactor: shuffle things"),
    ];
    let notes = release_notes_with_date(&metadata, &commits, None, "2024-06-01", true);

    assert_eq!(notes.matches("### ✨ Features").count(), 1);
    assert_eq!(notes.matches("- feat: add things (`abc1234`)").count(), 1);
    assert_eq!(notes.matches("### 🐛 Bug Fixes").count(), 1);
    assert_eq!(notes.matches("- fix: repair things (`def5678`)").count(), 1);
    assert_eq!(notes.matches("### 📝 Other Changes").count(), 1);
    assert_eq!(notes.matches("- refactor: shuffle things (`0123abc`)").count(), 1);
    assert!(!notes.contains("Documentation"));
    assert!(!notes.contains("Maintenance"));

    assert!(notes.contains("# test-repo v0.0.0"));
    assert!(notes.contains("**Release Date**: 2024-06-01"));
    assert!(notes.contains("git checkout v0.0.0"));
    assert!(notes.contains("RepoCard Studio"));
}

#[test]
fn test_release_notes_empty_history() {
    let metadata = sample_metadata();
    let commits: Vec<CommitInfo> = vec![];
    let notes = release_notes_with_date(&metadata, &commits, Some("v1.2.3".to_string()), "2024-06-01", false);
    assert!(!notes.contains("###"));
    assert!(notes.contains("# test-repo v1.2.3"));
    assert!(notes.contains("## What's Changed"));
    assert!(notes.contains("## 📦 Installation"));
    assert!(!notes.contains("kindware.dev"));
}

#[test]
fn test_release_notes_draft_dated_today() {
    let metadata = sample_metadata();
    let commits = vec![commit("abc1234", "docs: explain things")];
    let notes = generate_release_notes_draft(&metadata, &commits, None, false);
    assert!(notes.contains("**Release Date**: "));
    assert!(notes.contains("### 📚 Documentation"));
    assert!(notes.contains("- docs: explain things (`abc1234`)"));
    // the date slot holds date-shaped text: digits, dashes and signs only
    let after = &notes[notes.find("**Release Date**: ").unwrap() + "**Release Date**: ".len()..];
    let date_text = &after[..after.find('\n').unwrap()];
    assert!(!date_text.is_empty());
    assert!(date_text.chars().all(|c| c.is_ascii_digit() || c == '-' || c == '+'));
}

#[test]
fn test_categorize_partition() {
    let commits = vec![
        commit("a000001", "feat: one"),
        commit("a000002", "Feature: two"),
        commit("a000003", "FIX broken"),
        commit("a000004", "bug: three"),
        commit("a000005", "docs: four"),
        commit("a000006", "chore: five"),
        commit("a000007", "ci: six"),
        commit("a000008", "build: seven"),
        commit("a000009", "misc eight"),
    ];
    let (features, fixes, docs, chores, other) = categorize_commits(&commits);
    assert_eq!(features.len(), 2);
    assert_eq!(fixes.len(), 2);
    assert_eq!(docs.len(), 1);
    assert_eq!(chores.len(), 3);
    assert_eq!(other.len(), 1);
    assert_eq!(
        features.len() + fixes.len() + docs.len() + chores.len() + other.len(),
        commits.len()
    );
    // input order is preserved inside each category
    assert_eq!(features[0].sha, "a000001");
    assert_eq!(features[1].sha, "a000002");
    assert_eq!(chores[0].sha, "a000006");
    assert_eq!(other[0].sha, "a000009");
}

#[test]
fn test_categorize_empty() {
    let commits: Vec<CommitInfo> = vec![];
    let (features, fixes, docs, chores, other) = categorize_commits(&commits);
    assert!(features.is_empty());
    assert!(fixes.is_empty());
    assert!(docs.is_empty());
    assert!(chores.is_empty());
    assert!(other.is_empty());
}

#[test]
fn test_generate_press_kit_sections() {
    let metadata = sample_metadata();
    let kit = generate_press_kit(&metadata, true);
    assert!(kit.starts_with("# test-repo — Press Kit"));
    assert!(kit.contains("## Quick Facts"));
    assert!(kit.contains("`testing`, `rust`"));
    assert!(kit.contains("| **Stars** | 1.2K |"));
    assert!(kit.contains("Last updated: **2024-06-01**"));
    assert!(kit.contains("repo-card.svg"));
    assert!(kit.contains("screenshots/"));
    assert!(kit.contains("RepoCard Studio"));
}

#[test]
fn test_press_kit_no_topics_placeholder() {
    let mut metadata = sample_metadata();
    metadata.topics = vec![];
    let kit = generate_press_kit(&metadata, false);
    assert!(kit.contains("No topics specified"));
    assert!(!kit.contains("kindware.dev"));
}
