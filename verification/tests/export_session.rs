use repocard_studio::export::{ExportAction, ExportSession, ExportStep};
use repocard_studio::{CommitInfo, ExportOptions, LicenseInfo, OwnerInfo, RepoMetadata};

fn sample_metadata() -> RepoMetadata {
    RepoMetadata {
        name: "test-repo".to_string(),
        full_name: "owner/test-repo".to_string(),
        description: Some("A test repository".to_string()),
        html_url: "https://github.com/owner/test-repo".to_string(),
        stargazers_count: 100,
        forks_count: 10,
        watchers_count: 50,
        open_issues_count: 5,
        language: Some("Rust".to_string()),
        topics: vec!["test".to_string()],
        created_at: "2024-01-01T00:00:00Z".to_string(),
        updated_at: "2024-06-01T00:00:00Z".to_string(),
        pushed_at: "2024-06-01T00:00:00Z".to_string(),
        default_branch: "main".to_string(),
        license: Some(LicenseInfo {
            key: "mit".to_string(),
            name: "MIT License".to_string(),
            spdx_id: Some("MIT".to_string()),
        }),
        owner: OwnerInfo {
            login: "owner".to_string(),
            avatar_url: "https://github.com/owner.png".to_string(),
            html_url: "https://github.com/owner".to_string(),
        },
    }
}

fn sample_options(template: &str) -> ExportOptions {
    ExportOptions {
        output_dir: "/tmp/out".to_string(),
        include_attribution: true,
        template_id: template.to_string(),
        primary_color: None,
        secondary_color: None,
    }
}

fn sample_commits() -> Vec<CommitInfo> {
    vec![CommitInfo {
        sha: "abc1234".to_string(),
        message: "feat: initial commit".to_string(),
        author_name: "Test".to_string(),
        author_email: "test@example.com".to_string(),
        date: "2024-01-01T00:00:00Z".to_string(),
    }]
}

/// Drives a session to completion, pretending every host action succeeds,
/// and records what the host was asked to do.
fn run_all(mut session: ExportSession) -> (Vec<String>, repocard_studio::ExportResult) {
    let mut log: Vec<String> = Vec::new();
    loop {
        match session.current_action() {
            ExportAction::CreateDirs { path } => log.push(format!("dirs {}", path)),
            ExportAction::WriteText { rel_path, content } => {
                log.push(format!("text {} ({} bytes)", rel_path, content.len()))
            }
            ExportAction::RasterizePng { svg, width } => {
                log.push(format!("raster {} bytes at {}", svg.len(), width))
            }
            ExportAction::WritePng { rel_path } => log.push(format!("png {}", rel_path)),
            ExportAction::Finished => break,
        }
        session.advance_ok();
    }
    let result = session.finish();
    (log, result)
}

#[test]
fn test_export_session_file_list() {
    let session =
        ExportSession::begin(&sample_metadata(), &sample_commits(), &sample_options("modern"))
            .unwrap();
    let (log, result) = run_all(session);

    assert!(result.success);
    assert!(result.error.is_none());
    assert_eq!(result.output_path, "/tmp/out/share-kit");
    assert_eq!(
        result.files,
        vec![
            "repo-card.svg".to_string(),
            "repo-card.png".to_string(),
            "README-snippet.md".to_string(),
            "release-notes-draft.md".to_string(),
            "press-kit/overview.md".to_string(),
            "press-kit/screenshots/.gitkeep".to_string(),
        ]
    );

    assert_eq!(log.len(), 8);
    assert_eq!(log[0], "dirs /tmp/out/share-kit/press-kit/screenshots");
    assert!(log[1].starts_with("text repo-card.svg"));
    assert!(log[2].starts_with("raster"));
    assert!(log[2].ends_with("at 1200"));
    assert_eq!(log[3], "png repo-card.png");
    assert!(log[4].starts_with("text README-snippet.md"));
    assert!(log[5].starts_with("text release-notes-draft.md"));
    assert!(log[6].starts_with("text press-kit/overview.md"));
    assert!(log[7].starts_with("text press-kit/screenshots/.gitkeep (0 bytes)"));
}

#[test]
fn test_export_session_artifacts_match_generators() {
    let metadata = sample_metadata();
    let commits = sample_commits();
    let options = sample_options("minimal");
    let session = ExportSession::begin(&metadata, &commits, &options).unwrap();
    let svg = repocard_studio::templates::generate_svg(&metadata, "minimal", true, None, None)
        .unwrap();
    assert_eq!(session.svg, svg);
    assert_eq!(
        session.readme,
        repocard_studio::docs::generate_readme_snippet(&metadata, true)
    );
    assert_eq!(
        session.overview,
        repocard_studio::docs::generate_press_kit(&metadata, true)
    );
    assert!(session.notes.contains("- feat: initial commit (`abc1234`)"));
}

#[test]
fn test_export_session_unknown_template() {
    let err = match ExportSession::begin(
        &sample_metadata(),
        &sample_commits(),
        &sample_options("retro"),
    ) {
        Ok(_) => panic!("an unknown template must be rejected"),
        Err(e) => e,
    };
    assert_eq!(err, "Unknown template: retro");
}

#[test]
fn test_export_session_failure_messages() {
    let mut session =
        ExportSession::begin(&sample_metadata(), &sample_commits(), &sample_options("gradient"))
            .unwrap();
    assert_eq!(
        session.fail("permission denied"),
        "Failed to create directories: permission denied"
    );
    session.advance_ok();
    assert_eq!(session.step, ExportStep::WriteSvg);
    assert_eq!(session.fail("disk full"), "Failed to write SVG: disk full");
    session.advance_ok();
    // a rasterizer failure is reported with the rasterizer's own words
    assert_eq!(session.fail("Failed to parse SVG: bad"), "Failed to parse SVG: bad");
    session.advance_ok();
    assert_eq!(session.fail("disk full"), "Failed to write PNG: disk full");
    // the files recorded so far stay recorded after a failure
    assert_eq!(session.files, vec!["repo-card.svg".to_string()]);
}
