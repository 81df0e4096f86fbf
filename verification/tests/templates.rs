use repocard_studio::text::escape_xml;
use repocard_studio::text::format_count;
use repocard_studio::text::get_language_color;
use repocard_studio::text::truncate;
use repocard_studio::templates::generate_svg;
use repocard_studio::templates::generate_topics_svg;
use repocard_studio::{LicenseInfo, OwnerInfo, RepoMetadata};

fn sample_metadata() -> RepoMetadata {
    RepoMetadata {
        name: "test-repo".to_string(),
        full_name: "owner/test-repo".to_string(),
        description: Some("A test repository".to_string()),
        html_url: "https://github.com/owner/test-repo".to_string(),
        stargazers_count: 1234,
        forks_count: 56,
        watchers_count: 100,
        open_issues_count: 10,
        language: Some("Rust".to_string()),
        topics: vec!["testing".to_string(), "rust".to_string()],
        created_at: "2024-01-01T00:00:00Z".to_string(),
        updated_at: "2024-06-01T00:00:00Z".to_string(),
        pushed_at: "2024-06-01T00:00:00Z".to_string(),
        default_branch: "main".to_string(),
        license: Some(LicenseInfo {
            key: "mit".to_string(),
            name: "MIT License".to_string(),
            spdx_id: Some("MIT".to_string()),
        }),
        owner: OwnerInfo {
            login: "owner".to_string(),
            avatar_url: "https://github.com/owner.png".to_string(),
            html_url: "https://github.com/owner".to_string(),
        },
    }
}

#[test]
fn test_format_count() {
    assert_eq!(format_count(999), "999");
    assert_eq!(format_count(1000), "1.0K");
    assert_eq!(format_count(1500), "1.5K");
    assert_eq!(format_count(1000000), "1.0M");
}

#[test]
fn test_format_count_ranges() {
    assert_eq!(format_count(0), "0");
    assert_eq!(format_count(1), "1");
    assert_eq!(format_count(999999), "1000.0K");
    assert_eq!(format_count(2500000), "2.5M");
    // standard decimal rounding, half away from zero
    assert_eq!(format_count(1150), "1.2K");
    assert_eq!(format_count(1049), "1.0K");
}

#[test]
fn test_escape_xml() {
    assert_eq!(escape_xml("<test>"), "&lt;test&gt;");
    assert_eq!(escape_xml("a & b"), "a &amp; b");
}

#[test]
fn test_escape_xml_quotes_and_idempotence() {
    assert_eq!(escape_xml(r#"a"b'c"#), "a&quot;b&apos;c");
    // no special characters: escaping leaves the text alone
    assert_eq!(escape_xml("plain text"), "plain text");
    // with special characters a second pass expands further
    let once = escape_xml("x<y");
    let twice = escape_xml(&once);
    assert_ne!(once, twice);
    assert!(!once.contains('<'));
    assert!(!once.contains('>'));
}

#[test]
fn test_truncate_budget() {
    // within the budget: unchanged
    assert_eq!(truncate("hello", 10), "hello");
    assert_eq!(truncate("hello", 5), "hello");
    // over the budget: cut to max_len - 3 bytes plus the ellipsis
    assert_eq!(truncate("hello world", 8), "hello...");
    assert!(truncate("hello world", 8).len() <= 8);
    // multi-byte text is cut on a character boundary within the budget
    let t = truncate("ééééé", 7);
    assert_eq!(t, "éé...");
    assert!(t.len() <= 7);
}

#[test]
fn test_language_color_palette() {
    assert_eq!(get_language_color("Rust"), "#dea584");
    assert_eq!(get_language_color("PYTHON"), "#3572A5");
    assert_eq!(get_language_color("javascript"), "#f1e05a");
    assert_eq!(get_language_color("no-such-language"), "#6e7681");
}

#[test]
fn test_generate_modern_template() {
    let metadata = sample_metadata();
    let svg = generate_svg(&metadata, "modern", true, None, None).unwrap();
    assert!(svg.contains("test-repo"));
    assert!(svg.contains("RepoCard Studio"));
    assert!(svg.contains("<!-- KZ: LAZYFROG :: frogprints -->"));
    assert!(svg.contains("opacity=\"0.03\""));
}

#[test]
fn test_modern_template_snapshot() {
    let metadata = sample_metadata();
    let svg = generate_svg(
        &metadata,
        "modern",
        true,
        Some("#0d1117".to_string()),
        Some("#161b22".to_string()),
    )
    .unwrap();

    assert!(svg.starts_with("<!-- KZ: LAZYFROG :: frogprints -->"));
    assert!(svg.contains("width=\"1200\" height=\"630\""));
    assert!(svg.contains("viewBox=\"0 0 1200 630\""));

    assert!(svg.contains("<!-- Background -->"));
    assert!(svg.contains("<!-- Header -->"));
    assert!(svg.contains("<!-- Description -->"));
    assert!(svg.contains("<!-- Stats -->"));
    assert!(svg.contains("<!-- Footer -->"));
    assert!(svg.contains("<!-- Frogprints Easter Egg -->"));

    assert!(svg.contains("owner"));
    assert!(svg.contains("test-repo"));
    assert!(svg.contains("1.2K"));
    assert!(svg.contains("56"));
    assert!(svg.contains("Rust"));
}

#[test]
fn test_minimal_template_snapshot() {
    let metadata = sample_metadata();
    let svg = generate_svg(&metadata, "minimal", true, None, None).unwrap();

    assert!(svg.starts_with("<!-- KZ: LAZYFROG :: frogprints -->"));
    assert!(svg.contains("width=\"1200\" height=\"630\""));

    assert!(svg.contains("fill=\"#ffffff\""));

    assert!(svg.contains("<!-- Background -->"));
    assert!(svg.contains("<!-- Frogprints Easter Egg -->"));
    assert!(svg.contains("opacity=\"0.025\""));

    assert!(svg.contains("stars"));
    assert!(svg.contains("forks"));
    assert!(svg.contains("issues"));
}

#[test]
fn test_gradient_template_snapshot() {
    let metadata = sample_metadata();
    let svg = generate_svg(
        &metadata,
        "gradient",
        true,
        Some("#667eea".to_string()),
        Some("#764ba2".to_string()),
    )
    .unwrap();

    assert!(svg.starts_with("<!-- KZ: LAZYFROG :: frogprints -->"));
    assert!(svg.contains("width=\"1200\" height=\"630\""));

    assert!(svg.contains("linearGradient"));
    assert!(svg.contains("id=\"bg-gradient\""));
    assert!(svg.contains("#667eea"));
    assert!(svg.contains("#764ba2"));

    assert!(svg.contains("rgba(255,255,255,0.05)"));

    assert!(svg.contains("rgba(255,255,255,0.2)"));

    assert!(svg.contains("opacity=\"0.04\""));
}

#[test]
fn test_all_templates_canvas_dimensions() {
    let metadata = sample_metadata();

    for template_id in &["modern", "minimal", "gradient"] {
        let svg = generate_svg(&metadata, template_id, true, None, None).unwrap();
        assert!(svg.contains("width=\"1200\""), "Template {} missing width", template_id);
        assert!(svg.contains("height=\"630\""), "Template {} missing height", template_id);
        assert!(
            svg.contains("viewBox=\"0 0 1200 630\""),
            "Template {} missing viewBox",
            template_id
        );
    }
}

#[test]
fn test_unknown_template_rejected() {
    let metadata = sample_metadata();
    let err = generate_svg(&metadata, "fancy", true, None, None).unwrap_err();
    assert_eq!(err, "Unknown template: fancy");
}

#[test]
fn test_render_deterministic() {
    let metadata = sample_metadata();
    for template_id in &["modern", "minimal", "gradient"] {
        let a = generate_svg(&metadata, template_id, true, None, None).unwrap();
        let b = generate_svg(&metadata, template_id, true, None, None).unwrap();
        assert_eq!(a, b);
    }
}

#[test]
fn test_modern_escapes_user_text() {
    let mut metadata = sample_metadata();
    metadata.name = "a<b".to_string();
    metadata.description = Some("x & y".to_string());
    let svg = generate_svg(&metadata, "modern", true, None, None).unwrap();
    assert!(svg.contains("a&lt;b"));
    assert!(svg.contains("x &amp; y"));
    assert!(!svg.contains("a<b"));
}

#[test]
fn test_topics_badge_offsets() {
    // two topics: two badge groups at strictly increasing offsets
    let topics = vec!["ab".to_string(), "cde".to_string()];
    let svg = generate_topics_svg(&topics, 5);
    assert_eq!(svg.matches("<rect").count(), 2);
    // widths: 2*8+20 = 36 and 3*8+20 = 44; the second offset is 36+10 = 46
    assert!(svg.contains("translate(0, 0)"));
    assert!(svg.contains("translate(46, 0)"));
    assert!(svg.contains("width=\"36\""));
    assert!(svg.contains("width=\"44\""));
    assert!(!svg.contains(" more"));
}

#[test]
fn test_topics_badge_overflow_label() {
    let topics: Vec<String> = (0..7).map(|i| format!("t{}", i)).collect();
    let svg = generate_topics_svg(&topics, 5);
    assert_eq!(svg.matches("<rect").count(), 5);
    assert_eq!(svg.matches(" more").count(), 1);
    assert!(svg.contains("+2 more"));
}

#[test]
fn test_gradient_escapes_license_and_date() {
    let mut metadata = sample_metadata();
    metadata.license = Some(LicenseInfo {
        key: "custom".to_string(),
        name: "A<B & C".to_string(),
        spdx_id: None,
    });
    metadata.updated_at = "2024<06-01T00:00:00Z".to_string();
    let svg = generate_svg(&metadata, "gradient", false, None, None).unwrap();
    assert!(svg.contains("A&lt;B &amp; C"));
    assert!(svg.contains("Updated 2024&lt;06-0"));
    assert!(!svg.contains("A<B"));
}

#[test]
fn test_modern_escapes_owner_initial() {
    let mut metadata = sample_metadata();
    metadata.owner.login = "<oddly-named>".to_string();
    let svg = generate_svg(&metadata, "modern", false, None, None).unwrap();
    // the avatar initial is the escaped first character of the login
    assert!(svg.contains(">&lt;</text>"));
    assert!(svg.contains("&lt;oddly-named&gt;"));
}
