use repocard_studio::docs::generate_press_kit;
use repocard_studio::docs::generate_readme_snippet;
use repocard_studio::docs::release_notes_with_date;
use repocard_studio::templates::generate_svg;
use repocard_studio::{CommitInfo, LicenseInfo, OwnerInfo, RepoMetadata};

fn sample_metadata() -> RepoMetadata {
    RepoMetadata {
        name: "test-repo".to_string(),
        full_name: "owner/test-repo".to_string(),
        description: Some("A test repository".to_string()),
        html_url: "https://github.com/owner/test-repo".to_string(),
        stargazers_count: 1234,
        forks_count: 56,
        watchers_count: 100,
        open_issues_count: 10,
        language: Some("Rust".to_string()),
        topics: vec!["testing".to_string(), "rust".to_string()],
        created_at: "2024-01-01T00:00:00Z".to_string(),
        updated_at: "2024-06-01T00:00:00Z".to_string(),
        pushed_at: "2024-06-01T00:00:00Z".to_string(),
        default_branch: "main".to_string(),
        license: Some(LicenseInfo {
            key: "mit".to_string(),
            name: "MIT License".to_string(),
            spdx_id: Some("MIT".to_string()),
        }),
        owner: OwnerInfo {
            login: "owner".to_string(),
            avatar_url: "https://github.com/owner.png".to_string(),
            html_url: "https://github.com/owner".to_string(),
        },
    }
}

fn commit(sha: &str, message: &str) -> CommitInfo {
    CommitInfo {
        sha: sha.to_string(),
        message: message.to_string(),
        author_name: "Test".to_string(),
        author_email: "test@example.com".to_string(),
        date: "2024-01-01T00:00:00Z".to_string(),
    }
}

#[test]
fn test_modern_template_exact() {
    let metadata = sample_metadata();
    let svg = generate_svg(
        &metadata,
        "modern",
        true,
        Some("#0d1117".to_string()),
        Some("#161b22".to_string()),
    )
    .unwrap();
    assert_eq!(svg, MODERN_EXPECTED);
}

#[test]
fn test_minimal_template_exact() {
    let metadata = sample_metadata();
    let svg = generate_svg(&metadata, "minimal", true, None, None).unwrap();
    assert_eq!(svg, MINIMAL_EXPECTED);
}

#[test]
fn test_gradient_template_exact() {
    let metadata = sample_metadata();
    let svg = generate_svg(&metadata, "gradient", true, None, None).unwrap();
    assert_eq!(svg, GRADIENT_EXPECTED);
}

#[test]
fn test_readme_snippet_exact() {
    let metadata = sample_metadata();
    assert_eq!(generate_readme_snippet(&metadata, true), README_EXPECTED);
}

#[test]
fn test_release_notes_exact() {
    let metadata = sample_metadata();
    let commits = vec![
        commit("abc1234", "feat: add things"),
        commit("def5678", "fix: repair things"),
        commit("0123abc", "refactor: shuffle things"),
    ];
    let notes = release_notes_with_date(&metadata, &commits, None, "2024-06-01", true);
    assert_eq!(notes, NOTES_EXPECTED);
}

#[test]
fn test_press_kit_exact() {
    let metadata = sample_metadata();
    assert_eq!(generate_press_kit(&metadata, true), PRESS_EXPECTED);
}

const MODERN_EXPECTED: &str = r##"<!-- KZ: LAZYFROG :: frogprints -->
<svg width="1200" height="630" viewBox="0 0 1200 630" xmlns="http://www.w3.org/2000/svg">
  <defs>
    <clipPath id="avatar-clip">
      <circle cx="80" cy="80" r="40"/>
    </clipPath>
    <filter id="shadow" x="-20%" y="-20%" width="140%" height="140%">
      <feDropShadow dx="0" dy="4" stdDeviation="8" flood-opacity="0.25"/>
    </filter>
  </defs>
  
  <!-- Background -->
  <rect width="1200" height="630" fill="#0d1117"/>
  <rect x="40" y="40" width="1120" height="550" rx="16" fill="#161b22" filter="url(#shadow)"/>
  
  <!-- Frogprints Easter Egg -->
  <g opacity="0.03">
    <circle cx="1140" cy="600" r="4"/>
    <circle cx="1152" cy="608" r="3"/>
    <circle cx="1160" cy="598" r="3"/>
  </g>
  
  <!-- Header -->
  <g transform="translate(80, 80)">
    <!-- Owner Avatar Placeholder -->
    <circle cx="40" cy="40" r="40" fill="#30363d"/>
    <text x="40" y="48" text-anchor="middle" font-size="24" fill="#8b949e" font-family="system-ui, -apple-system, sans-serif">O</text>
    
    <!-- Repo Name -->
    <text x="100" y="30" font-size="32" font-weight="bold" fill="#f0f6fc" font-family="system-ui, -apple-system, sans-serif">owner</text>
    <text x="100" y="65" font-size="28" fill="#8b949e" font-family="system-ui, -apple-system, sans-serif">/ test-repo</text>
  </g>
  
  <!-- Description -->
  <text x="80" y="200" font-size="20" fill="#c9d1d9" font-family="system-ui, -apple-system, sans-serif">
    <tspan x="80" dy="0">A test repository</tspan>
  </text>
  
  <!-- Stats -->
  <g transform="translate(80, 280)">
    <!-- Stars -->
    <g transform="translate(0, 0)">
      <path d="M8 0C3.58 0 0 3.58 0 8s3.58 8 8 8 8-3.58 8-8-3.58-8-8-8zm0 14.5c-3.59 0-6.5-2.91-6.5-6.5S4.41 1.5 8 1.5s6.5 2.91 6.5 6.5-2.91 6.5-6.5 6.5z" fill="#f0f6fc" transform="scale(1.2)"/>
      <path d="M8 3.5l1.5 3 3.5.5-2.5 2.5.5 3.5L8 11l-3 2 .5-3.5L3 7l3.5-.5z" fill="#f0f6fc" transform="scale(1.2)"/>
      <text x="28" y="14" font-size="16" fill="#f0f6fc" font-family="system-ui, -apple-system, sans-serif">1.2K</text>
    </g>
    
    <!-- Forks -->
    <g transform="translate(120, 0)">
      <path d="M5 5.372v.878c0 .414.336.75.75.75h4.5a.75.75 0 0 0 .75-.75v-.878a2.25 2.25 0 1 0-1.5 0v.878H6.25v-.878a2.25 2.25 0 1 0-1.5 0ZM8 1.25a1.25 1.25 0 1 1 0 2.5 1.25 1.25 0 0 1 0-2.5ZM5 4a1.25 1.25 0 1 1 0-2.5A1.25 1.25 0 0 1 5 4Zm6 0a1.25 1.25 0 1 1 0-2.5A1.25 1.25 0 0 1 11 4Z" fill="#f0f6fc" transform="scale(1.2)"/>
      <text x="28" y="14" font-size="16" fill="#f0f6fc" font-family="system-ui, -apple-system, sans-serif">56</text>
    </g>
    
    <!-- Language -->
    <g transform="translate(240, 0)">
      <circle cx="8" cy="8" r="6" fill="#dea584"/>
      <text x="24" y="14" font-size="16" fill="#f0f6fc" font-family="system-ui, -apple-system, sans-serif">Rust</text>
    </g>
  </g>
  
  <!-- Topics -->
  <g transform="translate(80, 360)">
    <g transform="translate(0, 0)"><rect width="76" height="28" rx="14" fill="#30363d"/><text x="38" y="19" font-size="12" fill="#8b949e" font-family="system-ui, -apple-system, sans-serif">testing</text></g><g transform="translate(86, 0)"><rect width="52" height="28" rx="14" fill="#30363d"/><text x="26" y="19" font-size="12" fill="#8b949e" font-family="system-ui, -apple-system, sans-serif">rust</text></g>
  </g>
  
  <!-- Footer -->
  <g transform="translate(80, 520)">
    <text font-size="14" fill="#6e7681" font-family="system-ui, -apple-system, sans-serif">https://github.com/owner/test-repo</text>
  </g>
  
  <!-- Attribution -->
  <g transform="translate(0, 570)">
    <text x="600" y="305" text-anchor="middle" font-size="10" fill="#6e7681" font-family="system-ui, -apple-system, sans-serif">Generated with RepoCard Studio — LAZYFROG (KZ) — kindware.dev</text>
  </g>
</svg>"##;

const MINIMAL_EXPECTED: &str = r##"<!-- KZ: LAZYFROG :: frogprints -->
<svg width="1200" height="630" viewBox="0 0 1200 630" xmlns="http://www.w3.org/2000/svg">
  <!-- Background -->
  <rect width="1200" height="630" fill="#ffffff"/>
  
  <!-- Frogprints Easter Egg -->
  <g opacity="0.025" fill="#000000">
    <circle cx="1140" cy="600" r="4"/>
    <circle cx="1152" cy="608" r="3"/>
    <circle cx="1160" cy="598" r="3"/>
  </g>
  
  <!-- Content -->
  <g transform="translate(100, 180)">
    <!-- Repo Name -->
    <text font-size="48" font-weight="bold" fill="#111827" font-family="system-ui, -apple-system, sans-serif">
      <tspan fill="#6b7280">owner</tspan><tspan fill="#111827"> / test-repo</tspan>
    </text>
    
    <!-- Description -->
    <text y="80" font-size="24" fill="#4b5563" font-family="system-ui, -apple-system, sans-serif">A test repository</text>
    
    <!-- Stats Row -->
    <g transform="translate(0, 160)">
      <text font-size="20" fill="#6b7280" font-family="system-ui, -apple-system, sans-serif">
        <tspan font-weight="bold" fill="#111827">1.2K</tspan> stars
        <tspan dx="40" font-weight="bold" fill="#111827">56</tspan> forks
        <tspan dx="40" font-weight="bold" fill="#111827">10</tspan> issues
      </text>
    </g>
    
    <!-- Language Badge -->
    <g transform="translate(0, 220)">
      <rect width="120" height="32" rx="16" fill="#f3f4f6"/>
      <circle cx="20" cy="16" r="6" fill="#dea584"/>
      <text x="36" y="21" font-size="14" fill="#374151" font-family="system-ui, -apple-system, sans-serif">Rust</text>
    </g>
  </g>
  
  <!-- Attribution -->
  <text x="600" y="600" text-anchor="middle" font-size="11" fill="#9ca3af" font-family="system-ui, -apple-system, sans-serif">Generated with RepoCard Studio — LAZYFROG (KZ) — kindware.dev</text>
</svg>"##;

const GRADIENT_EXPECTED: &str = r##"<!-- KZ: LAZYFROG :: frogprints -->
<svg width="1200" height="630" viewBox="0 0 1200 630" xmlns="http://www.w3.org/2000/svg">
  <defs>
    <linearGradient id="bg-gradient" x1="0%" y1="0%" x2="100%" y2="100%">
      <stop offset="0%" style="stop-color:#667eea;stop-opacity:1" />
      <stop offset="100%" style="stop-color:#764ba2;stop-opacity:1" />
    </linearGradient>
    <filter id="glow" x="-20%" y="-20%" width="140%" height="140%">
      <feGaussianBlur stdDeviation="2" result="coloredBlur"/>
      <feMerge>
        <feMergeNode in="coloredBlur"/>
        <feMergeNode in="SourceGraphic"/>
      </feMerge>
    </filter>
  </defs>
  
  <!-- Gradient Background -->
  <rect width="1200" height="630" fill="url(#bg-gradient)"/>
  
  <!-- Frogprints Easter Egg -->
  <g opacity="0.04" fill="#ffffff">
    <circle cx="1140" cy="600" r="4"/>
    <circle cx="1152" cy="608" r="3"/>
    <circle cx="1160" cy="598" r="3"/>
  </g>
  
  <!-- Decorative Elements -->
  <circle cx="100" cy="100" r="200" fill="rgba(255,255,255,0.05)"/>
  <circle cx="1100" cy="530" r="250" fill="rgba(255,255,255,0.05)"/>
  
  <!-- Content Card -->
  <rect x="80" y="120" width="1040" height="400" rx="24" fill="rgba(255,255,255,0.1)" stroke="rgba(255,255,255,0.2)" stroke-width="1"/>
  
  <!-- Content -->
  <g transform="translate(140, 180)">
    <!-- Repo Name -->
    <text font-size="56" font-weight="bold" fill="#ffffff" font-family="system-ui, -apple-system, sans-serif" filter="url(#glow)">owner/test-repo</text>
    
    <!-- Description -->
    <text y="80" font-size="22" fill="rgba(255,255,255,0.9)" font-family="system-ui, -apple-system, sans-serif">A test repository</text>
    
    <!-- Stats -->
    <g transform="translate(0, 160)">
      <!-- Stars -->
      <g>
        <rect width="100" height="40" rx="20" fill="rgba(255,255,255,0.2)"/>
        <text x="50" y="27" text-anchor="middle" font-size="16" font-weight="bold" fill="#ffffff" font-family="system-ui, -apple-system, sans-serif">★ 1.2K</text>
      </g>
      
      <!-- Forks -->
      <g transform="translate(120, 0)">
        <rect width="100" height="40" rx="20" fill="rgba(255,255,255,0.2)"/>
        <text x="50" y="27" text-anchor="middle" font-size="16" font-weight="bold" fill="#ffffff" font-family="system-ui, -apple-system, sans-serif">⑂ 56</text>
      </g>
      
      <!-- Language -->
      <g transform="translate(240, 0)">
        <rect width="140" height="40" rx="20" fill="rgba(255,255,255,0.2)"/>
        <circle cx="24" cy="20" r="8" fill="#dea584"/>
        <text x="44" y="27" font-size="16" font-weight="bold" fill="#ffffff" font-family="system-ui, -apple-system, sans-serif">Rust</text>
      </g>
    </g>
    
    <!-- License -->
    <g transform="translate(0, 230)">
      <text font-size="14" fill="rgba(255,255,255,0.7)" font-family="system-ui, -apple-system, sans-serif">
        MIT License • Updated 2024-06-01
      </text>
    </g>
  </g>
  
  <!-- Attribution -->
  <text x="600" y="600" text-anchor="middle" font-size="11" fill="rgba(255,255,255,0.7)" font-family="system-ui, -apple-system, sans-serif">Generated with RepoCard Studio — LAZYFROG (KZ) — kindware.dev</text>
</svg>"##;

const README_EXPECTED: &str = r#"<!-- KZ signature: LAZYFROG -->
# test-repo

A test repository

[![Stars](https://img.shields.io/github/stars/owner/test-repo?style=social)](https://github.com/owner/test-repo)
[![Forks](https://img.shields.io/github/forks/owner/test-repo?style=social)](https://github.com/owner/test-repo/fork)
![License](https://img.shields.io/badge/license-MIT-blue.svg)

## 📊 Stats

| Metric | Count |
|--------|-------|
| ⭐ Stars | 1.2K |
| 🍴 Forks | 56 |
| 🔓 Issues | 10 |

## 🔗 Links

- **Repository**: [owner/test-repo](https://github.com/owner/test-repo)
- **Language**: Rust
- **License**: MIT License

## 🚀 Quick Start

```bash
git clone https://github.com/owner/test-repo.git
cd test-repo
```


---

<sub>Generated with RepoCard Studio — LAZYFROG (KZ) — kindware.dev</sub>"#;

const NOTES_EXPECTED: &str = r#"# test-repo v0.0.0

**Release Date**: 2024-06-01

## What's Changed

### ✨ Features

- feat: add things (`abc1234`)

### 🐛 Bug Fixes

- fix: repair things (`def5678`)

### 📝 Other Changes

- refactor: shuffle things (`0123abc`)

## 📦 Installation

```bash
git clone https://github.com/owner/test-repo.git
cd test-repo
git checkout v0.0.0
```

## 🔗 Links

- **Full Changelog**: https://github.com/owner/test-repo/commits/main
- **Repository**: https://github.com/owner/test-repo

---

<sub>Generated with RepoCard Studio — LAZYFROG (KZ) — kindware.dev</sub>
"#;

const PRESS_EXPECTED: &str = r#"# test-repo — Press Kit

## Overview

**test-repo** is A test repository

## Quick Facts

| | |
|---|---|
| **Name** | test-repo |
| **Author** | [owner](https://github.com/owner) |
| **Repository** | [owner/test-repo](https://github.com/owner/test-repo) |
| **Language** | Rust |
| **License** | MIT License |
| **Stars** | 1.2K |
| **Forks** | 56 |

## Description

A test repository

## Key Features

- Primary language: **Rust**
- Active development with **10** open issues
- Last updated: **2024-06-01**

## Topics / Tags

`testing`, `rust`

## Assets

The following assets are included in this press kit:

- `repo-card.svg` — Vector social card (editable)
- `repo-card.png` — Raster social card (1200×630)
- `README-snippet.md` — Ready-to-use README section
- `release-notes-draft.md` — Auto-generated release notes template

## Screenshots

Place screenshots in the `screenshots/` folder.

## Contact

- **Repository**: https://github.com/owner/test-repo
- **Owner**: https://github.com/owner

## License

This project is licensed under **MIT License**.

---

<sub>Generated with RepoCard Studio — LAZYFROG (KZ) — kindware.dev</sub>"#;
