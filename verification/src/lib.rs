//! RepoCard Studio core: turns typed repository metadata into a bundle of
//! shareable artifacts — an SVG social card, markdown documents (README
//! snippet, release notes, press kit), and a multi-file export plan.
use vstd::prelude::*;

pub mod docs;
pub mod export;
pub mod github;
pub mod templates;
pub mod text;

verus! {

/// Repository metadata, as delivered by the metadata collaborator.
#[derive(Debug, Clone)]
pub struct RepoMetadata {
    pub name: String,
    pub full_name: String,
    pub description: Option<String>,
    pub html_url: String,
    pub stargazers_count: u32,
    pub forks_count: u32,
    pub watchers_count: u32,
    pub open_issues_count: u32,
    pub language: Option<String>,
    pub topics: Vec<String>,
    pub created_at: String,
    pub updated_at: String,
    pub pushed_at: String,
    pub default_branch: String,
    pub license: Option<LicenseInfo>,
    pub owner: OwnerInfo,
}

/// License identity attached to a repository.
#[derive(Debug, Clone)]
pub struct LicenseInfo {
    pub key: String,
    pub name: String,
    pub spdx_id: Option<String>,
}

/// Owning account of a repository.
#[derive(Debug, Clone)]
pub struct OwnerInfo {
    pub login: String,
    pub avatar_url: String,
    pub html_url: String,
}

/// One entry of the commit history: short hash and the first line of the
/// commit message, plus author identity and date.
#[derive(Debug, Clone)]
pub struct CommitInfo {
    pub sha: String,
    pub message: String,
    pub author_name: String,
    pub author_email: String,
    pub date: String,
}

impl CommitInfo {
    /// An equal copy of the record.
    pub fn duplicate(&self) -> (r: CommitInfo)
        ensures
            r == *self,
    {
        CommitInfo {
            sha: self.sha.clone(),
            message: self.message.clone(),
            author_name: self.author_name.clone(),
            author_email: self.author_email.clone(),
            date: self.date.clone(),
        }
    }
}

/// Configuration for one export call.
#[derive(Debug, Clone)]
pub struct ExportOptions {
    pub output_dir: String,
    pub include_attribution: bool,
    pub template_id: String,
    pub primary_color: Option<String>,
    pub secondary_color: Option<String>,
}

/// Outcome of a completed export: the resolved output path and the relative
/// paths written, in write order.
#[derive(Debug, Clone)]
pub struct ExportResult {
    pub success: bool,
    pub output_path: String,
    pub files: Vec<String>,
    pub error: Option<String>,
}

} // verus!
