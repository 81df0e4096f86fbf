//! Document generators: README snippet, press-kit overview and the
//! release-notes draft with its commit categorization.
use vstd::prelude::*;

verus! {

use crate::RepoMetadata;
use crate::LicenseInfo;
use crate::CommitInfo;
use crate::text::spec_format_count;
use crate::text::format_count;
use crate::text::spec_lower;
use crate::text::lower_ascii;
use crate::text::spec_take_chars;
use crate::text::take_chars;
use crate::text::string_push;
use crate::text::spec_is_digit;
use crate::templates::spec_attribution_text;
use crate::text::spec_contains_seq;
use crate::templates::attribution_text;
use crate::templates::spec_views;
use crate::templates::spec_opt_str;
use crate::templates::spec_or;
use crate::templates::or_default;
use crate::templates::spec_desc_or;
use crate::templates::desc_or;
use crate::templates::spec_license_name_or;
use crate::templates::license_name_or;

// ---------------------------------------------------------------------------
// Shared helpers
// ---------------------------------------------------------------------------

/// The language name, or `Not specified` when absent.
pub open spec fn spec_lang_or_unspecified(l: Option<String>) -> Seq<char> {
    match l {
        Some(s) => s@,
        None => "Not specified"@,
    }
}

fn lang_or_unspecified(l: &Option<String>) -> (r: &str)
    ensures
        r@ == spec_lang_or_unspecified(*l),
{
    match l {
        Some(s) => s.as_str(),
        None => "Not specified",
    }
}

/// The SPDX identifier of a license, or its key when none is recorded.
pub open spec fn spec_spdx_or_key(li: LicenseInfo) -> Seq<char> {
    match li.spdx_id {
        Some(s) => s@,
        None => li.key@,
    }
}

/// The shields-style license badge line, or nothing without a license.
pub open spec fn spec_license_badge(l: Option<LicenseInfo>) -> Seq<char> {
    match l {
        Some(li) => "![License](https://img.shields.io/badge/license-"@ + spec_spdx_or_key(li)
            + "-blue.svg)"@,
        None => Seq::<char>::empty(),
    }
}

fn license_badge(l: &Option<LicenseInfo>) -> (r: String)
    ensures
        r@ == spec_license_badge(*l),
{
    match l {
        Some(li) => {
            let mut out = String::from_str("![License](https://img.shields.io/badge/license-");
            match &li.spdx_id {
                Some(s) => out.append(s.as_str()),
                None => out.append(li.key.as_str()),
            }
            out.append("-blue.svg)");
            out
        },
        None => String::new(),
    }
}

// ---------------------------------------------------------------------------
// README snippet
// ---------------------------------------------------------------------------

/// The README attribution footer, or nothing when disabled.
pub open spec fn spec_readme_attribution(attr: bool) -> Seq<char> {
    if attr {
        "\n\n---\n\n<sub>"@ + spec_attribution_text() + "</sub>"@
    } else {
        Seq::<char>::empty()
    }
}

fn readme_attribution(attr: bool) -> (r: String)
    ensures
        r@ == spec_readme_attribution(attr),
{
    if attr {
        let mut out = String::from_str("\n\n---\n\n<sub>");
        out.append(attribution_text());
        out.append("</sub>");
        out
    } else {
        String::new()
    }
}

/// The README snippet: signature comment, title, description, badge links,
/// stats table, links, quick-start snippet and optional attribution.
pub open spec fn spec_readme_snippet(m: RepoMetadata, attr: bool) -> Seq<char> {
    let desc = spec_desc_or(m.description, "A GitHub repository"@);
    r#"<!-- KZ signature: LAZYFROG -->
# "#@
        + m.name@
        + r#"

"#@
        + desc
        + r#"

[![Stars](https://img.shields.io/github/stars/"#@
        + m.full_name@
        + "?style=social)](https://github.com/"@
        + m.full_name@
        + r#")
[![Forks](https://img.shields.io/github/forks/"#@
        + m.full_name@
        + "?style=social)](https://github.com/"@
        + m.full_name@
        + r#"/fork)
"#@
        + spec_license_badge(m.license)
        + r#"

## 📊 Stats

| Metric | Count |
|--------|-------|
| ⭐ Stars | "#@
        + spec_format_count(m.stargazers_count as nat)
        + r#" |
| 🍴 Forks | "#@
        + spec_format_count(m.forks_count as nat)
        + r#" |
| 🔓 Issues | "#@
        + spec_format_count(m.open_issues_count as nat)
        + r#" |

## 🔗 Links

- **Repository**: ["#@
        + m.full_name@
        + "]("@
        + m.html_url@
        + r#")
- **Language**: "#@
        + spec_lang_or_unspecified(m.language)
        + r#"
- **License**: "#@
        + spec_license_name_or(m.license, "Not specified"@)
        + r#"

## 🚀 Quick Start

```bash
git clone "#@
        + m.html_url@
        + r#".git
cd "#@
        + m.name@
        + r#"
```
"#@
        + spec_readme_attribution(attr)
}

/// Generates the README snippet for a repository.
pub fn generate_readme_snippet(metadata: &RepoMetadata, include_attribution: bool) -> (r: String)
    ensures
        r@ == spec_readme_snippet(*metadata, include_attribution),
{
    let description = desc_or(&metadata.description, "A GitHub repository");
    let license_badge = license_badge(&metadata.license);
    let stars = format_count(metadata.stargazers_count);
    let forks = format_count(metadata.forks_count);
    let issues = format_count(metadata.open_issues_count);
    let language = lang_or_unspecified(&metadata.language);
    let license_name = license_name_or(&metadata.license, "Not specified");
    let attribution = readme_attribution(include_attribution);
    let mut out = String::from_str(r#"<!-- KZ signature: LAZYFROG -->
# "#);
    out.append(metadata.name.as_str());
    out.append(r#"

"#);
    out.append(description);
    out.append(r#"

[![Stars](https://img.shields.io/github/stars/"#);
    out.append(metadata.full_name.as_str());
    out.append("?style=social)](https://github.com/");
    out.append(metadata.full_name.as_str());
    out.append(r#")
[![Forks](https://img.shields.io/github/forks/"#);
    out.append(metadata.full_name.as_str());
    out.append("?style=social)](https://github.com/");
    out.append(metadata.full_name.as_str());
    out.append(r#"/fork)
"#);
    out.append(license_badge.as_str());
    out.append(r#"

## 📊 Stats

| Metric | Count |
|--------|-------|
| ⭐ Stars | "#);
    out.append(stars.as_str());
    out.append(r#" |
| 🍴 Forks | "#);
    out.append(forks.as_str());
    out.append(r#" |
| 🔓 Issues | "#);
    out.append(issues.as_str());
    out.append(r#" |

## 🔗 Links

- **Repository**: ["#);
    out.append(metadata.full_name.as_str());
    out.append("](");
    out.append(metadata.html_url.as_str());
    out.append(r#")
- **Language**: "#);
    out.append(language);
    out.append(r#"
- **License**: "#);
    out.append(license_name);
    out.append(r#"

## 🚀 Quick Start

```bash
git clone "#);
    out.append(metadata.html_url.as_str());
    out.append(r#".git
cd "#);
    out.append(metadata.name.as_str());
    out.append(r#"
```
"#);
    out.append(attribution.as_str());
    proof {
        assert(out@ == spec_readme_snippet(*metadata, include_attribution));
    }
    out
}

// ---------------------------------------------------------------------------
// Commit categorization
// ---------------------------------------------------------------------------

/// The five release-note sections a commit can fall into.
pub enum CommitCategory {
    Features,
    Fixes,
    Docs,
    Chores,
    Other,
}

/// The category of a commit message: case-insensitive prefix match on the
/// message, first matching rule wins, in the fixed rule order.
pub open spec fn spec_category(msg: Seq<char>) -> CommitCategory {
    let m = spec_lower(msg);
    if "feat"@.is_prefix_of(m) || "feature"@.is_prefix_of(m) {
        CommitCategory::Features
    } else if "fix"@.is_prefix_of(m) || "bug"@.is_prefix_of(m) {
        CommitCategory::Fixes
    } else if "doc"@.is_prefix_of(m) {
        CommitCategory::Docs
    } else if "chore"@.is_prefix_of(m) || "ci"@.is_prefix_of(m) || "build"@.is_prefix_of(m) {
        CommitCategory::Chores
    } else {
        CommitCategory::Other
    }
}

/// The commits of one category, in input order.
pub open spec fn spec_commits_in(cs: Seq<CommitInfo>, cat: CommitCategory) -> Seq<CommitInfo> {
    cs.filter(|c: CommitInfo| spec_category(c.message@) == cat)
}

/// Whether `pat` is a prefix of `s`.
pub fn starts_with_str(s: &str, pat: &str) -> (r: bool)
    ensures
        r == pat@.is_prefix_of(s@),
{
    let np = pat.unicode_len();
    let ns = s.unicode_len();
    if np > ns {
        return false;
    }
    let mut i: usize = 0;
    while i < np
        invariant
            i <= np,
            np <= ns,
            np == pat@.len(),
            ns == s@.len(),
            forall|j: int| 0 <= j < i ==> pat@[j] == s@[j],
        decreases np - i,
    {
        if pat.get_char(i) != s.get_char(i) {
            proof {
                assert(!pat@.is_prefix_of(s@)) by {
                    if pat@.is_prefix_of(s@) {
                        assert(pat@[i as int] == s@.subrange(0, np as int)[i as int]);
                    }
                }
            }
            return false;
        }
        i = i + 1;
    }
    proof {
        assert(pat@ =~= s@.subrange(0, np as int));
    }
    true
}

/// Computes the category of a commit message.
pub fn category_of(message: &str) -> (c: CommitCategory)
    ensures
        c == spec_category(message@),
{
    let low = lower_ascii(message);
    if starts_with_str(low.as_str(), "feat") || starts_with_str(low.as_str(), "feature") {
        CommitCategory::Features
    } else if starts_with_str(low.as_str(), "fix") || starts_with_str(low.as_str(), "bug") {
        CommitCategory::Fixes
    } else if starts_with_str(low.as_str(), "doc") {
        CommitCategory::Docs
    } else if starts_with_str(low.as_str(), "chore") || starts_with_str(low.as_str(), "ci")
        || starts_with_str(low.as_str(), "build") {
        CommitCategory::Chores
    } else {
        CommitCategory::Other
    }
}

proof fn lemma_commits_in_snoc(cs: Seq<CommitInfo>, i: int, cat: CommitCategory)
    requires
        0 <= i < cs.len(),
    ensures
        spec_commits_in(cs.take(i + 1), cat) == if spec_category(cs[i].message@) == cat {
            spec_commits_in(cs.take(i), cat).push(cs[i])
        } else {
            spec_commits_in(cs.take(i), cat)
        },
{
    reveal(Seq::filter);
    assert(cs.take(i + 1).drop_last() =~= cs.take(i));
    assert(cs.take(i + 1).last() == cs[i]);
}

/// Splits commits into the five categories; each output list keeps the
/// input order, and every commit appears in exactly the list its category
/// names.
pub fn categorize_commits(commits: &Vec<CommitInfo>) -> (r: (
    Vec<CommitInfo>,
    Vec<CommitInfo>,
    Vec<CommitInfo>,
    Vec<CommitInfo>,
    Vec<CommitInfo>,
))
    ensures
        r.0@ == spec_commits_in(commits@, CommitCategory::Features),
        r.1@ == spec_commits_in(commits@, CommitCategory::Fixes),
        r.2@ == spec_commits_in(commits@, CommitCategory::Docs),
        r.3@ == spec_commits_in(commits@, CommitCategory::Chores),
        r.4@ == spec_commits_in(commits@, CommitCategory::Other),
{
    let mut features: Vec<CommitInfo> = Vec::new();
    let mut fixes: Vec<CommitInfo> = Vec::new();
    let mut docs: Vec<CommitInfo> = Vec::new();
    let mut chores: Vec<CommitInfo> = Vec::new();
    let mut other: Vec<CommitInfo> = Vec::new();
    proof {
        reveal(Seq::filter);
        assert(commits@.take(0) =~= Seq::<CommitInfo>::empty());
    }
    let mut i: usize = 0;
    while i < commits.len()
        invariant
            i <= commits@.len(),
            features@ == spec_commits_in(commits@.take(i as int), CommitCategory::Features),
            fixes@ == spec_commits_in(commits@.take(i as int), CommitCategory::Fixes),
            docs@ == spec_commits_in(commits@.take(i as int), CommitCategory::Docs),
            chores@ == spec_commits_in(commits@.take(i as int), CommitCategory::Chores),
            other@ == spec_commits_in(commits@.take(i as int), CommitCategory::Other),
        decreases commits@.len() - i,
    {
        let c = commits[i].duplicate();
        proof {
            lemma_commits_in_snoc(commits@, i as int, CommitCategory::Features);
            lemma_commits_in_snoc(commits@, i as int, CommitCategory::Fixes);
            lemma_commits_in_snoc(commits@, i as int, CommitCategory::Docs);
            lemma_commits_in_snoc(commits@, i as int, CommitCategory::Chores);
            lemma_commits_in_snoc(commits@, i as int, CommitCategory::Other);
        }
        match category_of(c.message.as_str()) {
            CommitCategory::Features => features.push(c),
            CommitCategory::Fixes => fixes.push(c),
            CommitCategory::Docs => docs.push(c),
            CommitCategory::Chores => chores.push(c),
            CommitCategory::Other => other.push(c),
        }
        i = i + 1;
    }
    proof {
        assert(commits@.take(commits@.len() as int) =~= commits@);
    }
    (features, fixes, docs, chores, other)
}

/// Categorization partitions the commit list losslessly: the five category
/// lists together hold exactly as many commits as the input, and every
/// commit appears in the list of its own category.
pub proof fn lemma_categorize_partition(cs: Seq<CommitInfo>)
    ensures
        spec_commits_in(cs, CommitCategory::Features).len() + spec_commits_in(
            cs,
            CommitCategory::Fixes,
        ).len() + spec_commits_in(cs, CommitCategory::Docs).len() + spec_commits_in(
            cs,
            CommitCategory::Chores,
        ).len() + spec_commits_in(cs, CommitCategory::Other).len() == cs.len(),
        forall|i: int|
            0 <= i < cs.len() ==> spec_commits_in(
                cs,
                spec_category(#[trigger] cs[i].message@),
            ).contains(cs[i]),
        forall|cat: CommitCategory, i: int|
            0 <= i < spec_commits_in(cs, cat).len() ==> spec_category(
                #[trigger] spec_commits_in(cs, cat)[i].message@,
            ) == cat,
    decreases cs.len(),
{
    reveal(Seq::filter);
    if cs.len() > 0 {
        lemma_categorize_partition(cs.drop_last());
        assert forall|cat: CommitCategory, i: int|
            0 <= i < spec_commits_in(cs, cat).len() implies spec_category(
            #[trigger] spec_commits_in(cs, cat)[i].message@,
        ) == cat by {
            let sub = spec_commits_in(cs.drop_last(), cat);
            if i < sub.len() {
                assert(spec_commits_in(cs, cat)[i] == sub[i]);
            } else {
                assert(spec_commits_in(cs, cat)[i] == cs.last());
            }
        }
        assert forall|i: int|
            0 <= i < cs.len() implies spec_commits_in(
            cs,
            spec_category(#[trigger] cs[i].message@),
        ).contains(cs[i]) by {
            let cat = spec_category(cs[i].message@);
            if i == cs.len() - 1 {
                let f = spec_commits_in(cs, cat);
                assert(f[f.len() - 1] == cs[i]);
            } else {
                assert(cs.drop_last()[i] == cs[i]);
                assert(spec_commits_in(cs.drop_last(), cat).contains(cs[i]));
                let sub = spec_commits_in(cs.drop_last(), cat);
                let j = choose|j: int| 0 <= j < sub.len() && sub[j] == cs[i];
                assert(spec_commits_in(cs, cat)[j] == cs[i]);
            }
        }
    }
}

// ---------------------------------------------------------------------------
// Release notes draft
// ---------------------------------------------------------------------------

/// One release-note entry: the commit message and its short hash.
pub open spec fn spec_commit_entry(c: CommitInfo) -> Seq<char> {
    "- "@ + c.message@ + " (`"@ + c.sha@ + "`)\n"@
}

/// The entries of one section, in order.
pub open spec fn spec_commit_entries(cs: Seq<CommitInfo>) -> Seq<char>
    decreases cs.len(),
{
    if cs.len() == 0 {
        Seq::<char>::empty()
    } else {
        spec_commit_entries(cs.drop_last()) + spec_commit_entry(cs.last())
    }
}

/// One section of the release notes; an empty category is omitted whole,
/// header included.
pub open spec fn spec_section(header: Seq<char>, cs: Seq<CommitInfo>) -> Seq<char> {
    if cs.len() == 0 {
        Seq::<char>::empty()
    } else {
        header + spec_commit_entries(cs) + seq!['\n']
    }
}

fn append_section(out: &mut String, header: &str, cs: &Vec<CommitInfo>)
    ensures
        final(out)@ == old(out)@ + spec_section(header@, cs@),
{
    if cs.len() == 0 {
        proof {
            assert(old(out)@ + spec_section(header@, cs@) =~= old(out)@);
        }
        return ;
    }
    out.append(header);
    proof {
        assert(out@ =~= old(out)@ + header@ + spec_commit_entries(cs@.take(0)));
    }
    let mut i: usize = 0;
    while i < cs.len()
        invariant
            i <= cs@.len(),
            cs@.len() > 0,
            out@ == old(out)@ + header@ + spec_commit_entries(cs@.take(i as int)),
        decreases cs@.len() - i,
    {
        out.append("- ");
        out.append(cs[i].message.as_str());
        out.append(" (`");
        out.append(cs[i].sha.as_str());
        out.append("`)\n");
        proof {
            assert(cs@.take(i as int + 1).drop_last() =~= cs@.take(i as int));
            assert(cs@.take(i as int + 1).last() == cs@[i as int]);
            assert(out@ =~= old(out)@ + header@ + spec_commit_entries(cs@.take(i as int + 1)));
        }
        i = i + 1;
    }
    string_push(out, '\n');
    proof {
        assert(cs@.take(cs@.len() as int) =~= cs@);
        assert(out@ =~= old(out)@ + spec_section(header@, cs@));
    }
}

/// The header of the release notes: title with version, and the date line.
pub open spec fn spec_notes_header(m: RepoMetadata, version: Seq<char>, date: Seq<char>) -> Seq<
    char,
> {
    "# "@
        + m.name@
        + " "@
        + version
        + r#"

**Release Date**: "#@
        + date
        + r#"

## What's Changed

"#@
}

/// The footer of the release notes: installation and changelog links.
pub open spec fn spec_notes_footer(m: RepoMetadata, version: Seq<char>) -> Seq<char> {
    r#"## 📦 Installation

```bash
git clone "#@
        + m.html_url@
        + r#".git
cd "#@
        + m.name@
        + r#"
git checkout "#@
        + version
        + r#"
```

## 🔗 Links

- **Full Changelog**: "#@
        + m.html_url@
        + "/commits/"@
        + m.default_branch@
        + r#"
- **Repository**: "#@
        + m.html_url@
        + r#"
"#@
}

/// The release-notes attribution footer, or nothing when disabled.
pub open spec fn spec_notes_attribution(attr: bool) -> Seq<char> {
    if attr {
        "\n---\n\n<sub>"@ + spec_attribution_text() + "</sub>\n"@
    } else {
        Seq::<char>::empty()
    }
}

/// The complete release-notes draft for a version label, a date and a commit
/// history: header, one section per nonempty category in the fixed order,
/// footer, and optional attribution.
pub open spec fn spec_release_notes(
    m: RepoMetadata,
    cs: Seq<CommitInfo>,
    version: Seq<char>,
    date: Seq<char>,
    attr: bool,
) -> Seq<char> {
    spec_notes_header(m, version, date) + spec_section(
        "### ✨ Features\n\n"@,
        spec_commits_in(cs, CommitCategory::Features),
    ) + spec_section("### 🐛 Bug Fixes\n\n"@, spec_commits_in(cs, CommitCategory::Fixes))
        + spec_section(
        "### 📚 Documentation\n\n"@,
        spec_commits_in(cs, CommitCategory::Docs),
    ) + spec_section("### 🔧 Maintenance\n\n"@, spec_commits_in(cs, CommitCategory::Chores))
        + spec_section(
        "### 📝 Other Changes\n\n"@,
        spec_commits_in(cs, CommitCategory::Other),
    ) + spec_notes_footer(m, version) + spec_notes_attribution(attr)
}

/// Date-shaped text: nothing but ASCII digits, dashes and plus signs — in
/// particular free of line breaks.
pub open spec fn spec_date_shaped(d: Seq<char>) -> bool {
    forall|i: int| 0 <= i < d.len() ==> (spec_is_digit(#[trigger] d[i]) || d[i] == '-' || d[i] == '+')
}

/// Relies on std's `SystemTime::now` for the instant and on chrono's
/// `DateTime::from_timestamp` and `%Y-%m-%d` formatter for the current UTC
/// calendar date; a clock before the epoch or beyond chrono's range falls
/// back to the epoch date, so the body is total.  The value depends on the
/// clock, so only its shape is promised: the formatter emits nothing but
/// digits, signs and the two literal dashes.
#[verifier::external_body]
fn today_utc() -> (r: String)
    ensures
        spec_date_shaped(r@),
{
    let secs = match std::time::SystemTime::now().duration_since(std::time::UNIX_EPOCH) {
        Ok(dur) => i64::try_from(dur.as_secs()).unwrap_or(i64::MAX),
        Err(_) => 0,
    };
    let day = chrono::DateTime::from_timestamp(secs, 0).unwrap_or(chrono::DateTime::UNIX_EPOCH);
    day.format("%Y-%m-%d").to_string()
}

/// Builds the release-notes draft for the given date text.
pub fn release_notes_with_date(
    metadata: &RepoMetadata,
    commits: &Vec<CommitInfo>,
    version: Option<String>,
    date: &str,
    include_attribution: bool,
) -> (r: String)
    ensures
        r@ == spec_release_notes(
            *metadata,
            commits@,
            spec_or(spec_opt_str(version), "v0.0.0"@),
            date@,
            include_attribution,
        ),
{
    let ver = or_default(version, "v0.0.0");
    let (features, fixes, docs, chores, other) = categorize_commits(commits);
    let mut out = String::from_str("# ");
    out.append(metadata.name.as_str());
    out.append(" ");
    out.append(ver.as_str());
    out.append(r#"

**Release Date**: "#);
    out.append(date);
    out.append(r#"

## What's Changed

"#);
    append_section(&mut out, "### ✨ Features\n\n", &features);
    append_section(&mut out, "### 🐛 Bug Fixes\n\n", &fixes);
    append_section(&mut out, "### 📚 Documentation\n\n", &docs);
    append_section(&mut out, "### 🔧 Maintenance\n\n", &chores);
    append_section(&mut out, "### 📝 Other Changes\n\n", &other);
    out.append(r#"## 📦 Installation

```bash
git clone "#);
    out.append(metadata.html_url.as_str());
    out.append(r#".git
cd "#);
    out.append(metadata.name.as_str());
    out.append(r#"
git checkout "#);
    out.append(ver.as_str());
    out.append(r#"
```

## 🔗 Links

- **Full Changelog**: "#);
    out.append(metadata.html_url.as_str());
    out.append("/commits/");
    out.append(metadata.default_branch.as_str());
    out.append(r#"
- **Repository**: "#);
    out.append(metadata.html_url.as_str());
    out.append(r#"
"#);
    if include_attribution {
        out.append("\n---\n\n<sub>");
        out.append(attribution_text());
        out.append("</sub>\n");
    }
    proof {
        assert(out@ =~= spec_release_notes(
            *metadata,
            commits@,
            spec_or(spec_opt_str(version), "v0.0.0"@),
            date@,
            include_attribution,
        ));
    }
    out
}

/// Generates the release-notes draft dated with the current UTC date; the
/// output is the release-notes rendering of the inputs for some date-shaped
/// text.
pub fn generate_release_notes_draft(
    metadata: &RepoMetadata,
    commits: &Vec<CommitInfo>,
    version: Option<String>,
    include_attribution: bool,
) -> (r: String)
    ensures
        exists|d: Seq<char>|
            #[trigger] spec_date_shaped(d) && r@ == spec_release_notes(
                *metadata,
                commits@,
                spec_or(spec_opt_str(version), "v0.0.0"@),
                d,
                include_attribution,
            ),
{
    let date = today_utc();
    let r = release_notes_with_date(metadata, commits, version, date.as_str(), include_attribution);
    proof {
        assert(r@ == spec_release_notes(
            *metadata,
            commits@,
            spec_or(spec_opt_str(version), "v0.0.0"@),
            date@,
            include_attribution,
        ));
    }
    r
}

// ---------------------------------------------------------------------------
// Press kit overview
// ---------------------------------------------------------------------------

/// One backtick-quoted topic.
pub open spec fn spec_topic_item(t: Seq<char>) -> Seq<char> {
    "`"@ + t + "`"@
}

/// The topics joined with commas, each backtick-quoted.
pub open spec fn spec_topics_joined(ts: Seq<Seq<char>>) -> Seq<char>
    decreases ts.len(),
{
    if ts.len() == 0 {
        Seq::<char>::empty()
    } else if ts.len() == 1 {
        spec_topic_item(ts[0])
    } else {
        spec_topics_joined(ts.drop_last()) + ", "@ + spec_topic_item(ts.last())
    }
}

/// The topics line of the press kit, or its placeholder when there are none.
pub open spec fn spec_press_topics(ts: Seq<Seq<char>>) -> Seq<char> {
    if ts.len() == 0 {
        "No topics specified"@
    } else {
        spec_topics_joined(ts)
    }
}

fn press_topics(topics: &Vec<String>) -> (r: String)
    ensures
        r@ == spec_press_topics(spec_views(topics@)),
{
    let ghost tv = spec_views(topics@);
    if topics.len() == 0 {
        return String::from_str("No topics specified");
    }
    let mut out = String::from_str("`");
    out.append(topics[0].as_str());
    out.append("`");
    proof {
        assert(out@ =~= spec_topics_joined(tv.take(1)));
    }
    let mut i: usize = 1;
    while i < topics.len()
        invariant
            1 <= i <= topics@.len(),
            tv == spec_views(topics@),
            out@ == spec_topics_joined(tv.take(i as int)),
        decreases topics@.len() - i,
    {
        out.append(", ");
        out.append("`");
        out.append(topics[i].as_str());
        out.append("`");
        proof {
            assert(tv[i as int] == topics@[i as int]@);
            assert(tv.take(i as int + 1).len() == i + 1);
            assert(tv.take(i as int + 1).drop_last() =~= tv.take(i as int));
            assert(tv.take(i as int + 1).last() == tv[i as int]);
            assert(spec_topics_joined(tv.take(i as int + 1)) == spec_topics_joined(
                tv.take(i as int),
            ) + ", "@ + spec_topic_item(tv[i as int]));
            assert(out@ =~= spec_topics_joined(tv.take(i as int + 1)));
        }
        i = i + 1;
    }
    proof {
        assert(tv.take(tv.len() as int) =~= tv);
    }
    out
}

/// The press-kit attribution footer, or nothing when disabled.
pub open spec fn spec_press_attribution(attr: bool) -> Seq<char> {
    if attr {
        "\n---\n\n<sub>"@ + spec_attribution_text() + "</sub>"@
    } else {
        Seq::<char>::empty()
    }
}

fn press_attribution(attr: bool) -> (r: String)
    ensures
        r@ == spec_press_attribution(attr),
{
    if attr {
        let mut out = String::from_str("\n---\n\n<sub>");
        out.append(attribution_text());
        out.append("</sub>");
        out
    } else {
        String::new()
    }
}

/// The press-kit overview: quick facts, description, key features, topics,
/// the fixed assets checklist and contact/license footer.
pub open spec fn spec_press_kit(m: RepoMetadata, attr: bool) -> Seq<char> {
    let desc = spec_desc_or(m.description, "A software project"@);
    "# "@
        + m.name@
        + r#" — Press Kit

## Overview

**"#@
        + m.name@
        + "** is "@
        + desc
        + r#"

## Quick Facts

| | |
|---|---|
| **Name** | "#@
        + m.name@
        + r#" |
| **Author** | ["#@
        + m.owner.login@
        + "]("@
        + m.owner.html_url@
        + r#") |
| **Repository** | ["#@
        + m.full_name@
        + "]("@
        + m.html_url@
        + r#") |
| **Language** | "#@
        + spec_lang_or_unspecified(m.language)
        + r#" |
| **License** | "#@
        + spec_license_name_or(m.license, "Not specified"@)
        + r#" |
| **Stars** | "#@
        + spec_format_count(m.stargazers_count as nat)
        + r#" |
| **Forks** | "#@
        + spec_format_count(m.forks_count as nat)
        + r#" |

## Description

"#@
        + desc
        + r#"

## Key Features

- Primary language: **"#@
        + spec_lang_or_unspecified(m.language)
        + r#"**
- Active development with **"#@
        + spec_format_count(m.open_issues_count as nat)
        + r#"** open issues
- Last updated: **"#@
        + spec_take_chars(m.updated_at@, 10)
        + r#"**

## Topics / Tags

"#@
        + spec_press_topics(spec_views(m.topics@))
        + r#"

## Assets

The following assets are included in this press kit:

- `repo-card.svg` — Vector social card (editable)
- `repo-card.png` — Raster social card (1200×630)
- `README-snippet.md` — Ready-to-use README section
- `release-notes-draft.md` — Auto-generated release notes template

## Screenshots

Place screenshots in the `screenshots/` folder.

## Contact

- **Repository**: "#@
        + m.html_url@
        + r#"
- **Owner**: "#@
        + m.owner.html_url@
        + r#"

## License

This project is licensed under **"#@
        + spec_license_name_or(m.license, "Not specified"@)
        + r#"**.
"#@
        + spec_press_attribution(attr)
}

/// Generates the press-kit overview document.
pub fn generate_press_kit(metadata: &RepoMetadata, include_attribution: bool) -> (r: String)
    ensures
        r@ == spec_press_kit(*metadata, include_attribution),
{
    let description = desc_or(&metadata.description, "A software project");
    let language = lang_or_unspecified(&metadata.language);
    let license_name = license_name_or(&metadata.license, "Not specified");
    let stars = format_count(metadata.stargazers_count);
    let forks = format_count(metadata.forks_count);
    let issues = format_count(metadata.open_issues_count);
    let updated = take_chars(metadata.updated_at.as_str(), 10);
    let topics = press_topics(&metadata.topics);
    let attribution = press_attribution(include_attribution);
    let mut out = String::from_str("# ");
    out.append(metadata.name.as_str());
    out.append(r#" — Press Kit

## Overview

**"#);
    out.append(metadata.name.as_str());
    out.append("** is ");
    out.append(description);
    out.append(r#"

## Quick Facts

| | |
|---|---|
| **Name** | "#);
    out.append(metadata.name.as_str());
    out.append(r#" |
| **Author** | ["#);
    out.append(metadata.owner.login.as_str());
    out.append("](");
    out.append(metadata.owner.html_url.as_str());
    out.append(r#") |
| **Repository** | ["#);
    out.append(metadata.full_name.as_str());
    out.append("](");
    out.append(metadata.html_url.as_str());
    out.append(r#") |
| **Language** | "#);
    out.append(language);
    out.append(r#" |
| **License** | "#);
    out.append(license_name);
    out.append(r#" |
| **Stars** | "#);
    out.append(stars.as_str());
    out.append(r#" |
| **Forks** | "#);
    out.append(forks.as_str());
    out.append(r#" |

## Description

"#);
    out.append(description);
    out.append(r#"

## Key Features

- Primary language: **"#);
    out.append(language);
    out.append(r#"**
- Active development with **"#);
    out.append(issues.as_str());
    out.append(r#"** open issues
- Last updated: **"#);
    out.append(updated.as_str());
    out.append(r#"**

## Topics / Tags

"#);
    out.append(topics.as_str());
    out.append(r#"

## Assets

The following assets are included in this press kit:

- `repo-card.svg` — Vector social card (editable)
- `repo-card.png` — Raster social card (1200×630)
- `README-snippet.md` — Ready-to-use README section
- `release-notes-draft.md` — Auto-generated release notes template

## Screenshots

Place screenshots in the `screenshots/` folder.

## Contact

- **Repository**: "#);
    out.append(metadata.html_url.as_str());
    out.append(r#"
- **Owner**: "#);
    out.append(metadata.owner.html_url.as_str());
    out.append(r#"

## License

This project is licensed under **"#);
    out.append(license_name);
    out.append(r#"**.
"#);
    out.append(attribution.as_str());
    proof {
        assert(out@ == spec_press_kit(*metadata, include_attribution));
    }
    out
}

/// With attribution enabled the README snippet embeds the attribution
/// marker verbatim.
pub proof fn lemma_readme_attribution_embedded(m: RepoMetadata)
    ensures
        spec_contains_seq(spec_readme_snippet(m, true), spec_attribution_text()),
{
    let x = spec_readme_snippet(m, true);
    let a = spec_attribution_text();
    let post = "</sub>"@;
    let i = x.len() - post.len() - a.len();
    assert(x.subrange(i, i + a.len()) =~= a);
    assert(spec_contains_seq(x, a));
}

/// With attribution enabled the release-notes draft embeds the attribution
/// marker verbatim.
pub proof fn lemma_notes_attribution_embedded(
    m: RepoMetadata,
    cs: Seq<CommitInfo>,
    version: Seq<char>,
    date: Seq<char>,
)
    ensures
        spec_contains_seq(
            spec_release_notes(m, cs, version, date, true),
            spec_attribution_text(),
        ),
{
    let x = spec_release_notes(m, cs, version, date, true);
    let a = spec_attribution_text();
    let post = "</sub>\n"@;
    let i = x.len() - post.len() - a.len();
    assert(x.subrange(i, i + a.len()) =~= a);
    assert(spec_contains_seq(x, a));
}

/// With attribution enabled the press-kit overview embeds the attribution
/// marker verbatim.
pub proof fn lemma_press_attribution_embedded(m: RepoMetadata)
    ensures
        spec_contains_seq(spec_press_kit(m, true), spec_attribution_text()),
{
    let x = spec_press_kit(m, true);
    let a = spec_attribution_text();
    let post = "</sub>"@;
    let i = x.len() - post.len() - a.len();
    assert(x.subrange(i, i + a.len()) =~= a);
    assert(spec_contains_seq(x, a));
}

proof fn lemma_prefix_index(pat: Seq<char>, s: Seq<char>, i: int)
    requires
        pat.is_prefix_of(s),
        0 <= i < pat.len(),
    ensures
        s[i] == pat[i],
{
    assert(s.subrange(0, pat.len() as int)[i] == s[i]);
}

/// A history of exactly one feature commit, one fix commit and one commit of
/// no named kind yields a Features section with that one entry, a Bug Fixes
/// section with that one entry, an Other Changes section with that one
/// entry, and no Documentation or Maintenance section at all.
#[verifier::rlimit(60)]
pub proof fn lemma_release_notes_triple(
    m: RepoMetadata,
    c1: CommitInfo,
    c2: CommitInfo,
    c3: CommitInfo,
    version: Seq<char>,
    date: Seq<char>,
    attr: bool,
)
    requires
        "feat"@.is_prefix_of(spec_lower(c1.message@)),
        "fix"@.is_prefix_of(spec_lower(c2.message@)),
        "refactor"@.is_prefix_of(spec_lower(c3.message@)),
    ensures
        spec_commits_in(seq![c1, c2, c3], CommitCategory::Docs) == Seq::<CommitInfo>::empty(),
        spec_commits_in(seq![c1, c2, c3], CommitCategory::Chores) == Seq::<CommitInfo>::empty(),
        spec_release_notes(m, seq![c1, c2, c3], version, date, attr) == spec_notes_header(
            m,
            version,
            date,
        ) + ("### \u{2728} Features\n\n"@ + spec_commit_entry(c1) + seq!['\n']) + (
        "### \u{1f41b} Bug Fixes\n\n"@ + spec_commit_entry(c2) + seq!['\n']) + (
        "### \u{1f4dd} Other Changes\n\n"@ + spec_commit_entry(c3) + seq!['\n'])
            + spec_notes_footer(m, version) + spec_notes_attribution(attr),
{
    reveal(Seq::filter);
    reveal_strlit("feat");
    reveal_strlit("feature");
    reveal_strlit("fix");
    reveal_strlit("bug");
    reveal_strlit("doc");
    reveal_strlit("chore");
    reveal_strlit("ci");
    reveal_strlit("build");
    reveal_strlit("refactor");
    let m2 = spec_lower(c2.message@);
    let m3 = spec_lower(c3.message@);
    assert(spec_category(c1.message@) == CommitCategory::Features);
    assert(m2[0] == 'f' && m2[1] == 'i') by {
        lemma_prefix_index("fix"@, m2, 0);
        lemma_prefix_index("fix"@, m2, 1);
    }
    assert(!"feat"@.is_prefix_of(m2)) by {
        if "feat"@.is_prefix_of(m2) {
            lemma_prefix_index("feat"@, m2, 1);
        }
    }
    assert(!"feature"@.is_prefix_of(m2)) by {
        if "feature"@.is_prefix_of(m2) {
            lemma_prefix_index("feature"@, m2, 1);
        }
    }
    assert(spec_category(c2.message@) == CommitCategory::Fixes);
    assert(m3[0] == 'r') by {
        lemma_prefix_index("refactor"@, m3, 0);
    }
    assert(!"feat"@.is_prefix_of(m3)) by {
        if "feat"@.is_prefix_of(m3) {
            lemma_prefix_index("feat"@, m3, 0);
        }
    }
    assert(!"feature"@.is_prefix_of(m3)) by {
        if "feature"@.is_prefix_of(m3) {
            lemma_prefix_index("feature"@, m3, 0);
        }
    }
    assert(!"fix"@.is_prefix_of(m3)) by {
        if "fix"@.is_prefix_of(m3) {
            lemma_prefix_index("fix"@, m3, 0);
        }
    }
    assert(!"bug"@.is_prefix_of(m3)) by {
        if "bug"@.is_prefix_of(m3) {
            lemma_prefix_index("bug"@, m3, 0);
        }
    }
    assert(!"doc"@.is_prefix_of(m3)) by {
        if "doc"@.is_prefix_of(m3) {
            lemma_prefix_index("doc"@, m3, 0);
        }
    }
    assert(!"chore"@.is_prefix_of(m3)) by {
        if "chore"@.is_prefix_of(m3) {
            lemma_prefix_index("chore"@, m3, 0);
        }
    }
    assert(!"ci"@.is_prefix_of(m3)) by {
        if "ci"@.is_prefix_of(m3) {
            lemma_prefix_index("ci"@, m3, 0);
        }
    }
    assert(!"build"@.is_prefix_of(m3)) by {
        if "build"@.is_prefix_of(m3) {
            lemma_prefix_index("build"@, m3, 0);
        }
    }
    assert(spec_category(c3.message@) == CommitCategory::Other);
    let cs1 = seq![c1];
    let cs2 = seq![c1, c2];
    let cs3 = seq![c1, c2, c3];
    assert(cs3.drop_last() =~= cs2);
    assert(cs2.drop_last() =~= cs1);
    assert(cs1.drop_last() =~= Seq::<CommitInfo>::empty());
    assert(cs3.last() == c3 && cs2.last() == c2 && cs1.last() == c1);
    let e = Seq::<CommitInfo>::empty();
    assert(spec_commits_in(e, CommitCategory::Features) =~= e);
    assert(spec_commits_in(e, CommitCategory::Fixes) =~= e);
    assert(spec_commits_in(e, CommitCategory::Docs) =~= e);
    assert(spec_commits_in(e, CommitCategory::Chores) =~= e);
    assert(spec_commits_in(e, CommitCategory::Other) =~= e);
    assert(spec_commits_in(cs1, CommitCategory::Features) =~= seq![c1]);
    assert(spec_commits_in(cs2, CommitCategory::Features) =~= seq![c1]);
    assert(spec_commits_in(cs3, CommitCategory::Features) =~= seq![c1]);
    assert(spec_commits_in(cs1, CommitCategory::Fixes) =~= Seq::<CommitInfo>::empty());
    assert(spec_commits_in(cs2, CommitCategory::Fixes) =~= seq![c2]);
    assert(spec_commits_in(cs3, CommitCategory::Fixes) =~= seq![c2]);
    assert(spec_commits_in(cs1, CommitCategory::Docs) =~= Seq::<CommitInfo>::empty());
    assert(spec_commits_in(cs2, CommitCategory::Docs) =~= Seq::<CommitInfo>::empty());
    assert(spec_commits_in(cs3, CommitCategory::Docs) =~= Seq::<CommitInfo>::empty());
    assert(spec_commits_in(cs1, CommitCategory::Chores) =~= Seq::<CommitInfo>::empty());
    assert(spec_commits_in(cs2, CommitCategory::Chores) =~= Seq::<CommitInfo>::empty());
    assert(spec_commits_in(cs3, CommitCategory::Chores) =~= Seq::<CommitInfo>::empty());
    assert(spec_commits_in(cs1, CommitCategory::Other) =~= Seq::<CommitInfo>::empty());
    assert(spec_commits_in(cs2, CommitCategory::Other) =~= Seq::<CommitInfo>::empty());
    assert(spec_commits_in(cs3, CommitCategory::Other) =~= seq![c3]);
    assert(seq![c1].drop_last() =~= Seq::<CommitInfo>::empty());
    assert(seq![c2].drop_last() =~= Seq::<CommitInfo>::empty());
    assert(seq![c3].drop_last() =~= Seq::<CommitInfo>::empty());
    assert(spec_commit_entries(Seq::<CommitInfo>::empty()) =~= Seq::<char>::empty());
    assert(seq![c1].last() == c1 && seq![c2].last() == c2 && seq![c3].last() == c3);
    assert(spec_commit_entries(seq![c1]) =~= spec_commit_entry(c1));
    assert(spec_commit_entries(seq![c2]) =~= spec_commit_entry(c2));
    assert(spec_commit_entries(seq![c3]) =~= spec_commit_entry(c3));
    assert(spec_release_notes(m, cs3, version, date, attr) =~= spec_notes_header(m, version, date)
        + ("### \u{2728} Features\n\n"@ + spec_commit_entry(c1) + seq!['\n']) + (
    "### \u{1f41b} Bug Fixes\n\n"@ + spec_commit_entry(c2) + seq!['\n']) + (
    "### \u{1f4dd} Other Changes\n\n"@ + spec_commit_entry(c3) + seq!['\n']) + spec_notes_footer(
        m,
        version,
    ) + spec_notes_attribution(attr));
}

} // verus!
