//! Card template engine: three interchangeable layout variants that render
//! repository metadata into a vector document on a fixed 1200 x 630 canvas,
//! and the topic badge packing they share.
use vstd::prelude::*;

verus! {

use crate::RepoMetadata;
use crate::LicenseInfo;
use crate::text::spec_escape;
use crate::text::escape_xml;
use crate::text::spec_truncate;
use crate::text::truncate;
use crate::text::spec_format_count;
use crate::text::format_count;
use crate::text::spec_language_color;
use crate::text::get_language_color;
use crate::text::spec_decimal;
use crate::text::to_decimal;
use crate::text::spec_initial;
use crate::text::initial_char;
use crate::text::spec_take_chars;
use crate::text::take_chars;
use crate::text::spec_byte_len;
use crate::text::utf8_len;
use crate::text::string_push;
use crate::text::eq_lit;
use crate::text::spec_contains_seq;

// ---------------------------------------------------------------------------
// Shared helpers
// ---------------------------------------------------------------------------

/// The fixed attribution marker embedded verbatim in every artifact when the
/// attribution toggle is enabled; downstream consumers may search for it.
pub open spec fn spec_attribution_text() -> Seq<char> {
    "Generated with RepoCard Studio — LAZYFROG (KZ) — kindware.dev"@
}

/// The attribution marker as text.
pub fn attribution_text() -> (r: &'static str)
    ensures
        r@ == spec_attribution_text(),
{
    "Generated with RepoCard Studio — LAZYFROG (KZ) — kindware.dev"
}

/// The views of a list of strings.
pub open spec fn spec_views(ts: Seq<String>) -> Seq<Seq<char>> {
    ts.map_values(|t: String| t@)
}

/// The view of an optional string.
pub open spec fn spec_opt_str(o: Option<String>) -> Option<Seq<char>> {
    match o {
        Some(s) => Some(s@),
        None => None,
    }
}

/// An optional override, or the given default.
pub open spec fn spec_or(o: Option<Seq<char>>, default: Seq<char>) -> Seq<char> {
    match o {
        Some(s) => s,
        None => default,
    }
}

/// The description text, or the given placeholder when absent.
pub open spec fn spec_desc_or(d: Option<String>, default: Seq<char>) -> Seq<char> {
    match d {
        Some(s) => s@,
        None => default,
    }
}

/// The language name, or `Unknown` when absent.
pub open spec fn spec_lang_name(l: Option<String>) -> Seq<char> {
    match l {
        Some(s) => s@,
        None => "Unknown"@,
    }
}

/// The palette colour of the language, or the given colour when absent.
pub open spec fn spec_lang_color_opt(l: Option<String>, none_color: Seq<char>) -> Seq<char> {
    match l {
        Some(s) => spec_language_color(s@),
        None => none_color,
    }
}

/// The license display name, or the given placeholder when absent.
pub open spec fn spec_license_name_or(l: Option<LicenseInfo>, default: Seq<char>) -> Seq<char> {
    match l {
        Some(li) => li.name@,
        None => default,
    }
}

pub(crate) fn or_default(o: Option<String>, default: &str) -> (r: String)
    ensures
        r@ == spec_or(spec_opt_str(o), default@),
{
    match o {
        Some(s) => s,
        None => String::from_str(default),
    }
}

pub(crate) fn desc_or<'a>(d: &'a Option<String>, default: &'a str) -> (r: &'a str)
    ensures
        r@ == spec_desc_or(*d, default@),
{
    match d {
        Some(s) => s.as_str(),
        None => default,
    }
}

fn lang_name(l: &Option<String>) -> (r: &str)
    ensures
        r@ == spec_lang_name(*l),
{
    match l {
        Some(s) => s.as_str(),
        None => "Unknown",
    }
}

fn lang_color_opt<'a>(l: &'a Option<String>, none_color: &'a str) -> (r: &'a str)
    ensures
        r@ == spec_lang_color_opt(*l, none_color@),
{
    match l {
        Some(s) => get_language_color(s.as_str()),
        None => none_color,
    }
}

pub(crate) fn license_name_or<'a>(l: &'a Option<LicenseInfo>, default: &'a str) -> (r: &'a str)
    ensures
        r@ == spec_license_name_or(*l, default@),
{
    match l {
        Some(li) => li.name.as_str(),
        None => default,
    }
}

// ---------------------------------------------------------------------------
// Topic badge packing
// ---------------------------------------------------------------------------

/// The width of one topic badge: eight units per byte of the topic name plus
/// fixed padding.  A linear-width heuristic stands in for text measurement.
pub open spec fn spec_badge_width(t: Seq<char>) -> nat {
    spec_byte_len(t) * 8 + 20
}

/// The horizontal offset of the `i`-th badge: each badge is placed after the
/// previous one with a fixed ten-unit gutter.
pub open spec fn spec_topic_offset(topics: Seq<Seq<char>>, i: int) -> nat
    decreases i,
{
    if i <= 0 {
        0
    } else {
        spec_topic_offset(topics, i - 1) + spec_badge_width(topics[i - 1]) + 10
    }
}

/// One topic badge group at the given offset.
pub open spec fn spec_topic_badge(t: Seq<char>, off: nat) -> Seq<char> {
    r#"<g transform="translate("#@
        + spec_decimal(off)
        + r#", 0)"><rect width=""#@
        + spec_decimal(spec_badge_width(t))
        + r##"" height="28" rx="14" fill="#30363d"/><text x=""##@
        + spec_decimal(spec_badge_width(t) / 2)
        + r##"" y="19" font-size="12" fill="#8b949e" font-family="system-ui, -apple-system, sans-serif">"##@
        + spec_escape(t)
        + "</text></g>"@
}

/// The overflow label appended when more topics exist than the badge cap.
pub open spec fn spec_more_label(off: nat, hidden: nat) -> Seq<char> {
    r#"<g transform="translate("#@
        + spec_decimal(off)
        + r##", 0)"><text y="19" font-size="12" fill="#6e7681" font-family="system-ui, -apple-system, sans-serif">+"##@
        + spec_decimal(hidden)
        + " more</text></g>"@
}

/// The first `k` topic badges, in order.
pub open spec fn spec_topic_badges(topics: Seq<Seq<char>>, k: int) -> Seq<char>
    decreases k,
{
    if k <= 0 {
        Seq::<char>::empty()
    } else {
        spec_topic_badges(topics, k - 1) + spec_topic_badge(
            topics[k - 1],
            spec_topic_offset(topics, k - 1),
        )
    }
}

/// The badge row for a topic list: up to `cap` badges, and an overflow label
/// when topics were left out.
pub open spec fn spec_topics_svg(topics: Seq<Seq<char>>, cap: nat) -> Seq<char> {
    let k = if topics.len() <= cap {
        topics.len() as int
    } else {
        cap as int
    };
    if topics.len() > cap {
        spec_topic_badges(topics, k) + spec_more_label(
            spec_topic_offset(topics, k),
            (topics.len() - cap) as nat,
        )
    } else {
        spec_topic_badges(topics, k)
    }
}

/// Badge offsets strictly increase and badges never overlap: each badge ends
/// strictly before any later badge begins.
pub proof fn lemma_topic_offsets_increase(topics: Seq<Seq<char>>, i: int, j: int)
    requires
        0 <= i < j,
    ensures
        spec_topic_offset(topics, i) + spec_badge_width(topics[i]) < spec_topic_offset(topics, j),
    decreases j - i,
{
    if j > i + 1 {
        lemma_topic_offsets_increase(topics, i, j - 1);
    }
}

/// Lays out up to five topic badges left to right, and an overflow label
/// when more topics exist.
#[verifier::rlimit(50)]
pub fn generate_topics_svg(topics: &Vec<String>, max_topics: usize) -> (r: String)
    requires
        max_topics <= 5,
    ensures
        r@ == spec_topics_svg(spec_views(topics@), max_topics as nat),
{
    let ghost tv = spec_views(topics@);
    let k = if topics.len() <= max_topics {
        topics.len()
    } else {
        max_topics
    };
    let mut out = String::new();
    let mut x_offset: u128 = 0;
    let mut i: usize = 0;
    proof {
        assert(out@ =~= spec_topic_badges(tv, 0));
    }
    while i < k
        invariant
            i <= k,
            k <= 5,
            k <= topics@.len(),
            k == if topics@.len() <= max_topics as nat {
                topics@.len() as int
            } else {
                max_topics as int
            },
            tv == spec_views(topics@),
            out@ == spec_topic_badges(tv, i as int),
            x_offset as nat == spec_topic_offset(tv, i as int),
            x_offset as int <= (i as int) * (32 * (usize::MAX as int) + 30),
        decreases k - i,
    {
        let t = &topics[i];
        let bl = utf8_len(t.as_str());
        let width: u128 = bl * 8 + 20;
        proof {
            assert(tv[i as int] == topics@[i as int]@);
            assert(width as nat == spec_badge_width(tv[i as int]));
        }
        out.append(r#"<g transform="translate("#);
        let xs = to_decimal(x_offset);
        out.append(xs.as_str());
        out.append(r#", 0)"><rect width=""#);
        let ws = to_decimal(width);
        out.append(ws.as_str());
        out.append(r##"" height="28" rx="14" fill="#30363d"/><text x=""##);
        let hs = to_decimal(width / 2);
        out.append(hs.as_str());
        out.append(
            r##"" y="19" font-size="12" fill="#8b949e" font-family="system-ui, -apple-system, sans-serif">"##,
        );
        let te = escape_xml(t.as_str());
        out.append(te.as_str());
        out.append("</text></g>");
        proof {
            assert(out@ =~= spec_topic_badges(tv, i as int + 1));
            let k128: int = 32 * (usize::MAX as int) + 30;
            assert(width as int + 10 <= k128);
            vstd::arithmetic::mul::lemma_mul_is_distributive_add_other_way(k128, i as int, 1);
            vstd::arithmetic::mul::lemma_mul_basics(k128);
            assert((i as int + 1) * k128 == (i as int) * k128 + k128);
            assert(x_offset as int + width as int + 10 <= (i as int + 1) * k128);
            vstd::arithmetic::mul::lemma_mul_inequality(i as int + 1, 5, k128);
            assert((i as int + 1) * k128 <= 5 * k128);
        }
        x_offset = x_offset + width + 10;
        i = i + 1;
    }
    if topics.len() > max_topics {
        out.append(r#"<g transform="translate("#);
        let xs = to_decimal(x_offset);
        out.append(xs.as_str());
        out.append(
            r##", 0)"><text y="19" font-size="12" fill="#6e7681" font-family="system-ui, -apple-system, sans-serif">+"##,
        );
        let cs = to_decimal((topics.len() - max_topics) as u128);
        out.append(cs.as_str());
        out.append(" more</text></g>");
        proof {
            assert(out@ =~= spec_topics_svg(tv, max_topics as nat));
        }
    } else {
        proof {
            assert(out@ =~= spec_topics_svg(tv, max_topics as nat));
        }
    }
    out
}

// ---------------------------------------------------------------------------
// Attribution lines
// ---------------------------------------------------------------------------

/// The modern variant's attribution line, or nothing when disabled.
pub open spec fn spec_modern_attribution(attr: bool) -> Seq<char> {
    if attr {
    r##"<text x="600" y="305" text-anchor="middle" font-size="10" fill="#6e7681" font-family="system-ui, -apple-system, sans-serif">"##@
        + spec_attribution_text()
        + "</text>"@
    } else {
        Seq::<char>::empty()
    }
}

fn modern_attribution(attr: bool) -> (r: String)
    ensures
        r@ == spec_modern_attribution(attr),
{
    if attr {
    let mut out = String::from_str(r##"<text x="600" y="305" text-anchor="middle" font-size="10" fill="#6e7681" font-family="system-ui, -apple-system, sans-serif">"##);
    out.append(attribution_text());
    out.append("</text>");
        out
    } else {
        String::new()
    }
}

/// The minimal variant's attribution line, or nothing when disabled.
pub open spec fn spec_minimal_attribution(attr: bool) -> Seq<char> {
    if attr {
    r##"<text x="600" y="600" text-anchor="middle" font-size="11" fill="#9ca3af" font-family="system-ui, -apple-system, sans-serif">"##@
        + spec_attribution_text()
        + "</text>"@
    } else {
        Seq::<char>::empty()
    }
}

fn minimal_attribution(attr: bool) -> (r: String)
    ensures
        r@ == spec_minimal_attribution(attr),
{
    if attr {
    let mut out = String::from_str(r##"<text x="600" y="600" text-anchor="middle" font-size="11" fill="#9ca3af" font-family="system-ui, -apple-system, sans-serif">"##);
    out.append(attribution_text());
    out.append("</text>");
        out
    } else {
        String::new()
    }
}

/// The gradient variant's attribution line, or nothing when disabled.
pub open spec fn spec_gradient_attribution(attr: bool) -> Seq<char> {
    if attr {
    r#"<text x="600" y="600" text-anchor="middle" font-size="11" fill="rgba(255,255,255,0.7)" font-family="system-ui, -apple-system, sans-serif">"#@
        + spec_attribution_text()
        + "</text>"@
    } else {
        Seq::<char>::empty()
    }
}

fn gradient_attribution(attr: bool) -> (r: String)
    ensures
        r@ == spec_gradient_attribution(attr),
{
    if attr {
    let mut out = String::from_str(r#"<text x="600" y="600" text-anchor="middle" font-size="11" fill="rgba(255,255,255,0.7)" font-family="system-ui, -apple-system, sans-serif">"#);
    out.append(attribution_text());
    out.append("</text>");
        out
    } else {
        String::new()
    }
}

// ---------------------------------------------------------------------------
// The three template variants
// ---------------------------------------------------------------------------

/// The modern card up to the repository-name slot: background, avatar
/// placeholder with the escaped owner initial, and the escaped owner login.
pub open spec fn spec_modern_head(
    m: RepoMetadata,
    pc: Option<Seq<char>>,
    sc: Option<Seq<char>>,
) -> Seq<char> {
    let primary = spec_or(pc, "#0d1117"@);
    let secondary = spec_or(sc, "#161b22"@);
    r#"<!-- KZ: LAZYFROG :: frogprints -->
<svg width="1200" height="630" viewBox="0 0 1200 630" xmlns="http://www.w3.org/2000/svg">
  <defs>
    <clipPath id="avatar-clip">
      <circle cx="80" cy="80" r="40"/>
    </clipPath>
    <filter id="shadow" x="-20%" y="-20%" width="140%" height="140%">
      <feDropShadow dx="0" dy="4" stdDeviation="8" flood-opacity="0.25"/>
    </filter>
  </defs>
  
  <!-- Background -->
  <rect width="1200" height="630" fill=""#@
        + primary
        + r#""/>
  <rect x="40" y="40" width="1120" height="550" rx="16" fill=""#@
        + secondary
        + r##"" filter="url(#shadow)"/>
  
  <!-- Frogprints Easter Egg -->
  <g opacity="0.03">
    <circle cx="1140" cy="600" r="4"/>
    <circle cx="1152" cy="608" r="3"/>
    <circle cx="1160" cy="598" r="3"/>
  </g>
  
  <!-- Header -->
  <g transform="translate(80, 80)">
    <!-- Owner Avatar Placeholder -->
    <circle cx="40" cy="40" r="40" fill="#30363d"/>
    <text x="40" y="48" text-anchor="middle" font-size="24" fill="#8b949e" font-family="system-ui, -apple-system, sans-serif">"##@
        + spec_escape(seq![spec_initial(m.owner.login@)])
        + r##"</text>
    
    <!-- Repo Name -->
    <text x="100" y="30" font-size="32" font-weight="bold" fill="#f0f6fc" font-family="system-ui, -apple-system, sans-serif">"##@
        + spec_escape(m.owner.login@)
        + r##"</text>
    <text x="100" y="65" font-size="28" fill="#8b949e" font-family="system-ui, -apple-system, sans-serif">/ "##@
}

/// The modern card between the repository-name slot and the star-count slot:
/// the escaped, truncated description.
pub open spec fn spec_modern_desc(m: RepoMetadata) -> Seq<char> {
    let desc = spec_desc_or(m.description, "No description provided"@);
    r##"</text>
  </g>
  
  <!-- Description -->
  <text x="80" y="200" font-size="20" fill="#c9d1d9" font-family="system-ui, -apple-system, sans-serif">
    <tspan x="80" dy="0">"##@
        + spec_escape(spec_truncate(desc, 100))
        + r##"</tspan>
  </text>
  
  <!-- Stats -->
  <g transform="translate(80, 280)">
    <!-- Stars -->
    <g transform="translate(0, 0)">
      <path d="M8 0C3.58 0 0 3.58 0 8s3.58 8 8 8 8-3.58 8-8-3.58-8-8-8zm0 14.5c-3.59 0-6.5-2.91-6.5-6.5S4.41 1.5 8 1.5s6.5 2.91 6.5 6.5-2.91 6.5-6.5 6.5z" fill="#f0f6fc" transform="scale(1.2)"/>
      <path d="M8 3.5l1.5 3 3.5.5-2.5 2.5.5 3.5L8 11l-3 2 .5-3.5L3 7l3.5-.5z" fill="#f0f6fc" transform="scale(1.2)"/>
      <text x="28" y="14" font-size="16" fill="#f0f6fc" font-family="system-ui, -apple-system, sans-serif">"##@
}

/// The modern card after the star-count slot: forks, language, topics,
/// footer and optional attribution.
pub open spec fn spec_modern_tail(m: RepoMetadata, attr: bool) -> Seq<char> {
    let lang_color = spec_lang_color_opt(m.language, "#6e7681"@);
    r##"</text>
    </g>
    
    <!-- Forks -->
    <g transform="translate(120, 0)">
      <path d="M5 5.372v.878c0 .414.336.75.75.75h4.5a.75.75 0 0 0 .75-.75v-.878a2.25 2.25 0 1 0-1.5 0v.878H6.25v-.878a2.25 2.25 0 1 0-1.5 0ZM8 1.25a1.25 1.25 0 1 1 0 2.5 1.25 1.25 0 0 1 0-2.5ZM5 4a1.25 1.25 0 1 1 0-2.5A1.25 1.25 0 0 1 5 4Zm6 0a1.25 1.25 0 1 1 0-2.5A1.25 1.25 0 0 1 11 4Z" fill="#f0f6fc" transform="scale(1.2)"/>
      <text x="28" y="14" font-size="16" fill="#f0f6fc" font-family="system-ui, -apple-system, sans-serif">"##@
        + spec_format_count(m.forks_count as nat)
        + r#"</text>
    </g>
    
    <!-- Language -->
    <g transform="translate(240, 0)">
      <circle cx="8" cy="8" r="6" fill=""#@
        + lang_color
        + r##""/>
      <text x="24" y="14" font-size="16" fill="#f0f6fc" font-family="system-ui, -apple-system, sans-serif">"##@
        + spec_escape(spec_lang_name(m.language))
        + r#"</text>
    </g>
  </g>
  
  <!-- Topics -->
  <g transform="translate(80, 360)">
    "#@
        + spec_topics_svg(spec_views(m.topics@), 5)
        + r##"
  </g>
  
  <!-- Footer -->
  <g transform="translate(80, 520)">
    <text font-size="14" fill="#6e7681" font-family="system-ui, -apple-system, sans-serif">"##@
        + spec_escape(m.html_url@)
        + r#"</text>
  </g>
  
  <!-- Attribution -->
  <g transform="translate(0, 570)">
    "#@
        + spec_modern_attribution(attr)
        + r#"
  </g>
</svg>"#@
}

/// The modern variant: dark card with avatar placeholder, stats and topics.
/// The escaped repository name and the formatted star count stand at the two
/// named joints.
pub open spec fn spec_modern_template(
    m: RepoMetadata,
    attr: bool,
    pc: Option<Seq<char>>,
    sc: Option<Seq<char>>,
) -> Seq<char> {
    spec_modern_head(m, pc, sc) + spec_escape(m.name@) + spec_modern_desc(m) + spec_format_count(
        m.stargazers_count as nat,
    ) + spec_modern_tail(m, attr)
}

fn modern_desc(metadata: &RepoMetadata) -> (r: String)
    ensures
        r@ == spec_modern_desc(*metadata),
{
    let desc_str = desc_or(&metadata.description, "No description provided");
    let trunc = truncate(desc_str, 100);
    let desc_esc = escape_xml(trunc.as_str());
let mut out = String::from_str(r##"</text>
  </g>
  
  <!-- Description -->
  <text x="80" y="200" font-size="20" fill="#c9d1d9" font-family="system-ui, -apple-system, sans-serif">
    <tspan x="80" dy="0">"##);
        out.append(desc_esc.as_str());
        out.append(r##"</tspan>
  </text>
  
  <!-- Stats -->
  <g transform="translate(80, 280)">
    <!-- Stars -->
    <g transform="translate(0, 0)">
      <path d="M8 0C3.58 0 0 3.58 0 8s3.58 8 8 8 8-3.58 8-8-3.58-8-8-8zm0 14.5c-3.59 0-6.5-2.91-6.5-6.5S4.41 1.5 8 1.5s6.5 2.91 6.5 6.5-2.91 6.5-6.5 6.5z" fill="#f0f6fc" transform="scale(1.2)"/>
      <path d="M8 3.5l1.5 3 3.5.5-2.5 2.5.5 3.5L8 11l-3 2 .5-3.5L3 7l3.5-.5z" fill="#f0f6fc" transform="scale(1.2)"/>
      <text x="28" y="14" font-size="16" fill="#f0f6fc" font-family="system-ui, -apple-system, sans-serif">"##);
    out
}

fn modern_tail(metadata: &RepoMetadata, include_attribution: bool) -> (r: String)
    ensures
        r@ == spec_modern_tail(*metadata, include_attribution),
{
    let lang_color = lang_color_opt(&metadata.language, "#6e7681");
    let forks = format_count(metadata.forks_count);
    let lang_esc = escape_xml(lang_name(&metadata.language));
    let topics_svg = generate_topics_svg(&metadata.topics, 5);
    let url_esc = escape_xml(metadata.html_url.as_str());
    let attribution = modern_attribution(include_attribution);
let mut out = String::from_str(r##"</text>
    </g>
    
    <!-- Forks -->
    <g transform="translate(120, 0)">
      <path d="M5 5.372v.878c0 .414.336.75.75.75h4.5a.75.75 0 0 0 .75-.75v-.878a2.25 2.25 0 1 0-1.5 0v.878H6.25v-.878a2.25 2.25 0 1 0-1.5 0ZM8 1.25a1.25 1.25 0 1 1 0 2.5 1.25 1.25 0 0 1 0-2.5ZM5 4a1.25 1.25 0 1 1 0-2.5A1.25 1.25 0 0 1 5 4Zm6 0a1.25 1.25 0 1 1 0-2.5A1.25 1.25 0 0 1 11 4Z" fill="#f0f6fc" transform="scale(1.2)"/>
      <text x="28" y="14" font-size="16" fill="#f0f6fc" font-family="system-ui, -apple-system, sans-serif">"##);
        out.append(forks.as_str());
        out.append(r#"</text>
    </g>
    
    <!-- Language -->
    <g transform="translate(240, 0)">
      <circle cx="8" cy="8" r="6" fill=""#);
        out.append(lang_color);
        out.append(r##""/>
      <text x="24" y="14" font-size="16" fill="#f0f6fc" font-family="system-ui, -apple-system, sans-serif">"##);
        out.append(lang_esc.as_str());
        out.append(r#"</text>
    </g>
  </g>
  
  <!-- Topics -->
  <g transform="translate(80, 360)">
    "#);
        out.append(topics_svg.as_str());
        out.append(r##"
  </g>
  
  <!-- Footer -->
  <g transform="translate(80, 520)">
    <text font-size="14" fill="#6e7681" font-family="system-ui, -apple-system, sans-serif">"##);
        out.append(url_esc.as_str());
        out.append(r#"</text>
  </g>
  
  <!-- Attribution -->
  <g transform="translate(0, 570)">
    "#);
        out.append(attribution.as_str());
        out.append(r#"
  </g>
</svg>"#);
    out
}

/// Renders the modern variant of the card.
pub fn generate_modern_template(
    metadata: &RepoMetadata,
    include_attribution: bool,
    primary_color: Option<String>,
    secondary_color: Option<String>,
) -> (r: String)
    ensures
        r@ == spec_modern_template(
            *metadata,
            include_attribution,
            spec_opt_str(primary_color),
            spec_opt_str(secondary_color),
        ),
{
    let primary = or_default(primary_color, "#0d1117");
    let secondary = or_default(secondary_color, "#161b22");
    let mut initial_s = String::new();
    string_push(&mut initial_s, initial_char(metadata.owner.login.as_str()));
    proof {
        assert(initial_s@ =~= seq![spec_initial(metadata.owner.login@)]);
    }
    let init_esc = escape_xml(initial_s.as_str());
    let owner_esc = escape_xml(metadata.owner.login.as_str());
    let repo_esc = escape_xml(metadata.name.as_str());
    let stars = format_count(metadata.stargazers_count);
    let desc_part = modern_desc(metadata);
    let tail_part = modern_tail(metadata, include_attribution);
let mut out = String::from_str(r#"<!-- KZ: LAZYFROG :: frogprints -->
<svg width="1200" height="630" viewBox="0 0 1200 630" xmlns="http://www.w3.org/2000/svg">
  <defs>
    <clipPath id="avatar-clip">
      <circle cx="80" cy="80" r="40"/>
    </clipPath>
    <filter id="shadow" x="-20%" y="-20%" width="140%" height="140%">
      <feDropShadow dx="0" dy="4" stdDeviation="8" flood-opacity="0.25"/>
    </filter>
  </defs>
  
  <!-- Background -->
  <rect width="1200" height="630" fill=""#);
        out.append(primary.as_str());
        out.append(r#""/>
  <rect x="40" y="40" width="1120" height="550" rx="16" fill=""#);
        out.append(secondary.as_str());
        out.append(r##"" filter="url(#shadow)"/>
  
  <!-- Frogprints Easter Egg -->
  <g opacity="0.03">
    <circle cx="1140" cy="600" r="4"/>
    <circle cx="1152" cy="608" r="3"/>
    <circle cx="1160" cy="598" r="3"/>
  </g>
  
  <!-- Header -->
  <g transform="translate(80, 80)">
    <!-- Owner Avatar Placeholder -->
    <circle cx="40" cy="40" r="40" fill="#30363d"/>
    <text x="40" y="48" text-anchor="middle" font-size="24" fill="#8b949e" font-family="system-ui, -apple-system, sans-serif">"##);
        out.append(init_esc.as_str());
        out.append(r##"</text>
    
    <!-- Repo Name -->
    <text x="100" y="30" font-size="32" font-weight="bold" fill="#f0f6fc" font-family="system-ui, -apple-system, sans-serif">"##);
        out.append(owner_esc.as_str());
        out.append(r##"</text>
    <text x="100" y="65" font-size="28" fill="#8b949e" font-family="system-ui, -apple-system, sans-serif">/ "##);
    out.append(repo_esc.as_str());
    out.append(desc_part.as_str());
    out.append(stars.as_str());
    out.append(tail_part.as_str());
    proof {
        assert(out@ == spec_modern_template(
            *metadata,
            include_attribution,
            spec_opt_str(primary_color),
            spec_opt_str(secondary_color),
        ));
    }
    out
}

/// The modern card shows the escaped repository name and the abbreviated
/// star count: both occur verbatim in the card text.
pub proof fn lemma_modern_card_content(
    m: RepoMetadata,
    attr: bool,
    pc: Option<Seq<char>>,
    sc: Option<Seq<char>>,
)
    ensures
        spec_contains_seq(spec_modern_template(m, attr, pc, sc), spec_escape(m.name@)),
        spec_contains_seq(
            spec_modern_template(m, attr, pc, sc),
            spec_format_count(m.stargazers_count as nat),
        ),
{
    let x = spec_modern_template(m, attr, pc, sc);
    let h = spec_modern_head(m, pc, sc);
    let nm = spec_escape(m.name@);
    let d = spec_modern_desc(m);
    let st = spec_format_count(m.stargazers_count as nat);
    assert(x.subrange(h.len() as int, (h.len() + nm.len()) as int) =~= nm);
    assert(x.subrange(
        (h.len() + nm.len() + d.len()) as int,
        (h.len() + nm.len() + d.len() + st.len()) as int,
    ) =~= st);
}

/// The minimal variant: light, text-focused card.
pub open spec fn spec_minimal_template(
    m: RepoMetadata,
    attr: bool,
    pc: Option<Seq<char>>,
) -> Seq<char> {
    let primary = spec_or(pc, "#ffffff"@);
    let lang_color = spec_lang_color_opt(m.language, "#6e7681"@);
    let desc = spec_desc_or(m.description, "No description provided"@);
    r#"<!-- KZ: LAZYFROG :: frogprints -->
<svg width="1200" height="630" viewBox="0 0 1200 630" xmlns="http://www.w3.org/2000/svg">
  <!-- Background -->
  <rect width="1200" height="630" fill=""#@
        + primary
        + r##""/>
  
  <!-- Frogprints Easter Egg -->
  <g opacity="0.025" fill="#000000">
    <circle cx="1140" cy="600" r="4"/>
    <circle cx="1152" cy="608" r="3"/>
    <circle cx="1160" cy="598" r="3"/>
  </g>
  
  <!-- Content -->
  <g transform="translate(100, 180)">
    <!-- Repo Name -->
    <text font-size="48" font-weight="bold" fill="#111827" font-family="system-ui, -apple-system, sans-serif">
      <tspan fill="#6b7280">"##@
        + spec_escape(m.owner.login@)
        + r##"</tspan><tspan fill="#111827"> / "##@
        + spec_escape(m.name@)
        + r##"</tspan>
    </text>
    
    <!-- Description -->
    <text y="80" font-size="24" fill="#4b5563" font-family="system-ui, -apple-system, sans-serif">"##@
        + spec_escape(spec_truncate(desc, 80))
        + r##"</text>
    
    <!-- Stats Row -->
    <g transform="translate(0, 160)">
      <text font-size="20" fill="#6b7280" font-family="system-ui, -apple-system, sans-serif">
        <tspan font-weight="bold" fill="#111827">"##@
        + spec_format_count(m.stargazers_count as nat)
        + r##"</tspan> stars
        <tspan dx="40" font-weight="bold" fill="#111827">"##@
        + spec_format_count(m.forks_count as nat)
        + r##"</tspan> forks
        <tspan dx="40" font-weight="bold" fill="#111827">"##@
        + spec_format_count(m.open_issues_count as nat)
        + r##"</tspan> issues
      </text>
    </g>
    
    <!-- Language Badge -->
    <g transform="translate(0, 220)">
      <rect width="120" height="32" rx="16" fill="#f3f4f6"/>
      <circle cx="20" cy="16" r="6" fill=""##@
        + lang_color
        + r##""/>
      <text x="36" y="21" font-size="14" fill="#374151" font-family="system-ui, -apple-system, sans-serif">"##@
        + spec_escape(spec_lang_name(m.language))
        + r#"</text>
    </g>
  </g>
  
  <!-- Attribution -->
  "#@
        + spec_minimal_attribution(attr)
        + r#"
</svg>"#@
}

/// Renders the minimal variant of the card.
pub fn generate_minimal_template(
    metadata: &RepoMetadata,
    include_attribution: bool,
    primary_color: Option<String>,
    _secondary_color: Option<String>,
) -> (r: String)
    ensures
        r@ == spec_minimal_template(*metadata, include_attribution, spec_opt_str(primary_color)),
{
    let primary = or_default(primary_color, "#ffffff");
    let lang_color = lang_color_opt(&metadata.language, "#6e7681");
    let desc_str = desc_or(&metadata.description, "No description provided");
    let owner_esc = escape_xml(metadata.owner.login.as_str());
    let repo_esc = escape_xml(metadata.name.as_str());
    let trunc = truncate(desc_str, 80);
    let desc_esc = escape_xml(trunc.as_str());
    let stars = format_count(metadata.stargazers_count);
    let forks = format_count(metadata.forks_count);
    let issues = format_count(metadata.open_issues_count);
    let lang_esc = escape_xml(lang_name(&metadata.language));
    let attribution = minimal_attribution(include_attribution);
    let mut out = String::from_str(r#"<!-- KZ: LAZYFROG :: frogprints -->
<svg width="1200" height="630" viewBox="0 0 1200 630" xmlns="http://www.w3.org/2000/svg">
  <!-- Background -->
  <rect width="1200" height="630" fill=""#);
    out.append(primary.as_str());
    out.append(r##""/>
  
  <!-- Frogprints Easter Egg -->
  <g opacity="0.025" fill="#000000">
    <circle cx="1140" cy="600" r="4"/>
    <circle cx="1152" cy="608" r="3"/>
    <circle cx="1160" cy="598" r="3"/>
  </g>
  
  <!-- Content -->
  <g transform="translate(100, 180)">
    <!-- Repo Name -->
    <text font-size="48" font-weight="bold" fill="#111827" font-family="system-ui, -apple-system, sans-serif">
      <tspan fill="#6b7280">"##);
    out.append(owner_esc.as_str());
    out.append(r##"</tspan><tspan fill="#111827"> / "##);
    out.append(repo_esc.as_str());
    out.append(r##"</tspan>
    </text>
    
    <!-- Description -->
    <text y="80" font-size="24" fill="#4b5563" font-family="system-ui, -apple-system, sans-serif">"##);
    out.append(desc_esc.as_str());
    out.append(r##"</text>
    
    <!-- Stats Row -->
    <g transform="translate(0, 160)">
      <text font-size="20" fill="#6b7280" font-family="system-ui, -apple-system, sans-serif">
        <tspan font-weight="bold" fill="#111827">"##);
    out.append(stars.as_str());
    out.append(r##"</tspan> stars
        <tspan dx="40" font-weight="bold" fill="#111827">"##);
    out.append(forks.as_str());
    out.append(r##"</tspan> forks
        <tspan dx="40" font-weight="bold" fill="#111827">"##);
    out.append(issues.as_str());
    out.append(r##"</tspan> issues
      </text>
    </g>
    
    <!-- Language Badge -->
    <g transform="translate(0, 220)">
      <rect width="120" height="32" rx="16" fill="#f3f4f6"/>
      <circle cx="20" cy="16" r="6" fill=""##);
    out.append(lang_color);
    out.append(r##""/>
      <text x="36" y="21" font-size="14" fill="#374151" font-family="system-ui, -apple-system, sans-serif">"##);
    out.append(lang_esc.as_str());
    out.append(r#"</text>
    </g>
  </g>
  
  <!-- Attribution -->
  "#);
    out.append(attribution.as_str());
    out.append(r#"
</svg>"#);
    proof {
        assert(out@ == spec_minimal_template(
            *metadata,
            include_attribution,
            spec_opt_str(primary_color),
        ));
    }
    out
}

/// Without a primary override the minimal card uses the white default
/// background: it renders byte-identically to the card with an explicit
/// `#ffffff` override.
pub proof fn lemma_minimal_default_background(m: RepoMetadata, attr: bool)
    ensures
        spec_minimal_template(m, attr, None) == spec_minimal_template(m, attr, Some("#ffffff"@)),
{
}

/// The gradient variant: vibrant card on a two-colour gradient.
pub open spec fn spec_gradient_template(
    m: RepoMetadata,
    attr: bool,
    pc: Option<Seq<char>>,
    sc: Option<Seq<char>>,
) -> Seq<char> {
    let primary = spec_or(pc, "#667eea"@);
    let secondary = spec_or(sc, "#764ba2"@);
    let lang_color = spec_lang_color_opt(m.language, "#ffffff"@);
    let desc = spec_desc_or(m.description, "No description provided"@);
    r#"<!-- KZ: LAZYFROG :: frogprints -->
<svg width="1200" height="630" viewBox="0 0 1200 630" xmlns="http://www.w3.org/2000/svg">
  <defs>
    <linearGradient id="bg-gradient" x1="0%" y1="0%" x2="100%" y2="100%">
      <stop offset="0%" style="stop-color:"#@
        + primary
        + r#";stop-opacity:1" />
      <stop offset="100%" style="stop-color:"#@
        + secondary
        + r##";stop-opacity:1" />
    </linearGradient>
    <filter id="glow" x="-20%" y="-20%" width="140%" height="140%">
      <feGaussianBlur stdDeviation="2" result="coloredBlur"/>
      <feMerge>
        <feMergeNode in="coloredBlur"/>
        <feMergeNode in="SourceGraphic"/>
      </feMerge>
    </filter>
  </defs>
  
  <!-- Gradient Background -->
  <rect width="1200" height="630" fill="url(#bg-gradient)"/>
  
  <!-- Frogprints Easter Egg -->
  <g opacity="0.04" fill="#ffffff">
    <circle cx="1140" cy="600" r="4"/>
    <circle cx="1152" cy="608" r="3"/>
    <circle cx="1160" cy="598" r="3"/>
  </g>
  
  <!-- Decorative Elements -->
  <circle cx="100" cy="100" r="200" fill="rgba(255,255,255,0.05)"/>
  <circle cx="1100" cy="530" r="250" fill="rgba(255,255,255,0.05)"/>
  
  <!-- Content Card -->
  <rect x="80" y="120" width="1040" height="400" rx="24" fill="rgba(255,255,255,0.1)" stroke="rgba(255,255,255,0.2)" stroke-width="1"/>
  
  <!-- Content -->
  <g transform="translate(140, 180)">
    <!-- Repo Name -->
    <text font-size="56" font-weight="bold" fill="#ffffff" font-family="system-ui, -apple-system, sans-serif" filter="url(#glow)">"##@
        + spec_escape(m.full_name@)
        + r#"</text>
    
    <!-- Description -->
    <text y="80" font-size="22" fill="rgba(255,255,255,0.9)" font-family="system-ui, -apple-system, sans-serif">"#@
        + spec_escape(spec_truncate(desc, 70))
        + r##"</text>
    
    <!-- Stats -->
    <g transform="translate(0, 160)">
      <!-- Stars -->
      <g>
        <rect width="100" height="40" rx="20" fill="rgba(255,255,255,0.2)"/>
        <text x="50" y="27" text-anchor="middle" font-size="16" font-weight="bold" fill="#ffffff" font-family="system-ui, -apple-system, sans-serif">★ "##@
        + spec_format_count(m.stargazers_count as nat)
        + r##"</text>
      </g>
      
      <!-- Forks -->
      <g transform="translate(120, 0)">
        <rect width="100" height="40" rx="20" fill="rgba(255,255,255,0.2)"/>
        <text x="50" y="27" text-anchor="middle" font-size="16" font-weight="bold" fill="#ffffff" font-family="system-ui, -apple-system, sans-serif">⑂ "##@
        + spec_format_count(m.forks_count as nat)
        + r#"</text>
      </g>
      
      <!-- Language -->
      <g transform="translate(240, 0)">
        <rect width="140" height="40" rx="20" fill="rgba(255,255,255,0.2)"/>
        <circle cx="24" cy="20" r="8" fill=""#@
        + lang_color
        + r##""/>
        <text x="44" y="27" font-size="16" font-weight="bold" fill="#ffffff" font-family="system-ui, -apple-system, sans-serif">"##@
        + spec_escape(spec_lang_name(m.language))
        + r#"</text>
      </g>
    </g>
    
    <!-- License -->
    <g transform="translate(0, 230)">
      <text font-size="14" fill="rgba(255,255,255,0.7)" font-family="system-ui, -apple-system, sans-serif">
        "#@
        + spec_escape(spec_license_name_or(m.license, "No License"@))
        + " • Updated "@
        + spec_escape(spec_take_chars(m.updated_at@, 10))
        + r#"
      </text>
    </g>
  </g>
  
  <!-- Attribution -->
  "#@
        + spec_gradient_attribution(attr)
        + r#"
</svg>"#@
}

/// Renders the gradient variant of the card.
pub fn generate_gradient_template(
    metadata: &RepoMetadata,
    include_attribution: bool,
    primary_color: Option<String>,
    secondary_color: Option<String>,
) -> (r: String)
    ensures
        r@ == spec_gradient_template(
            *metadata,
            include_attribution,
            spec_opt_str(primary_color),
            spec_opt_str(secondary_color),
        ),
{
    let primary = or_default(primary_color, "#667eea");
    let secondary = or_default(secondary_color, "#764ba2");
    let lang_color = lang_color_opt(&metadata.language, "#ffffff");
    let desc_str = desc_or(&metadata.description, "No description provided");
    let full_name_esc = escape_xml(metadata.full_name.as_str());
    let trunc = truncate(desc_str, 70);
    let desc_esc = escape_xml(trunc.as_str());
    let stars = format_count(metadata.stargazers_count);
    let forks = format_count(metadata.forks_count);
    let lang_esc = escape_xml(lang_name(&metadata.language));
    let license_esc = escape_xml(license_name_or(&metadata.license, "No License"));
    let updated = take_chars(metadata.updated_at.as_str(), 10);
    let updated_esc = escape_xml(updated.as_str());
    let attribution = gradient_attribution(include_attribution);
    let mut out = String::from_str(r#"<!-- KZ: LAZYFROG :: frogprints -->
<svg width="1200" height="630" viewBox="0 0 1200 630" xmlns="http://www.w3.org/2000/svg">
  <defs>
    <linearGradient id="bg-gradient" x1="0%" y1="0%" x2="100%" y2="100%">
      <stop offset="0%" style="stop-color:"#);
    out.append(primary.as_str());
    out.append(r#";stop-opacity:1" />
      <stop offset="100%" style="stop-color:"#);
    out.append(secondary.as_str());
    out.append(r##";stop-opacity:1" />
    </linearGradient>
    <filter id="glow" x="-20%" y="-20%" width="140%" height="140%">
      <feGaussianBlur stdDeviation="2" result="coloredBlur"/>
      <feMerge>
        <feMergeNode in="coloredBlur"/>
        <feMergeNode in="SourceGraphic"/>
      </feMerge>
    </filter>
  </defs>
  
  <!-- Gradient Background -->
  <rect width="1200" height="630" fill="url(#bg-gradient)"/>
  
  <!-- Frogprints Easter Egg -->
  <g opacity="0.04" fill="#ffffff">
    <circle cx="1140" cy="600" r="4"/>
    <circle cx="1152" cy="608" r="3"/>
    <circle cx="1160" cy="598" r="3"/>
  </g>
  
  <!-- Decorative Elements -->
  <circle cx="100" cy="100" r="200" fill="rgba(255,255,255,0.05)"/>
  <circle cx="1100" cy="530" r="250" fill="rgba(255,255,255,0.05)"/>
  
  <!-- Content Card -->
  <rect x="80" y="120" width="1040" height="400" rx="24" fill="rgba(255,255,255,0.1)" stroke="rgba(255,255,255,0.2)" stroke-width="1"/>
  
  <!-- Content -->
  <g transform="translate(140, 180)">
    <!-- Repo Name -->
    <text font-size="56" font-weight="bold" fill="#ffffff" font-family="system-ui, -apple-system, sans-serif" filter="url(#glow)">"##);
    out.append(full_name_esc.as_str());
    out.append(r#"</text>
    
    <!-- Description -->
    <text y="80" font-size="22" fill="rgba(255,255,255,0.9)" font-family="system-ui, -apple-system, sans-serif">"#);
    out.append(desc_esc.as_str());
    out.append(r##"</text>
    
    <!-- Stats -->
    <g transform="translate(0, 160)">
      <!-- Stars -->
      <g>
        <rect width="100" height="40" rx="20" fill="rgba(255,255,255,0.2)"/>
        <text x="50" y="27" text-anchor="middle" font-size="16" font-weight="bold" fill="#ffffff" font-family="system-ui, -apple-system, sans-serif">★ "##);
    out.append(stars.as_str());
    out.append(r##"</text>
      </g>
      
      <!-- Forks -->
      <g transform="translate(120, 0)">
        <rect width="100" height="40" rx="20" fill="rgba(255,255,255,0.2)"/>
        <text x="50" y="27" text-anchor="middle" font-size="16" font-weight="bold" fill="#ffffff" font-family="system-ui, -apple-system, sans-serif">⑂ "##);
    out.append(forks.as_str());
    out.append(r#"</text>
      </g>
      
      <!-- Language -->
      <g transform="translate(240, 0)">
        <rect width="140" height="40" rx="20" fill="rgba(255,255,255,0.2)"/>
        <circle cx="24" cy="20" r="8" fill=""#);
    out.append(lang_color);
    out.append(r##""/>
        <text x="44" y="27" font-size="16" font-weight="bold" fill="#ffffff" font-family="system-ui, -apple-system, sans-serif">"##);
    out.append(lang_esc.as_str());
    out.append(r#"</text>
      </g>
    </g>
    
    <!-- License -->
    <g transform="translate(0, 230)">
      <text font-size="14" fill="rgba(255,255,255,0.7)" font-family="system-ui, -apple-system, sans-serif">
        "#);
    out.append(license_esc.as_str());
    out.append(" • Updated ");
    out.append(updated_esc.as_str());
    out.append(r#"
      </text>
    </g>
  </g>
  
  <!-- Attribution -->
  "#);
    out.append(attribution.as_str());
    out.append(r#"
</svg>"#);
    proof {
        assert(out@ == spec_gradient_template(
            *metadata,
            include_attribution,
            spec_opt_str(primary_color),
            spec_opt_str(secondary_color),
        ));
    }
    out
}

// ---------------------------------------------------------------------------
// Variant dispatch
// ---------------------------------------------------------------------------

/// The rendered card for a template identifier, or nothing when the
/// identifier names no variant.
pub open spec fn spec_generate_svg(
    m: RepoMetadata,
    template_id: Seq<char>,
    attr: bool,
    pc: Option<Seq<char>>,
    sc: Option<Seq<char>>,
) -> Option<Seq<char>> {
    if template_id == "modern"@ {
        Some(spec_modern_template(m, attr, pc, sc))
    } else if template_id == "minimal"@ {
        Some(spec_minimal_template(m, attr, pc))
    } else if template_id == "gradient"@ {
        Some(spec_gradient_template(m, attr, pc, sc))
    } else {
        None
    }
}

/// Renders the card for the named template variant.  An unknown identifier
/// is rejected with an error naming it, and produces no output.
pub fn generate_svg(
    metadata: &RepoMetadata,
    template_id: &str,
    include_attribution: bool,
    primary_color: Option<String>,
    secondary_color: Option<String>,
) -> (r: Result<String, String>)
    ensures
        match r {
            Ok(svg) => Some(svg@) == spec_generate_svg(
                *metadata,
                template_id@,
                include_attribution,
                spec_opt_str(primary_color),
                spec_opt_str(secondary_color),
            ),
            Err(e) => spec_generate_svg(
                *metadata,
                template_id@,
                include_attribution,
                spec_opt_str(primary_color),
                spec_opt_str(secondary_color),
            ) is None && e@ == "Unknown template: "@ + template_id@,
        },
{
    let tid = template_id.to_owned();
    if eq_lit(&tid, "modern") {
        Ok(
            generate_modern_template(
                metadata,
                include_attribution,
                primary_color,
                secondary_color,
            ),
        )
    } else if eq_lit(&tid, "minimal") {
        Ok(
            generate_minimal_template(
                metadata,
                include_attribution,
                primary_color,
                secondary_color,
            ),
        )
    } else if eq_lit(&tid, "gradient") {
        Ok(
            generate_gradient_template(
                metadata,
                include_attribution,
                primary_color,
                secondary_color,
            ),
        )
    } else {
        let mut e = String::from_str("Unknown template: ");
        e.append(template_id);
        Err(e)
    }
}

/// Rendering is a pure function of its inputs: any two card texts that the
/// contract of `generate_svg` allows for the same arguments are identical.
pub proof fn lemma_render_deterministic(
    m: RepoMetadata,
    template_id: Seq<char>,
    attr: bool,
    pc: Option<Seq<char>>,
    sc: Option<Seq<char>>,
    r1: Seq<char>,
    r2: Seq<char>,
)
    requires
        spec_generate_svg(m, template_id, attr, pc, sc) == Some(r1),
        spec_generate_svg(m, template_id, attr, pc, sc) == Some(r2),
    ensures
        r1 == r2,
{
}

/// With attribution enabled the modern card embeds the attribution marker
/// verbatim.
pub proof fn lemma_modern_attribution_embedded(
    m: RepoMetadata,
    pc: Option<Seq<char>>,
    sc: Option<Seq<char>>,
)
    ensures
        spec_contains_seq(spec_modern_template(m, true, pc, sc), spec_attribution_text()),
{
    let x = spec_modern_template(m, true, pc, sc);
    let a = spec_attribution_text();
    let post = "</text>"@;
    let tail = r#"
  </g>
</svg>"#@;
    let i = x.len() - tail.len() - post.len() - a.len();
    assert(x.subrange(i, i + a.len()) =~= a);
    assert(spec_contains_seq(x, a));
}

/// With attribution enabled the minimal card embeds the attribution marker
/// verbatim.
pub proof fn lemma_minimal_attribution_embedded(m: RepoMetadata, pc: Option<Seq<char>>)
    ensures
        spec_contains_seq(spec_minimal_template(m, true, pc), spec_attribution_text()),
{
    let x = spec_minimal_template(m, true, pc);
    let a = spec_attribution_text();
    let post = "</text>"@;
    let tail = r#"
</svg>"#@;
    let i = x.len() - tail.len() - post.len() - a.len();
    assert(x.subrange(i, i + a.len()) =~= a);
    assert(spec_contains_seq(x, a));
}

/// With attribution enabled the gradient card embeds the attribution marker
/// verbatim.
pub proof fn lemma_gradient_attribution_embedded(
    m: RepoMetadata,
    pc: Option<Seq<char>>,
    sc: Option<Seq<char>>,
)
    ensures
        spec_contains_seq(spec_gradient_template(m, true, pc, sc), spec_attribution_text()),
{
    let x = spec_gradient_template(m, true, pc, sc);
    let a = spec_attribution_text();
    let post = "</text>"@;
    let tail = r#"
</svg>"#@;
    let i = x.len() - tail.len() - post.len() - a.len();
    assert(x.subrange(i, i + a.len()) =~= a);
    assert(spec_contains_seq(x, a));
}

} // verus!
