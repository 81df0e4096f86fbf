//! Repository-locator parsing for the metadata collaborator: owner and
//! repository name from a full URL or a short `owner/repo` form, and the
//! first-line extraction applied to raw commit messages.
use vstd::prelude::*;

verus! {

use crate::text::string_push;
use crate::docs::starts_with_str;

// ---------------------------------------------------------------------------
// Character classes and trimming
// ---------------------------------------------------------------------------

/// Whitespace, as the Unicode `White_Space` property defines it.
pub open spec fn spec_is_whitespace(c: char) -> bool {
    ||| 0x09 <= c as int <= 0x0d
    ||| c as int == 0x20
    ||| c as int == 0x85
    ||| c as int == 0xa0
    ||| c as int == 0x1680
    ||| 0x2000 <= c as int <= 0x200a
    ||| c as int == 0x2028
    ||| c as int == 0x2029
    ||| c as int == 0x202f
    ||| c as int == 0x205f
    ||| c as int == 0x3000
}

/// The sequence without its longest prefix of characters satisfying `p`.
pub open spec fn spec_drop_leading(s: Seq<char>, p: spec_fn(char) -> bool) -> Seq<char>
    decreases s.len(),
{
    if s.len() > 0 && p(s[0]) {
        spec_drop_leading(s.drop_first(), p)
    } else {
        s
    }
}

/// The sequence without its longest suffix of characters satisfying `p`.
pub open spec fn spec_drop_trailing(s: Seq<char>, p: spec_fn(char) -> bool) -> Seq<char>
    decreases s.len(),
{
    if s.len() > 0 && p(s.last()) {
        spec_drop_trailing(s.drop_last(), p)
    } else {
        s
    }
}

/// The text without leading and trailing whitespace.
pub open spec fn spec_trim(s: Seq<char>) -> Seq<char> {
    spec_drop_trailing(
        spec_drop_leading(s, |c: char| spec_is_whitespace(c)),
        |c: char| spec_is_whitespace(c),
    )
}

/// The sequence without its leading occurrences of one character.
pub open spec fn spec_drop_leading_ch(s: Seq<char>, c0: char) -> Seq<char>
    decreases s.len(),
{
    if s.len() > 0 && s[0] == c0 {
        spec_drop_leading_ch(s.drop_first(), c0)
    } else {
        s
    }
}

/// The sequence without its trailing occurrences of one character.
pub open spec fn spec_drop_trailing_ch(s: Seq<char>, c0: char) -> Seq<char>
    decreases s.len(),
{
    if s.len() > 0 && s.last() == c0 {
        spec_drop_trailing_ch(s.drop_last(), c0)
    } else {
        s
    }
}

/// The text without leading and trailing occurrences of one character.
pub open spec fn spec_trim_char(s: Seq<char>, c0: char) -> Seq<char> {
    spec_drop_trailing_ch(spec_drop_leading_ch(s, c0), c0)
}

proof fn lemma_drop_leading_ch_at(s: Seq<char>, c0: char, k: int)
    requires
        0 <= k <= s.len(),
        forall|j: int| 0 <= j < k ==> #[trigger] s[j] == c0,
        k == s.len() || s[k] != c0,
    ensures
        spec_drop_leading_ch(s, c0) == s.skip(k),
    decreases k,
{
    if k == 0 {
        assert(s.skip(0) =~= s);
    } else {
        assert(s[0] == c0);
        lemma_drop_leading_ch_at(s.drop_first(), c0, k - 1);
        assert(s.drop_first().skip(k - 1) =~= s.skip(k));
    }
}

proof fn lemma_drop_trailing_ch_at(s: Seq<char>, c0: char, k: int)
    requires
        0 <= k <= s.len(),
        forall|j: int| k <= j < s.len() ==> #[trigger] s[j] == c0,
        k == 0 || s[k - 1] != c0,
    ensures
        spec_drop_trailing_ch(s, c0) == s.take(k),
    decreases s.len(),
{
    if k == s.len() {
        if s.len() > 0 {
            assert(s.last() != c0);
        }
        assert(s.take(k) =~= s);
    } else {
        assert(s.last() == c0);
        lemma_drop_trailing_ch_at(s.drop_last(), c0, k);
        assert(s.drop_last().take(k) =~= s.take(k));
    }
}

proof fn lemma_drop_leading_at(s: Seq<char>, p: spec_fn(char) -> bool, k: int)
    requires
        0 <= k <= s.len(),
        forall|j: int| 0 <= j < k ==> p(#[trigger] s[j]),
        k == s.len() || !p(s[k]),
    ensures
        spec_drop_leading(s, p) == s.skip(k),
    decreases k,
{
    if k == 0 {
        assert(s.skip(0) =~= s);
    } else {
        assert(p(s[0]));
        lemma_drop_leading_at(s.drop_first(), p, k - 1);
        assert(s.drop_first().skip(k - 1) =~= s.skip(k));
    }
}

proof fn lemma_drop_trailing_at(s: Seq<char>, p: spec_fn(char) -> bool, k: int)
    requires
        0 <= k <= s.len(),
        forall|j: int| k <= j < s.len() ==> p(#[trigger] s[j]),
        k == 0 || !p(s[k - 1]),
    ensures
        spec_drop_trailing(s, p) == s.take(k),
    decreases s.len(),
{
    if k == s.len() {
        if s.len() > 0 {
            assert(!p(s.last()));
        }
        assert(s.take(k) =~= s);
    } else {
        assert(p(s.last()));
        lemma_drop_trailing_at(s.drop_last(), p, k);
        assert(s.drop_last().take(k) =~= s.take(k));
    }
}

fn is_whitespace(c: char) -> (r: bool)
    ensures
        r == spec_is_whitespace(c),
{
    let u = c as u32;
    (0x09 <= u && u <= 0x0d) || u == 0x20 || u == 0x85 || u == 0xa0 || u == 0x1680 || (0x2000 <= u
        && u <= 0x200a) || u == 0x2028 || u == 0x2029 || u == 0x202f || u == 0x205f || u == 0x3000
}

/// Removes leading and trailing whitespace.
pub fn trim_whitespace(s: &str) -> (r: String)
    ensures
        r@ == spec_trim(s@),
{
    let n = s.unicode_len();
    let mut a: usize = 0;
    while a < n && is_whitespace(s.get_char(a))
        invariant
            a <= n,
            n == s@.len(),
            forall|j: int| 0 <= j < a ==> spec_is_whitespace(#[trigger] s@[j]),
        decreases n - a,
    {
        a = a + 1;
    }
    proof {
        lemma_drop_leading_at(s@, |c: char| spec_is_whitespace(c), a as int);
    }
    let mut b: usize = n;
    while b > a && is_whitespace(s.get_char(b - 1))
        invariant
            a <= b <= n,
            n == s@.len(),
            forall|j: int| b <= j < s@.skip(a as int).len() + a ==> spec_is_whitespace(
                #[trigger] s@[j],
            ),
        decreases b,
    {
        b = b - 1;
    }
    proof {
        let mid = s@.skip(a as int);
        assert(forall|j: int|
            b - a <= j < mid.len() ==> spec_is_whitespace(#[trigger] mid[j]));
        if b > a {
            assert(!spec_is_whitespace(mid[b - a - 1]));
        }
        lemma_drop_trailing_at(mid, |c: char| spec_is_whitespace(c), b as int - a);
        assert(mid.take(b as int - a) =~= s@.subrange(a as int, b as int));
    }
    let r = s.substring_char(a, b);
    r.to_owned()
}

/// Removes leading and trailing occurrences of one character.
pub fn trim_char(s: &str, c0: char) -> (r: String)
    ensures
        r@ == spec_trim_char(s@, c0),
{
    let n = s.unicode_len();
    let mut a: usize = 0;
    while a < n && s.get_char(a) == c0
        invariant
            a <= n,
            n == s@.len(),
            forall|j: int| 0 <= j < a ==> #[trigger] s@[j] == c0,
        decreases n - a,
    {
        a = a + 1;
    }
    proof {
        lemma_drop_leading_ch_at(s@, c0, a as int);
    }
    let mut b: usize = n;
    while b > a && s.get_char(b - 1) == c0
        invariant
            a <= b <= n,
            n == s@.len(),
            forall|j: int| b <= j < s@.skip(a as int).len() + a ==> #[trigger] s@[j] == c0,
        decreases b,
    {
        b = b - 1;
    }
    proof {
        let mid = s@.skip(a as int);
        assert(forall|j: int| b - a <= j < mid.len() ==> #[trigger] mid[j] == c0);
        if b > a {
            assert(mid[b - a - 1] != c0);
        }
        lemma_drop_trailing_ch_at(mid, c0, b as int - a);
        assert(mid.take(b as int - a) =~= s@.subrange(a as int, b as int));
    }
    let r = s.substring_char(a, b);
    r.to_owned()
}

// ---------------------------------------------------------------------------
// Substring search and removal
// ---------------------------------------------------------------------------

/// Whether the text contains the given character.
pub open spec fn spec_contains_char(s: Seq<char>, c: char) -> bool {
    exists|i: int| 0 <= i < s.len() && s[i] == c
}

/// Scans the text for one character.
pub fn contains_char(s: &str, c: char) -> (r: bool)
    ensures
        r == spec_contains_char(s@, c),
{
    let n = s.unicode_len();
    let mut i: usize = 0;
    while i < n
        invariant
            i <= n,
            n == s@.len(),
            forall|j: int| 0 <= j < i ==> #[trigger] s@[j] != c,
        decreases n - i,
    {
        if s.get_char(i) == c {
            return true;
        }
        i = i + 1;
    }
    false
}

/// Whether `pat` occurs anywhere in the text.
pub open spec fn spec_contains_sub(s: Seq<char>, pat: Seq<char>) -> bool {
    exists|i: int| 0 <= i <= s.len() && pat.is_prefix_of(s.skip(i))
}

fn is_prefix_at(s: &str, i: usize, pat: &str) -> (r: bool)
    requires
        i <= s@.len(),
    ensures
        r == pat@.is_prefix_of(s@.skip(i as int)),
{
    let n = s.unicode_len();
    let np = pat.unicode_len();
    if np > n - i {
        return false;
    }
    let mut j: usize = 0;
    while j < np
        invariant
            j <= np,
            np == pat@.len(),
            n == s@.len(),
            i + np <= n,
            forall|k: int| 0 <= k < j ==> pat@[k] == s@[i + k],
        decreases np - j,
    {
        if pat.get_char(j) != s.get_char(i + j) {
            proof {
                assert(!pat@.is_prefix_of(s@.skip(i as int))) by {
                    if pat@.is_prefix_of(s@.skip(i as int)) {
                        assert(pat@[j as int] == s@.skip(i as int).subrange(
                            0,
                            np as int,
                        )[j as int]);
                        assert(pat@[j as int] == s@[i as int + j]);
                    }
                }
            }
            return false;
        }
        j = j + 1;
    }
    proof {
        assert(pat@ =~= s@.skip(i as int).subrange(0, np as int));
    }
    true
}

/// Scans the text for an occurrence of `pat`.
pub fn contains_sub(s: &str, pat: &str) -> (r: bool)
    ensures
        r == spec_contains_sub(s@, pat@),
{
    let n = s.unicode_len();
    let mut i: usize = 0;
    while i < n
        invariant
            i <= n,
            n == s@.len(),
            forall|j: int| 0 <= j < i ==> !pat@.is_prefix_of(s@.skip(j)),
        decreases n - i,
    {
        if is_prefix_at(s, i, pat) {
            return true;
        }
        i = i + 1;
    }
    is_prefix_at(s, n, pat)
}

/// The text with every occurrence of `pat` removed, scanning left to right.
pub open spec fn spec_remove_all(s: Seq<char>, pat: Seq<char>) -> Seq<char>
    recommends
        pat.len() > 0,
    decreases s.len(),
{
    if s.len() == 0 {
        s
    } else if pat.len() > 0 && pat.is_prefix_of(s) {
        spec_remove_all(s.skip(pat.len() as int), pat)
    } else {
        seq![s[0]] + spec_remove_all(s.drop_first(), pat)
    }
}

/// Removes every occurrence of `pat`, scanning left to right.
pub fn remove_all(s: &str, pat: &str) -> (r: String)
    requires
        pat@.len() > 0,
    ensures
        r@ == spec_remove_all(s@, pat@),
{
    let n = s.unicode_len();
    let np = pat.unicode_len();
    let mut out = String::new();
    let mut i: usize = 0;
    proof {
        assert(s@.skip(0) =~= s@);
        assert(out@ + spec_remove_all(s@, pat@) =~= spec_remove_all(s@, pat@));
    }
    while i < n
        invariant
            i <= n,
            n == s@.len(),
            np == pat@.len(),
            np > 0,
            spec_remove_all(s@, pat@) == out@ + spec_remove_all(s@.skip(i as int), pat@),
        decreases n - i,
    {
        let ghost pre = out@;
        if is_prefix_at(s, i, pat) {
            proof {
                assert(s@.skip(i as int).len() > 0);
                assert(s@.skip(i as int).skip(np as int) =~= s@.skip(i as int + np as int));
            }
            i = i + np;
        } else {
            let c = s.get_char(i);
            string_push(&mut out, c);
            proof {
                assert(s@.skip(i as int)[0] == s@[i as int]);
                assert(s@.skip(i as int).drop_first() =~= s@.skip(i as int + 1));
                assert(pre + (seq![s@[i as int]] + spec_remove_all(s@.skip(i as int + 1), pat@))
                    =~= out@ + spec_remove_all(s@.skip(i as int + 1), pat@));
            }
            i = i + 1;
        }
    }
    proof {
        assert(s@.skip(n as int) =~= Seq::<char>::empty());
        assert(out@ + spec_remove_all(Seq::<char>::empty(), pat@) =~= out@);
    }
    out
}

// ---------------------------------------------------------------------------
// Splitting on a separator
// ---------------------------------------------------------------------------

/// The pieces of the text between occurrences of the separator, in order,
/// empty pieces included; the empty text yields one empty piece.
pub open spec fn spec_split(s: Seq<char>, sep: char) -> Seq<Seq<char>>
    decreases s.len(),
{
    if s.len() == 0 {
        seq![Seq::<char>::empty()]
    } else if s[0] == sep {
        seq![Seq::<char>::empty()] + spec_split(s.drop_first(), sep)
    } else {
        let rest = spec_split(s.drop_first(), sep);
        seq![seq![s[0]] + rest[0]] + rest.drop_first()
    }
}

proof fn lemma_split_nonempty(s: Seq<char>, sep: char)
    ensures
        spec_split(s, sep).len() >= 1,
    decreases s.len(),
{
    if s.len() > 0 {
        lemma_split_nonempty(s.drop_first(), sep);
    }
}

proof fn lemma_split_snoc_sep(t: Seq<char>, sep: char)
    ensures
        spec_split(t.push(sep), sep) == spec_split(t, sep).push(Seq::<char>::empty()),
    decreases t.len(),
{
    lemma_split_nonempty(t, sep);
    if t.len() == 0 {
        assert(t.push(sep).len() == 1);
        assert(t.push(sep)[0] == sep);
        assert(t.push(sep).drop_first() =~= Seq::<char>::empty());
        assert(spec_split(Seq::<char>::empty(), sep) == seq![Seq::<char>::empty()]);
        assert(spec_split(t.push(sep), sep) =~~= spec_split(t, sep).push(Seq::<char>::empty()));
    } else {
        assert(t.push(sep).drop_first() =~= t.drop_first().push(sep));
        lemma_split_snoc_sep(t.drop_first(), sep);
        lemma_split_nonempty(t.drop_first(), sep);
        assert(spec_split(t.push(sep), sep) =~~= spec_split(t, sep).push(Seq::<char>::empty()));
    }
}

proof fn lemma_split_snoc_char(t: Seq<char>, c: char, sep: char)
    requires
        c != sep,
    ensures
        ({
            let ps = spec_split(t, sep);
            spec_split(t.push(c), sep) == ps.update(ps.len() - 1, ps.last().push(c))
        }),
    decreases t.len(),
{
    lemma_split_nonempty(t, sep);
    let ps = spec_split(t, sep);
    if t.len() == 0 {
        assert(t.push(c).len() == 1);
        assert(t.push(c)[0] == c);
        assert(t.push(c).drop_first() =~= Seq::<char>::empty());
        assert(spec_split(Seq::<char>::empty(), sep) == seq![Seq::<char>::empty()]);
        assert(seq![c] + Seq::<char>::empty() =~= Seq::<char>::empty().push(c));
        assert(spec_split(t.push(c), sep) =~~= ps.update(ps.len() - 1, ps.last().push(c)));
    } else {
        assert(t.push(c).drop_first() =~= t.drop_first().push(c));
        lemma_split_snoc_char(t.drop_first(), c, sep);
        lemma_split_nonempty(t.drop_first(), sep);
        let sub = spec_split(t.drop_first(), sep);
        if t[0] == sep {
            assert(spec_split(t.push(c), sep) =~~= ps.update(ps.len() - 1, ps.last().push(c)));
        } else {
            if sub.len() == 1 {
                assert((seq![t[0]] + sub[0]).push(c) =~= seq![t[0]] + sub[0].push(c));
                assert(spec_split(t.push(c), sep) =~~= ps.update(
                    ps.len() - 1,
                    ps.last().push(c),
                ));
            } else {
                assert(spec_split(t.push(c), sep) =~~= ps.update(
                    ps.len() - 1,
                    ps.last().push(c),
                ));
            }
        }
    }
}

/// Splits the text at each occurrence of the separator.
pub fn split_char(s: &str, sep: char) -> (parts: Vec<String>)
    ensures
        crate::templates::spec_views(parts@) == spec_split(s@, sep),
{
    let n = s.unicode_len();
    let mut parts: Vec<String> = Vec::new();
    let mut cur = String::new();
    let mut i: usize = 0;
    proof {
        assert(spec_split(s@.take(0), sep) =~~= crate::templates::spec_views(parts@).push(cur@));
    }
    while i < n
        invariant
            i <= n,
            n == s@.len(),
            spec_split(s@.take(i as int), sep) == crate::templates::spec_views(parts@).push(cur@),
        decreases n - i,
    {
        let c = s.get_char(i);
        proof {
            assert(s@.take(i as int + 1) =~= s@.take(i as int).push(s@[i as int]));
            lemma_split_nonempty(s@.take(i as int), sep);
        }
        if c == sep {
            parts.push(cur);
            cur = String::new();
            proof {
                lemma_split_snoc_sep(s@.take(i as int), sep);
                assert(spec_split(s@.take(i as int + 1), sep) =~~= crate::templates::spec_views(
                    parts@,
                ).push(cur@));
            }
        } else {
            string_push(&mut cur, c);
            proof {
                lemma_split_snoc_char(s@.take(i as int), c, sep);
                assert(spec_split(s@.take(i as int + 1), sep) =~~= crate::templates::spec_views(
                    parts@,
                ).push(cur@));
            }
        }
        i = i + 1;
    }
    parts.push(cur);
    proof {
        assert(s@.take(n as int) =~= s@);
        assert(crate::templates::spec_views(parts@) =~~= spec_split(s@, sep));
    }
    parts
}

// ---------------------------------------------------------------------------
// Repository locator parsing
// ---------------------------------------------------------------------------

/// The parse of a repository locator, after trimming whitespace: a full URL
/// under either scheme whose path has at least two segments yields its first
/// two; otherwise a short form with exactly one slash and no scheme marker
/// yields its two halves; anything else is rejected with a message naming
/// the trimmed input.
pub open spec fn spec_parse_repo_url(url: Seq<char>) -> Result<(Seq<char>, Seq<char>), Seq<char>> {
    let u = spec_trim(url);
    let path = spec_remove_all(spec_remove_all(u, "https://github.com/"@), "http://github.com/"@);
    let parts = spec_split(spec_trim_char(path, '/'), '/');
    let short = spec_split(u, '/');
    if ("https://github.com/"@.is_prefix_of(u) || "http://github.com/"@.is_prefix_of(u))
        && parts.len() >= 2 {
        Ok((parts[0], parts[1]))
    } else if spec_contains_char(u, '/') && !spec_contains_sub(u, "://"@) && short.len() == 2 {
        Ok((short[0], short[1]))
    } else {
        Err("Invalid GitHub URL or repo format: "@ + u)
    }
}

/// Parses a repository locator into its owner and repository name.
pub fn parse_repo_url(url: &str) -> (r: Result<(String, String), String>)
    ensures
        match r {
            Ok(p) => spec_parse_repo_url(url@) == Ok::<(Seq<char>, Seq<char>), Seq<char>>(
                (p.0@, p.1@),
            ),
            Err(e) => spec_parse_repo_url(url@) == Err::<(Seq<char>, Seq<char>), Seq<char>>(e@),
        },
{
    let u = trim_whitespace(url);
    proof {
        reveal_strlit("https://github.com/");
        reveal_strlit("http://github.com/");
    }
    if starts_with_str(u.as_str(), "https://github.com/") || starts_with_str(
        u.as_str(),
        "http://github.com/",
    ) {
        let p1 = remove_all(u.as_str(), "https://github.com/");
        let path = remove_all(p1.as_str(), "http://github.com/");
        let trimmed = trim_char(path.as_str(), '/');
        let parts = split_char(trimmed.as_str(), '/');
        if parts.len() >= 2 {
            proof {
                assert(crate::templates::spec_views(parts@)[0] == parts@[0]@);
                assert(crate::templates::spec_views(parts@)[1] == parts@[1]@);
            }
            return Ok((parts[0].clone(), parts[1].clone()));
        }
    }
    if contains_char(u.as_str(), '/') && !contains_sub(u.as_str(), "://") {
        let parts = split_char(u.as_str(), '/');
        if parts.len() == 2 {
            proof {
                assert(crate::templates::spec_views(parts@)[0] == parts@[0]@);
                assert(crate::templates::spec_views(parts@)[1] == parts@[1]@);
            }
            return Ok((parts[0].clone(), parts[1].clone()));
        }
    }
    let mut e = String::from_str("Invalid GitHub URL or repo format: ");
    e.append(u.as_str());
    Err(e)
}

// ---------------------------------------------------------------------------
// Commit message first line
// ---------------------------------------------------------------------------

/// The number of characters before the first newline.
pub open spec fn spec_line_len(s: Seq<char>) -> int
    decreases s.len(),
{
    if s.len() == 0 {
        0
    } else if s[0] == '\n' {
        0
    } else {
        1 + spec_line_len(s.drop_first())
    }
}

/// The first line of the text: everything before the first newline, without
/// a trailing carriage return.
pub open spec fn spec_first_line(s: Seq<char>) -> Seq<char> {
    let t = s.take(spec_line_len(s));
    if t.len() > 0 && t.last() == '\r' {
        t.drop_last()
    } else {
        t
    }
}

proof fn lemma_line_len_bounds(s: Seq<char>)
    ensures
        0 <= spec_line_len(s) <= s.len(),
    decreases s.len(),
{
    if s.len() > 0 && s[0] != '\n' {
        lemma_line_len_bounds(s.drop_first());
    }
}

/// Extracts the first line of a commit message.
pub fn first_line(s: &str) -> (r: String)
    ensures
        r@ == spec_first_line(s@),
{
    let n = s.unicode_len();
    let mut i: usize = 0;
    proof {
        assert(s@.skip(0) =~= s@);
    }
    while i < n && s.get_char(i) != '\n'
        invariant
            i <= n,
            n == s@.len(),
            spec_line_len(s@) == i + spec_line_len(s@.skip(i as int)),
            forall|j: int| 0 <= j < i ==> #[trigger] s@[j] != '\n',
        decreases n - i,
    {
        proof {
            assert(s@.skip(i as int)[0] == s@[i as int]);
            assert(s@.skip(i as int).drop_first() =~= s@.skip(i as int + 1));
        }
        i = i + 1;
    }
    proof {
        if i == n {
            assert(s@.skip(n as int) =~= Seq::<char>::empty());
        } else {
            assert(s@.skip(i as int)[0] == s@[i as int]);
        }
        assert(spec_line_len(s@) == i);
    }
    let line = s.substring_char(0, i);
    proof {
        assert(line@ =~= s@.take(i as int));
    }
    if i > 0 && s.get_char(i - 1) == '\r' {
        let short = s.substring_char(0, i - 1);
        proof {
            assert(short@ =~= s@.take(i as int).drop_last());
        }
        short.to_owned()
    } else {
        line.to_owned()
    }
}

} // verus!
