//! Formatting utilities: decimal rendering, count abbreviation, markup
//! escaping, byte-budget truncation, ASCII case folding and the language
//! colour palette.
use vstd::prelude::*;

verus! {

use vstd::utf8::encode_utf8;
use vstd::utf8::encode_scalar;
use vstd::utf8::is_ascii_chars;
use vstd::utf8::is_ascii_chars_encode_utf8;
use vstd::utf8::char_is_scalar;

// ---------------------------------------------------------------------------
// Decimal numerals
// ---------------------------------------------------------------------------

/// The character for one decimal digit.
pub open spec fn spec_digit_char(d: nat) -> char {
    if d == 0 {
        '0'
    } else if d == 1 {
        '1'
    } else if d == 2 {
        '2'
    } else if d == 3 {
        '3'
    } else if d == 4 {
        '4'
    } else if d == 5 {
        '5'
    } else if d == 6 {
        '6'
    } else if d == 7 {
        '7'
    } else if d == 8 {
        '8'
    } else {
        '9'
    }
}

/// The decimal numeral of a natural number, most significant digit first,
/// with no leading zeros (a single `'0'` for zero).
pub open spec fn spec_decimal(n: nat) -> Seq<char>
    decreases n,
{
    if n < 10 {
        seq![spec_digit_char(n)]
    } else {
        spec_decimal(n / 10).push(spec_digit_char(n % 10))
    }
}

fn digit_char(d: u8) -> (c: char)
    requires
        d < 10,
    ensures
        c == spec_digit_char(d as nat),
{
    match d {
        0 => '0',
        1 => '1',
        2 => '2',
        3 => '3',
        4 => '4',
        5 => '5',
        6 => '6',
        7 => '7',
        8 => '8',
        _ => '9',
    }
}

/// Relies on std's `String::push`: appends the given character to the string.
#[verifier::external_body]
pub(crate) fn string_push(s: &mut String, c: char)
    ensures
        final(s)@ == old(s)@.push(c),
{
    s.push(c);
}

/// Renders a number as its decimal numeral.
pub fn to_decimal(n: u128) -> (r: String)
    ensures
        r@ == spec_decimal(n as nat),
    decreases n,
{
    if n < 10 {
        let mut s = String::new();
        string_push(&mut s, digit_char(n as u8));
        proof {
            assert(s@ =~= seq![spec_digit_char(n as nat)]);
        }
        s
    } else {
        let mut s = to_decimal(n / 10);
        string_push(&mut s, digit_char((n % 10) as u8));
        s
    }
}

/// True for the characters `'0'` through `'9'`.
pub open spec fn spec_is_digit(c: char) -> bool {
    0x30 <= c as int <= 0x39
}

/// Every character of a decimal numeral is a digit, the numeral is nonempty,
/// and a numeral of a nonzero number has no leading zero.
pub proof fn lemma_decimal_digits(n: nat)
    ensures
        spec_decimal(n).len() >= 1,
        forall|i: int|
            0 <= i < spec_decimal(n).len() ==> spec_is_digit(#[trigger] spec_decimal(n)[i]),
        n > 0 ==> spec_decimal(n)[0] != '0',
    decreases n,
{
    if n < 10 {
        assert(spec_is_digit(spec_digit_char(n)));
    } else {
        lemma_decimal_digits(n / 10);
        assert(spec_is_digit(spec_digit_char(n % 10)));
        assert(n / 10 > 0);
        assert(spec_decimal(n)[0] == spec_decimal(n / 10)[0]);
    }
}

// ---------------------------------------------------------------------------
// Count abbreviation
// ---------------------------------------------------------------------------

/// A quantity of tenths rendered with one decimal place: `15` becomes `1.5`.
pub open spec fn spec_one_decimal(tenths: nat) -> Seq<char> {
    spec_decimal(tenths / 10) + seq!['.'] + seq![spec_digit_char(tenths % 10)]
}

/// Abbreviation of a counter: plain decimal below one thousand, one-decimal
/// `K` below one million, one-decimal `M` from one million on.  Rounding is
/// standard decimal rounding (half away from zero) of the divided value.
pub open spec fn spec_format_count(n: nat) -> Seq<char> {
    if n >= 1000000 {
        spec_one_decimal((n + 50000) / 100000) + seq!['M']
    } else if n >= 1000 {
        spec_one_decimal((n + 50) / 100) + seq!['K']
    } else {
        spec_decimal(n)
    }
}

/// Formats a large counter with a `K`/`M` suffix.
pub fn format_count(count: u32) -> (r: String)
    ensures
        r@ == spec_format_count(count as nat),
{
    if count >= 1000000 {
        let t: u64 = (count as u64 + 50000) / 100000;
        let mut s = to_decimal((t / 10) as u128);
        string_push(&mut s, '.');
        string_push(&mut s, digit_char((t % 10) as u8));
        string_push(&mut s, 'M');
        proof {
            assert(t == (count as nat + 50000) / 100000);
            assert(s@ =~= spec_format_count(count as nat));
        }
        s
    } else if count >= 1000 {
        let t: u64 = (count as u64 + 50) / 100;
        let mut s = to_decimal((t / 10) as u128);
        string_push(&mut s, '.');
        string_push(&mut s, digit_char((t % 10) as u8));
        string_push(&mut s, 'K');
        proof {
            assert(t == (count as nat + 50) / 100);
            assert(s@ =~= spec_format_count(count as nat));
        }
        s
    } else {
        to_decimal(count as u128)
    }
}

/// A count below one thousand is formatted as its plain decimal numeral.
pub proof fn lemma_format_count_plain(n: nat)
    requires
        n < 1000,
    ensures
        spec_format_count(n) == spec_decimal(n),
{
}

/// A count in the thousands range is formatted as a nonempty run of digits,
/// a dot, a single digit, and a final `'K'`.
pub proof fn lemma_format_count_kilo(n: nat)
    requires
        1000 <= n < 1000000,
    ensures
        ({
            let t = (n + 50) / 100;
            spec_format_count(n) == spec_decimal(t / 10) + seq!['.'] + seq![
                spec_digit_char(t % 10),
            ] + seq!['K']
        }),
        spec_format_count(n).len() >= 4,
        forall|i: int|
            0 <= i < spec_format_count(n).len() - 3 ==> spec_is_digit(
                #[trigger] spec_format_count(n)[i],
            ),
        spec_format_count(n)[spec_format_count(n).len() - 3] == '.',
        spec_is_digit(spec_format_count(n)[spec_format_count(n).len() - 2]),
        spec_format_count(n)[spec_format_count(n).len() - 1] == 'K',
{
    let t = (n + 50) / 100;
    lemma_decimal_digits(t / 10);
    assert(spec_is_digit(spec_digit_char(t % 10)));
}

/// At the boundary of one million the formatted count is exactly `1.0M`.
pub proof fn lemma_format_count_million_boundary()
    ensures
        spec_format_count(1000000) == "1.0M"@,
{
    reveal_strlit("1.0M");
    assert((1000000nat + 50000) / 100000 == 10);
    assert(spec_decimal(1) =~= seq!['1']);
    assert(spec_format_count(1000000) =~= "1.0M"@);
}

// ---------------------------------------------------------------------------
// Markup escaping
// ---------------------------------------------------------------------------

/// The expansion of one character under markup escaping.
pub open spec fn spec_escape_char(c: char) -> Seq<char> {
    if c == '&' {
        "&amp;"@
    } else if c == '<' {
        "&lt;"@
    } else if c == '>' {
        "&gt;"@
    } else if c == '"' {
        "&quot;"@
    } else if c == '\'' {
        "&apos;"@
    } else {
        seq![c]
    }
}

/// True for the five characters that markup escaping rewrites.
pub open spec fn spec_is_special(c: char) -> bool {
    c == '&' || c == '<' || c == '>' || c == '"' || c == '\''
}

/// Markup escaping of a character sequence: each character is replaced by its
/// expansion, ampersands first conceptually, so no expansion is re-escaped.
pub open spec fn spec_escape(s: Seq<char>) -> Seq<char>
    decreases s.len(),
{
    if s.len() == 0 {
        Seq::empty()
    } else {
        spec_escape_char(s[0]) + spec_escape(s.drop_first())
    }
}

pub proof fn lemma_escape_app(a: Seq<char>, b: Seq<char>)
    ensures
        spec_escape(a + b) == spec_escape(a) + spec_escape(b),
    decreases a.len(),
{
    if a.len() == 0 {
        assert(a + b =~= b);
        assert(spec_escape(a) + spec_escape(b) =~= spec_escape(b));
    } else {
        assert((a + b).drop_first() =~= a.drop_first() + b);
        lemma_escape_app(a.drop_first(), b);
        assert(spec_escape(a + b) =~= spec_escape(a) + spec_escape(b));
    }
}

proof fn lemma_escape_snoc(s: Seq<char>, i: int)
    requires
        0 <= i < s.len(),
    ensures
        spec_escape(s.take(i + 1)) == spec_escape(s.take(i)) + spec_escape_char(s[i]),
{
    assert(s.take(i + 1) =~= s.take(i) + seq![s[i]]);
    lemma_escape_app(s.take(i), seq![s[i]]);
    assert(seq![s[i]].len() == 1);
    assert(seq![s[i]][0] == s[i]);
    assert(seq![s[i]].drop_first() =~= Seq::<char>::empty());
    assert(spec_escape(Seq::<char>::empty()) =~= Seq::<char>::empty());
    assert(spec_escape(seq![s[i]]) =~= spec_escape_char(s[i]) + spec_escape(
        seq![s[i]].drop_first(),
    ));
    assert(spec_escape_char(s[i]) + Seq::<char>::empty() =~= spec_escape_char(s[i]));
}

/// Escapes the five markup special characters, ampersand first.
pub fn escape_xml(s: &str) -> (r: String)
    ensures
        r@ == spec_escape(s@),
{
    let n = s.unicode_len();
    let mut out = String::new();
    let mut i: usize = 0;
    proof {
        assert(out@ =~= spec_escape(s@.take(0)));
    }
    while i < n
        invariant
            i <= n,
            n == s@.len(),
            out@ == spec_escape(s@.take(i as int)),
        decreases n - i,
    {
        let c = s.get_char(i);
        if c == '&' {
            out.append("&amp;");
        } else if c == '<' {
            out.append("&lt;");
        } else if c == '>' {
            out.append("&gt;");
        } else if c == '"' {
            out.append("&quot;");
        } else if c == '\'' {
            out.append("&apos;");
        } else {
            string_push(&mut out, c);
            proof {
                assert(out@ =~= spec_escape(s@.take(i as int)) + spec_escape_char(c));
            }
        }
        proof {
            lemma_escape_snoc(s@, i as int);
        }
        i = i + 1;
    }
    proof {
        assert(s@.take(n as int) =~= s@);
    }
    out
}

/// A sequence is well escaped when every ampersand in it starts one of the
/// five escape entities and it contains no literal `'<'` or `'>'`.
pub open spec fn spec_well_escaped(s: Seq<char>) -> bool
    decreases s.len(),
{
    if s.len() == 0 {
        true
    } else if s[0] == '&' {
        ||| (s.len() >= 5 && "&amp;"@.is_prefix_of(s) && spec_well_escaped(s.skip(5)))
        ||| (s.len() >= 4 && "&lt;"@.is_prefix_of(s) && spec_well_escaped(s.skip(4)))
        ||| (s.len() >= 4 && "&gt;"@.is_prefix_of(s) && spec_well_escaped(s.skip(4)))
        ||| (s.len() >= 6 && "&quot;"@.is_prefix_of(s) && spec_well_escaped(s.skip(6)))
        ||| (s.len() >= 6 && "&apos;"@.is_prefix_of(s) && spec_well_escaped(s.skip(6)))
    } else {
        s[0] != '<' && s[0] != '>' && spec_well_escaped(s.drop_first())
    }
}

proof fn reveal_entities()
    ensures
        "&amp;"@ =~= seq!['&', 'a', 'm', 'p', ';'],
        "&lt;"@ =~= seq!['&', 'l', 't', ';'],
        "&gt;"@ =~= seq!['&', 'g', 't', ';'],
        "&quot;"@ =~= seq!['&', 'q', 'u', 'o', 't', ';'],
        "&apos;"@ =~= seq!['&', 'a', 'p', 'o', 's', ';'],
{
    reveal_strlit("&amp;");
    reveal_strlit("&lt;");
    reveal_strlit("&gt;");
    reveal_strlit("&quot;");
    reveal_strlit("&apos;");
}

proof fn lemma_well_escaped_prepend(c: char, t: Seq<char>)
    requires
        spec_well_escaped(t),
    ensures
        spec_well_escaped(spec_escape_char(c) + t),
    decreases t.len(),
{
    reveal_entities();
    let s = spec_escape_char(c) + t;
    if c == '&' {
        assert("&amp;"@.is_prefix_of(s)) by {
            assert(s.subrange(0, 5) =~= "&amp;"@);
        }
        assert(s.skip(5) =~= t);
    } else if c == '<' {
        assert("&lt;"@.is_prefix_of(s)) by {
            assert(s.subrange(0, 4) =~= "&lt;"@);
        }
        assert(s.skip(4) =~= t);
    } else if c == '>' {
        assert("&gt;"@.is_prefix_of(s)) by {
            assert(s.subrange(0, 4) =~= "&gt;"@);
        }
        assert(s.skip(4) =~= t);
    } else if c == '"' {
        assert("&quot;"@.is_prefix_of(s)) by {
            assert(s.subrange(0, 6) =~= "&quot;"@);
        }
        assert(s.skip(6) =~= t);
    } else if c == '\'' {
        assert("&apos;"@.is_prefix_of(s)) by {
            assert(s.subrange(0, 6) =~= "&apos;"@);
        }
        assert(s.skip(6) =~= t);
    } else {
        assert(s[0] == c);
        assert(s.drop_first() =~= t);
    }
}

/// The escaped form of any sequence is well escaped: every ampersand in it
/// begins an escape entity, and it holds no literal angle bracket.
pub proof fn lemma_escape_well_escaped(s: Seq<char>)
    ensures
        spec_well_escaped(spec_escape(s)),
    decreases s.len(),
{
    if s.len() > 0 {
        lemma_escape_well_escaped(s.drop_first());
        lemma_well_escaped_prepend(s[0], spec_escape(s.drop_first()));
    }
}

/// A well-escaped sequence contains no literal `'<'` or `'>'`.
pub proof fn lemma_well_escaped_no_angles(s: Seq<char>)
    requires
        spec_well_escaped(s),
    ensures
        forall|i: int| 0 <= i < s.len() ==> s[i] != '<' && s[i] != '>',
    decreases s.len(),
{
    reveal_entities();
    if s.len() == 0 {
    } else if s[0] == '&' {
        if s.len() >= 5 && "&amp;"@.is_prefix_of(s) && spec_well_escaped(s.skip(5)) {
            lemma_well_escaped_no_angles(s.skip(5));
            assert forall|i: int| 0 <= i < s.len() implies s[i] != '<' && s[i] != '>' by {
                if i < 5 {
                    assert(s[i] == "&amp;"@[i]);
                } else {
                    assert(s[i] == s.skip(5)[i - 5]);
                }
            }
        } else if s.len() >= 4 && "&lt;"@.is_prefix_of(s) && spec_well_escaped(s.skip(4)) {
            lemma_well_escaped_no_angles(s.skip(4));
            assert forall|i: int| 0 <= i < s.len() implies s[i] != '<' && s[i] != '>' by {
                if i < 4 {
                    assert(s[i] == "&lt;"@[i]);
                } else {
                    assert(s[i] == s.skip(4)[i - 4]);
                }
            }
        } else if s.len() >= 4 && "&gt;"@.is_prefix_of(s) && spec_well_escaped(s.skip(4)) {
            lemma_well_escaped_no_angles(s.skip(4));
            assert forall|i: int| 0 <= i < s.len() implies s[i] != '<' && s[i] != '>' by {
                if i < 4 {
                    assert(s[i] == "&gt;"@[i]);
                } else {
                    assert(s[i] == s.skip(4)[i - 4]);
                }
            }
        } else if s.len() >= 6 && "&quot;"@.is_prefix_of(s) && spec_well_escaped(s.skip(6)) {
            lemma_well_escaped_no_angles(s.skip(6));
            assert forall|i: int| 0 <= i < s.len() implies s[i] != '<' && s[i] != '>' by {
                if i < 6 {
                    assert(s[i] == "&quot;"@[i]);
                } else {
                    assert(s[i] == s.skip(6)[i - 6]);
                }
            }
        } else {
            assert(s.len() >= 6 && "&apos;"@.is_prefix_of(s) && spec_well_escaped(s.skip(6)));
            lemma_well_escaped_no_angles(s.skip(6));
            assert forall|i: int| 0 <= i < s.len() implies s[i] != '<' && s[i] != '>' by {
                if i < 6 {
                    assert(s[i] == "&apos;"@[i]);
                } else {
                    assert(s[i] == s.skip(6)[i - 6]);
                }
            }
        }
    } else {
        lemma_well_escaped_no_angles(s.drop_first());
        assert forall|i: int| 0 <= i < s.len() implies s[i] != '<' && s[i] != '>' by {
            if i > 0 {
                assert(s[i] == s.drop_first()[i - 1]);
            }
        }
    }
}

/// Escaping a sequence without special characters leaves it unchanged.
pub proof fn lemma_escape_clean_identity(s: Seq<char>)
    requires
        forall|i: int| 0 <= i < s.len() ==> !spec_is_special(#[trigger] s[i]),
    ensures
        spec_escape(s) == s,
    decreases s.len(),
{
    if s.len() == 0 {
        assert(spec_escape(s) =~= s);
    } else {
        assert(!spec_is_special(s[0]));
        assert(forall|i: int|
            0 <= i < s.drop_first().len() ==> !spec_is_special(#[trigger] s.drop_first()[i]));
        lemma_escape_clean_identity(s.drop_first());
        assert(spec_escape(s) =~= s);
    }
}

proof fn lemma_escape_len(s: Seq<char>)
    ensures
        spec_escape(s).len() >= s.len(),
        (exists|i: int| 0 <= i < s.len() && spec_is_special(#[trigger] s[i])) ==> spec_escape(
            s,
        ).len() > s.len(),
    decreases s.len(),
{
    reveal_entities();
    if s.len() > 0 {
        lemma_escape_len(s.drop_first());
        if exists|i: int| 0 <= i < s.len() && spec_is_special(#[trigger] s[i]) {
            let i = choose|i: int| 0 <= i < s.len() && spec_is_special(#[trigger] s[i]);
            if i == 0 {
                assert(spec_escape_char(s[0]).len() >= 4);
            } else {
                assert(spec_is_special(s.drop_first()[i - 1]));
                assert(spec_escape(s.drop_first()).len() > s.drop_first().len());
            }
        }
    }
}

proof fn lemma_escape_has_amp(s: Seq<char>)
    requires
        exists|i: int| 0 <= i < s.len() && spec_is_special(#[trigger] s[i]),
    ensures
        exists|j: int| 0 <= j < spec_escape(s).len() && spec_escape(s)[j] == '&',
    decreases s.len(),
{
    reveal_entities();
    let i = choose|i: int| 0 <= i < s.len() && spec_is_special(#[trigger] s[i]);
    if spec_is_special(s[0]) {
        assert(spec_escape_char(s[0])[0] == '&');
        assert(spec_escape(s)[0] == '&');
    } else {
        assert(spec_is_special(s.drop_first()[i - 1]));
        lemma_escape_has_amp(s.drop_first());
        let j = choose|j: int|
            0 <= j < spec_escape(s.drop_first()).len() && spec_escape(s.drop_first())[j] == '&';
        assert(spec_escape(s)[1 + j] == '&');
    }
}

/// Escaping is idempotent exactly on the inputs that contain no special
/// character: on those it is the identity, and on any other input a second
/// escaping pass expands the output further.
pub proof fn lemma_escape_idempotent_iff(s: Seq<char>)
    ensures
        (spec_escape(spec_escape(s)) == spec_escape(s)) <==> (forall|i: int|
            0 <= i < s.len() ==> !spec_is_special(#[trigger] s[i])),
{
    if forall|i: int| 0 <= i < s.len() ==> !spec_is_special(#[trigger] s[i]) {
        lemma_escape_clean_identity(s);
    } else {
        let i = choose|i: int| 0 <= i < s.len() && spec_is_special(#[trigger] s[i]);
        lemma_escape_has_amp(s);
        let j = choose|j: int|
            0 <= j < spec_escape(s).len() && spec_escape(s)[j] == '&';
        assert(spec_is_special(spec_escape(s)[j]));
        lemma_escape_len(spec_escape(s));
        assert(spec_escape(spec_escape(s)).len() > spec_escape(s).len());
    }
}

/// Whether `sub` occurs contiguously somewhere in `s`.
pub open spec fn spec_contains_seq(s: Seq<char>, sub: Seq<char>) -> bool {
    exists|i: int|
        0 <= i && i + sub.len() <= s.len() && #[trigger] s.subrange(i, i + sub.len()) == sub
}

/// A formatted count is never empty.
pub proof fn lemma_format_count_nonempty(n: nat)
    ensures
        spec_format_count(n).len() >= 1,
{
    if n >= 1000000 {
        lemma_decimal_digits((n + 50000) / 100000 / 10);
    } else if n >= 1000 {
        lemma_decimal_digits((n + 50) / 100 / 10);
    } else {
        lemma_decimal_digits(n);
    }
}

// ---------------------------------------------------------------------------
// Byte-budget truncation
// ---------------------------------------------------------------------------

/// The UTF-8 byte length of a character sequence.
pub open spec fn spec_byte_len(s: Seq<char>) -> nat {
    encode_utf8(s).len()
}

/// The UTF-8 byte length of one character.
pub open spec fn spec_char_len(c: char) -> nat {
    encode_scalar(c as u32).len()
}

proof fn lemma_char_len_pos(c: char)
    ensures
        1 <= spec_char_len(c) <= 4,
{
    char_is_scalar(c);
}

proof fn lemma_encode_app(a: Seq<char>, b: Seq<char>)
    ensures
        encode_utf8(a + b) == encode_utf8(a) + encode_utf8(b),
    decreases a.len(),
{
    if a.len() == 0 {
        assert(a + b =~= b);
        assert(encode_utf8(a) + encode_utf8(b) =~= encode_utf8(b));
    } else {
        assert((a + b).drop_first() =~= a.drop_first() + b);
        lemma_encode_app(a.drop_first(), b);
        assert(encode_utf8(a + b) =~= encode_utf8(a) + encode_utf8(b));
    }
}

proof fn lemma_encode_singleton(c: char)
    ensures
        encode_utf8(seq![c]) == encode_scalar(c as u32),
        encode_utf8(seq![c]).len() == spec_char_len(c),
{
    assert(seq![c].len() == 1);
    assert(seq![c][0] == c);
    assert(seq![c].drop_first() =~= Seq::<char>::empty());
    assert(encode_utf8(Seq::<char>::empty()) =~= Seq::<u8>::empty());
    assert(encode_utf8(seq![c]) =~= encode_scalar(c as u32));
}

proof fn lemma_byte_len_snoc(s: Seq<char>, i: int)
    requires
        0 <= i < s.len(),
    ensures
        spec_byte_len(s.take(i + 1)) == spec_byte_len(s.take(i)) + spec_char_len(s[i]),
{
    assert(s.take(i + 1) =~= s.take(i) + seq![s[i]]);
    lemma_encode_app(s.take(i), seq![s[i]]);
    lemma_encode_singleton(s[i]);
}

/// The number of leading characters whose UTF-8 encoding fits in `budget`
/// bytes: the longest character-aligned prefix within the byte budget.
pub open spec fn spec_fit_chars(s: Seq<char>, budget: int) -> int
    decreases s.len(),
{
    if s.len() == 0 || spec_char_len(s[0]) > budget {
        0
    } else {
        1 + spec_fit_chars(s.drop_first(), budget - spec_char_len(s[0]))
    }
}

proof fn lemma_fit_chars_bound(s: Seq<char>, budget: int)
    ensures
        0 <= spec_fit_chars(s, budget) <= s.len(),
        budget >= 0 ==> spec_byte_len(s.take(spec_fit_chars(s, budget))) <= budget,
    decreases s.len(),
{
    if s.len() == 0 || spec_char_len(s[0]) > budget {
        assert(s.take(0) =~= Seq::<char>::empty());
        assert(spec_byte_len(Seq::<char>::empty()) == 0);
    } else {
        let c = s[0];
        lemma_char_len_pos(c);
        lemma_fit_chars_bound(s.drop_first(), budget - spec_char_len(c));
        let f = spec_fit_chars(s.drop_first(), budget - spec_char_len(c));
        assert(s.take(1 + f) =~= seq![c] + s.drop_first().take(f));
        lemma_encode_app(seq![c], s.drop_first().take(f));
        lemma_encode_singleton(c);
    }
}

proof fn lemma_fit_chars_zero(s: Seq<char>, budget: int)
    requires
        budget <= 0,
    ensures
        spec_fit_chars(s, budget) == 0,
{
    if s.len() > 0 {
        lemma_char_len_pos(s[0]);
    }
}

/// Truncation to a byte budget: a sequence whose UTF-8 form is within
/// `max_len` bytes is kept whole; a longer one is cut to the longest
/// character-aligned prefix of at most `max_len - 3` bytes, with `"..."`
/// appended.  The cut never splits a character's encoding.
pub open spec fn spec_truncate(s: Seq<char>, max_len: nat) -> Seq<char> {
    if spec_byte_len(s) <= max_len {
        s
    } else {
        s.take(spec_fit_chars(s, max_len as int - 3)) + "..."@
    }
}

fn char_utf8_len(c: char) -> (l: usize)
    ensures
        l == spec_char_len(c),
{
    proof {
        char_is_scalar(c);
    }
    let u = c as u32;
    if u < 0x80 {
        1
    } else if u < 0x800 {
        2
    } else if u < 0x10000 {
        3
    } else {
        4
    }
}

/// The UTF-8 byte length of the text.
pub fn utf8_len(s: &str) -> (l: u128)
    ensures
        l == spec_byte_len(s@),
        l <= 4 * (usize::MAX as u128),
{
    let n = s.unicode_len();
    let mut acc: u128 = 0;
    let mut i: usize = 0;
    proof {
        assert(s@.take(0) =~= Seq::<char>::empty());
        assert(spec_byte_len(Seq::<char>::empty()) == 0);
    }
    while i < n
        invariant
            i <= n,
            n == s@.len(),
            acc == spec_byte_len(s@.take(i as int)),
            acc <= 4 * i,
        decreases n - i,
    {
        let c = s.get_char(i);
        let l = char_utf8_len(c);
        proof {
            lemma_byte_len_snoc(s@, i as int);
            lemma_char_len_pos(s@[i as int]);
        }
        acc = acc + l as u128;
        i = i + 1;
    }
    proof {
        assert(s@.take(n as int) =~= s@);
    }
    acc
}

/// Truncates text to a maximum byte length, appending an ellipsis when it is
/// cut; the cut falls on the last character boundary within the budget.
pub fn truncate(s: &str, max_len: usize) -> (r: String)
    ensures
        r@ == spec_truncate(s@, max_len as nat),
{
    if utf8_len(s) <= max_len as u128 {
        return s.to_owned();
    }
    let budget: usize = if max_len >= 3 {
        max_len - 3
    } else {
        0
    };
    proof {
        if max_len < 3 {
            lemma_fit_chars_zero(s@, budget as int);
            lemma_fit_chars_zero(s@, max_len as int - 3);
        }
    }
    let n = s.unicode_len();
    let mut i: usize = 0;
    let mut used: usize = 0;
    proof {
        assert(s@.take(0) =~= Seq::<char>::empty());
        assert(spec_byte_len(Seq::<char>::empty()) == 0);
        assert(s@.skip(0) =~= s@);
    }
    while i < n
        invariant_except_break
            i <= n,
            n == s@.len(),
            used == spec_byte_len(s@.take(i as int)),
            used <= budget,
            spec_fit_chars(s@, budget as int) == i + spec_fit_chars(
                s@.skip(i as int),
                budget as int - used,
            ),
        ensures
            i <= n,
            n == s@.len(),
            i == spec_fit_chars(s@, budget as int),
        decreases n - i,
    {
        let c = s.get_char(i);
        let l = char_utf8_len(c);
        proof {
            assert(s@.skip(i as int)[0] == s@[i as int]);
            assert(s@.skip(i as int).drop_first() =~= s@.skip(i as int + 1));
        }
        if used as u128 + l as u128 > budget as u128 {
            proof {
                assert(spec_fit_chars(s@.skip(i as int), budget as int - used) == 0);
            }
            break ;
        }
        used = used + l;
        proof {
            lemma_byte_len_snoc(s@, i as int);
        }
        i = i + 1;
    }
    proof {
        if i == n {
            assert(s@.skip(n as int) =~= Seq::<char>::empty());
        }
    }
    let pre = s.substring_char(0, i);
    let mut out = pre.to_owned();
    out.append("...");
    proof {
        assert(out@ == s@.take(spec_fit_chars(s@, max_len as int - 3)) + "..."@);
    }
    out
}

/// Truncation respects the byte budget: for budgets of at least three bytes
/// the result's UTF-8 form is never longer than the budget.
pub proof fn lemma_truncate_len(s: Seq<char>, max_len: nat)
    requires
        max_len >= 3,
    ensures
        spec_byte_len(spec_truncate(s, max_len)) <= max_len,
{
    if spec_byte_len(s) > max_len {
        lemma_fit_chars_bound(s, max_len as int - 3);
        let f = spec_fit_chars(s, max_len as int - 3);
        lemma_encode_app(s.take(f), "..."@);
        reveal_strlit("...");
        assert(is_ascii_chars("..."@)) by {
            assert("..."@.len() == 3);
            assert("..."@[0] == '.' && "..."@[1] == '.' && "..."@[2] == '.');
        }
        is_ascii_chars_encode_utf8("..."@);
        assert(spec_byte_len("..."@) == 3);
    }
}

/// Input within the byte budget is returned unchanged.
pub proof fn lemma_truncate_short(s: Seq<char>, max_len: nat)
    requires
        spec_byte_len(s) <= max_len,
    ensures
        spec_truncate(s, max_len) == s,
{
}

// ---------------------------------------------------------------------------
// ASCII case folding and small text helpers
// ---------------------------------------------------------------------------

/// ASCII lowercasing of one character.
pub open spec fn spec_lower_char(c: char) -> char {
    if 0x41 <= c as int <= 0x5a {
        (((c as int) + 32) as u8) as char
    } else {
        c
    }
}

/// ASCII uppercasing of one character.
pub open spec fn spec_upper_char(c: char) -> char {
    if 0x61 <= c as int <= 0x7a {
        (((c as int) - 32) as u8) as char
    } else {
        c
    }
}

/// ASCII lowercasing of a character sequence.
pub open spec fn spec_lower(s: Seq<char>) -> Seq<char> {
    s.map_values(|c: char| spec_lower_char(c))
}

fn lower_char(c: char) -> (r: char)
    ensures
        r == spec_lower_char(c),
{
    let u = c as u32;
    if 0x41 <= u && u <= 0x5a {
        ((u + 32) as u8) as char
    } else {
        c
    }
}

fn upper_char(c: char) -> (r: char)
    ensures
        r == spec_upper_char(c),
{
    let u = c as u32;
    if 0x61 <= u && u <= 0x7a {
        ((u - 32) as u8) as char
    } else {
        c
    }
}

/// Lowercases the ASCII letters of the text.
pub fn lower_ascii(s: &str) -> (r: String)
    ensures
        r@ == spec_lower(s@),
{
    let n = s.unicode_len();
    let mut out = String::new();
    let mut i: usize = 0;
    proof {
        assert(out@ =~= spec_lower(s@.take(0)));
    }
    while i < n
        invariant
            i <= n,
            n == s@.len(),
            out@ == spec_lower(s@.take(i as int)),
        decreases n - i,
    {
        let c = s.get_char(i);
        string_push(&mut out, lower_char(c));
        proof {
            assert(out@ =~= spec_lower(s@.take(i as int + 1)));
        }
        i = i + 1;
    }
    proof {
        assert(s@.take(n as int) =~= s@);
    }
    out
}

/// The uppercased first character of the text, or `'?'` when it is empty.
pub open spec fn spec_initial(s: Seq<char>) -> char {
    if s.len() == 0 {
        '?'
    } else {
        spec_upper_char(s[0])
    }
}

/// Returns the uppercased first character, or a placeholder when empty.
pub fn initial_char(s: &str) -> (r: char)
    ensures
        r == spec_initial(s@),
{
    if s.is_empty() {
        '?'
    } else {
        upper_char(s.get_char(0))
    }
}

/// The first `n` characters of the text (the whole text when shorter).
pub open spec fn spec_take_chars(s: Seq<char>, n: nat) -> Seq<char> {
    if s.len() <= n {
        s
    } else {
        s.take(n as int)
    }
}

/// Keeps the first `n` characters of the text.
pub fn take_chars(s: &str, n: usize) -> (r: String)
    ensures
        r@ == spec_take_chars(s@, n as nat),
{
    let len = s.unicode_len();
    let k = if len <= n {
        len
    } else {
        n
    };
    let pre = s.substring_char(0, k);
    proof {
        if s@.len() <= n as nat {
            assert(s@.take(s@.len() as int) =~= s@);
        }
    }
    pre.to_owned()
}

// ---------------------------------------------------------------------------
// Language colour palette
// ---------------------------------------------------------------------------

/// The fixed palette: the badge colour of a language name, matched
/// case-insensitively; unknown names map to a neutral gray.
pub open spec fn spec_language_color(lang: Seq<char>) -> Seq<char> {
    let l = spec_lower(lang);
    if l == "javascript"@ {
        "#f1e05a"@
    } else if l == "typescript"@ {
        "#3178c6"@
    } else if l == "python"@ {
        "#3572A5"@
    } else if l == "rust"@ {
        "#dea584"@
    } else if l == "go"@ {
        "#00ADD8"@
    } else if l == "java"@ {
        "#b07219"@
    } else if l == "c++"@ || l == "cpp"@ {
        "#f34b7d"@
    } else if l == "c#"@ || l == "csharp"@ {
        "#178600"@
    } else if l == "ruby"@ {
        "#701516"@
    } else if l == "php"@ {
        "#4F5D95"@
    } else if l == "swift"@ {
        "#F05138"@
    } else if l == "kotlin"@ {
        "#A97BFF"@
    } else if l == "dart"@ {
        "#00B4AB"@
    } else if l == "vue"@ {
        "#41b883"@
    } else if l == "html"@ {
        "#e34c26"@
    } else if l == "css"@ {
        "#563d7c"@
    } else if l == "shell"@ || l == "bash"@ {
        "#89e051"@
    } else if l == "c"@ {
        "#555555"@
    } else {
        "#6e7681"@
    }
}

pub(crate) fn eq_lit(a: &String, b: &str) -> (r: bool)
    ensures
        r == (a@ == b@),
{
    let bs = String::from_str(b);
    *a == bs
}

/// Looks a language name up in the fixed palette, case-insensitively.
pub fn get_language_color(language: &str) -> (r: &'static str)
    ensures
        r@ == spec_language_color(language@),
{
    let l = lower_ascii(language);
    if eq_lit(&l, "javascript") {
        "#f1e05a"
    } else if eq_lit(&l, "typescript") {
        "#3178c6"
    } else if eq_lit(&l, "python") {
        "#3572A5"
    } else if eq_lit(&l, "rust") {
        "#dea584"
    } else if eq_lit(&l, "go") {
        "#00ADD8"
    } else if eq_lit(&l, "java") {
        "#b07219"
    } else if eq_lit(&l, "c++") || eq_lit(&l, "cpp") {
        "#f34b7d"
    } else if eq_lit(&l, "c#") || eq_lit(&l, "csharp") {
        "#178600"
    } else if eq_lit(&l, "ruby") {
        "#701516"
    } else if eq_lit(&l, "php") {
        "#4F5D95"
    } else if eq_lit(&l, "swift") {
        "#F05138"
    } else if eq_lit(&l, "kotlin") {
        "#A97BFF"
    } else if eq_lit(&l, "dart") {
        "#00B4AB"
    } else if eq_lit(&l, "vue") {
        "#41b883"
    } else if eq_lit(&l, "html") {
        "#e34c26"
    } else if eq_lit(&l, "css") {
        "#563d7c"
    } else if eq_lit(&l, "shell") || eq_lit(&l, "bash") {
        "#89e051"
    } else if eq_lit(&l, "c") {
        "#555555"
    } else {
        "#6e7681"
    }
}

} // verus!
