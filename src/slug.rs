//! Slugs: the lower-case names that apps and teams are addressed by.
use vstd::prelude::*;
use vstd::string::*;
use crate::naming::nat_digits;

verus! {

/// What `str::trim` returns: the text without leading and trailing Unicode
/// white space.
pub uninterp spec fn trimmed_of(s: Seq<char>) -> Seq<char>;

/// What `str::to_lowercase` returns: the Unicode lower-case mapping of the text.
pub uninterp spec fn lowercase_of(s: Seq<char>) -> Seq<char>;

/// Relies on `str::trim`: the slice without leading and trailing white space.
#[verifier::external_body]
pub(crate) fn trim(s: &str) -> (r: &str)
    ensures
        r@ == trimmed_of(s@),
{
    s.trim()
}

/// Relies on `str::to_lowercase`: the lower-case mapping, a function of the
/// characters alone.
#[verifier::external_body]
pub(crate) fn lowercase(s: &str) -> (r: String)
    ensures
        r@ == lowercase_of(s@),
{
    s.to_lowercase()
}

/// A character a slug may hold: `a`-`z`, `0`-`9` or `-`.
pub open spec fn is_slug_char(c: char) -> bool {
    ('a' <= c && c <= 'z') || ('0' <= c && c <= '9') || c == '-'
}

/// A slug: one or more slug characters.
pub open spec fn slug_ok(s: Seq<char>) -> bool {
    s.len() > 0 && forall|i: int| 0 <= i < s.len() ==> is_slug_char(#[trigger] s[i])
}

pub open spec fn is_lower_alnum(c: char) -> bool {
    ('a' <= c && c <= 'z') || ('0' <= c && c <= '9')
}

/// What one character of a lower-cased text becomes in a slug: a space
/// becomes `-`, `a`-`z` and `0`-`9` stay, a `-` stays when `keep_dash`, and
/// anything else goes.
pub open spec fn slug_piece(c: char, keep_dash: bool) -> Seq<char> {
    if c == ' ' {
        seq!['-']
    } else if is_lower_alnum(c) || (keep_dash && c == '-') {
        seq![c]
    } else {
        Seq::empty()
    }
}

/// The slug pieces of every character of `s`, in order.
pub open spec fn dash_and_filter(s: Seq<char>, keep_dash: bool) -> Seq<char>
    decreases s.len(),
{
    if s.len() == 0 {
        s
    } else {
        dash_and_filter(s.drop_last(), keep_dash) + slug_piece(s.last(), keep_dash)
    }
}

/// A number right-aligned in a field four characters wide, as `{:4}` writes it.
pub open spec fn width4(n: nat) -> Seq<char> {
    let pad = if n < 10 {
        "   "@
    } else if n < 100 {
        "  "@
    } else if n < 1000 {
        " "@
    } else {
        ""@
    };
    pad + nat_digits(n)
}

/// The slug of an already lower-cased text, with a suffix `-<n>` (`n`
/// right-aligned in four places) when one is given.
pub open spec fn slug_from_lowered_spec(lowered: Seq<char>, keep_dash: bool, suffix: Option<u16>) -> Seq<
    char,
> {
    let base = dash_and_filter(lowered, keep_dash);
    match suffix {
        Some(n) => base + "-"@ + width4(n as nat),
        None => base,
    }
}

/// The slug of a text: trimmed and lower-cased, then as `slug_from_lowered`,
/// keeping the dashes it holds.
pub open spec fn into_slug_spec(text: Seq<char>, suffix: Option<u16>) -> Seq<char> {
    slug_from_lowered_spec(lowercase_of(trimmed_of(text)), true, suffix)
}

/// Whether `slug` is one or more of `a`-`z`, `0`-`9` and `-`.
pub fn validate_slug(slug: &str) -> (r: bool)
    ensures
        r == slug_ok(slug@),
{
    let n = slug.unicode_len();
    if n == 0 {
        return false;
    }
    let mut i: usize = 0;
    while i < n
        invariant
            n == slug@.len(),
            i <= n,
            forall|j: int| 0 <= j < i ==> is_slug_char(#[trigger] slug@[j]),
        decreases n - i,
    {
        let c = slug.get_char(i);
        if !(('a' <= c && c <= 'z') || ('0' <= c && c <= '9') || c == '-') {
            return false;
        }
        i = i + 1;
    }
    true
}

/// Appends `dash_and_filter(s, keep_dash)` to `out`.
fn push_dash_and_filter(out: &mut String, s: &str, keep_dash: bool)
    ensures
        final(out)@ == old(out)@ + dash_and_filter(s@, keep_dash),
{
    let n = s.unicode_len();
    let mut i: usize = 0;
    while i < n
        invariant
            n == s@.len(),
            i <= n,
            out@ == old(out)@ + dash_and_filter(s@.take(i as int), keep_dash),
        decreases n - i,
    {
        let c = s.get_char(i);
        let ghost prefix = s@.take(i as int);
        let ghost next = s@.take(i + 1);
        assert(next.drop_last() =~= prefix);
        assert(next.last() == c);
        if c == ' ' {
            out.append("-");
            proof {
                reveal_strlit("-");
            }
        } else if ('a' <= c && c <= 'z') || ('0' <= c && c <= '9') || (keep_dash && c == '-') {
            let one = s.substring_char(i, i + 1);
            assert(one@ =~= seq![c]);
            out.append(one);
        }
        proof {
            assert(out@ =~= old(out)@ + dash_and_filter(next, keep_dash));
        }
        i = i + 1;
    }
    assert(s@.take(n as int) =~= s@);
}

fn push_width4(out: &mut String, n: u16)
    ensures
        final(out)@ == old(out)@ + width4(n as nat),
{
    let pad = if n < 10 {
        "   "
    } else if n < 100 {
        "  "
    } else if n < 1000 {
        " "
    } else {
        ""
    };
    out.append(pad);
    crate::naming::push_digits(out, n as u64);
    assert(final(out)@ =~= old(out)@ + width4(n as nat)) by {
        assert(pad@ + nat_digits(n as nat) == width4(n as nat));
    }
}

/// The slug of an already lower-cased text: spaces become `-`, `a`-`z` and
/// `0`-`9` stay, dashes stay when `keep_dash`, the rest goes; then `-<n>`
/// (`n` right-aligned in four places) when a suffix is given.
pub fn slug_from_lowered(lowered: &str, keep_dash: bool, suffix: Option<u16>) -> (r: String)
    ensures
        r@ == slug_from_lowered_spec(lowered@, keep_dash, suffix),
{
    let mut out = String::new();
    push_dash_and_filter(&mut out, lowered, keep_dash);
    assert(out@ =~= dash_and_filter(lowered@, keep_dash));
    match suffix {
        Some(n) => {
            out.append("-");
            push_width4(&mut out, n);
        },
        None => {},
    }
    out
}

/// Turns any text into a slug; `suffix` is a number (drawn at random by the
/// caller, below 10000) that tells apart slugs of equal texts.
pub fn into_slug(text: &str, suffix: Option<u16>) -> (r: String)
    ensures
        r@ == into_slug_spec(text@, suffix),
{
    let lower = lowercase(trim(text));
    slug_from_lowered(lower.as_str(), true, suffix)
}

} // verus!
