//! Syntax of custom domain names.
use vstd::prelude::*;
use vstd::string::*;

verus! {

pub open spec fn is_letter(c: char) -> bool {
    ('a' <= c && c <= 'z') || ('A' <= c && c <= 'Z')
}

/// A character allowed in a domain label: ASCII letter, digit or `-`.
pub open spec fn is_label_char(c: char) -> bool {
    is_letter(c) || ('0' <= c && c <= '9') || c == '-'
}

/// Length of the run of non-dot characters that ends just before position `i`.
pub open spec fn run_before(p: Seq<char>, i: int) -> nat
    decreases i,
{
    if i <= 0 || i > p.len() {
        0
    } else if p[i - 1] == '.' {
        0
    } else {
        run_before(p, i - 1) + 1
    }
}

/// `p` is one or more labels joined by dots, each label 1 to 63 label
/// characters long.
pub open spec fn labels_ok(p: Seq<char>) -> bool {
    &&& p.len() > 0
    &&& forall|i: int|
        #![trigger p[i]]
        0 <= i < p.len() ==> if p[i] == '.' {
            run_before(p, i) >= 1
        } else {
            is_label_char(p[i]) && run_before(p, i) < 63
        }
    &&& run_before(p, p.len() as int) >= 1
}

/// Index of the last `.` before position `i`, or -1.
pub open spec fn last_dot_before(s: Seq<char>, i: int) -> int
    decreases i,
{
    if i <= 0 || i > s.len() {
        -1
    } else if s[i - 1] == '.' {
        i - 1
    } else {
        last_dot_before(s, i - 1)
    }
}

/// `s` is labels followed by a dot and a top-level domain of at least two
/// letters (and at most `max_tld`, when given).
pub open spec fn domain_ok(s: Seq<char>, max_tld: Option<nat>) -> bool {
    let d = last_dot_before(s, s.len() as int);
    let tld = s.skip(d + 1);
    &&& d >= 0
    &&& labels_ok(s.take(d))
    &&& tld.len() >= 2
    &&& (forall|i: int| 0 <= i < tld.len() ==> is_letter(#[trigger] tld[i]))
    &&& max_tld matches Some(m) ==> tld.len() <= m
}

fn check_letter(c: char) -> (r: bool)
    ensures
        r == is_letter(c),
{
    ('a' <= c && c <= 'z') || ('A' <= c && c <= 'Z')
}

fn check_label_char(c: char) -> (r: bool)
    ensures
        r == is_label_char(c),
{
    check_letter(c) || ('0' <= c && c <= '9') || c == '-'
}

/// Whether `s[..end]` satisfies `labels_ok`.
fn check_labels(s: &str, end: usize) -> (r: bool)
    requires
        end <= s@.len(),
    ensures
        r == labels_ok(s@.take(end as int)),
{
    let ghost p = s@.take(end as int);
    if end == 0 {
        return false;
    }
    let mut run: usize = 0;
    let mut i: usize = 0;
    while i < end
        invariant
            end <= s@.len(),
            p == s@.take(end as int),
            i <= end,
            run == run_before(p, i as int),
            run <= 63,
            forall|k: int|
                #![trigger p[k]]
                0 <= k < i ==> if p[k] == '.' {
                    run_before(p, k) >= 1
                } else {
                    is_label_char(p[k]) && run_before(p, k) < 63
                },
        decreases end - i,
    {
        let c = s.get_char(i);
        assert(p[i as int] == c);
        if c == '.' {
            if run == 0 {
                return false;
            }
            run = 0;
        } else {
            if !check_label_char(c) || run >= 63 {
                return false;
            }
            run = run + 1;
        }
        i = i + 1;
    }
    run >= 1
}

pub(crate) fn check_domain(s: &str, max_tld: Option<usize>) -> (r: bool)
    ensures
        r == domain_ok(
            s@,
            match max_tld {
                Some(m) => Some(m as nat),
                None => None,
            },
        ),
{
    let n = s.unicode_len();
    let mut i: usize = n;
    while i > 0
        invariant
            n == s@.len(),
            i <= n,
            last_dot_before(s@, n as int) == last_dot_before(s@, i as int),
        ensures
            last_dot_before(s@, n as int) == last_dot_before(s@, i as int),
            i == 0 || s@[i - 1] == '.',
        decreases i,
    {
        if s.get_char(i - 1) == '.' {
            break;
        }
        i = i - 1;
    }
    if i == 0 {
        return false;
    }
    let d = i - 1;
    assert(last_dot_before(s@, n as int) == d as int);
    let ghost tld = s@.skip(d + 1);
    let tld_len = n - i;
    if tld_len < 2 {
        return false;
    }
    match max_tld {
        Some(m) => {
            if tld_len > m {
                return false;
            }
        },
        None => {},
    }
    let mut k: usize = i;
    while k < n
        invariant
            n == s@.len(),
            i <= k <= n,
            tld == s@.skip(i as int),
            i >= 1,
            last_dot_before(s@, n as int) == i - 1,
            forall|j: int| 0 <= j < k - i ==> is_letter(#[trigger] tld[j]),
        decreases n - k,
    {
        let c = s.get_char(k);
        if !check_letter(c) {
            assert(tld[k - i] == c);
            assert(!is_letter(tld[k - i]));
            assert(tld == s@.skip(last_dot_before(s@, n as int) + 1));
            return false;
        }
        k = k + 1;
    }
    check_labels(s, d)
}

/// Whether `domain` is a well-formed domain name: labels of 1 to 63 letters,
/// digits or `-` joined by dots, then a dot and a top-level domain of two or
/// more letters.
pub fn validate_domain(domain: &str) -> (r: bool)
    ensures
        r == domain_ok(domain@, None),
{
    check_domain(domain, None)
}

} // verus!
