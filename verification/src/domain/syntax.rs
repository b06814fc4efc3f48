//! The shapes an e-mail address and a username must have.
//!
//! An e-mail address has the shape
//! `^[a-zA-Z0-9_+&*-]+(?:\.[a-zA-Z0-9_+&*-]+)*@(?:[a-zA-Z0-9-]+\.)+[a-zA-Z]{2,}$`
//! and a username letters and digits, optionally one dash surrounded by
//! them (`^[a-zA-Z0-9]+-?[a-zA-Z0-9]+$`); both are written
//! out below as predicates on characters and recognised by verified scanners.

use crate::text::chars_of;
use vstd::prelude::*;

verus! {

pub open spec fn is_ascii_letter(c: char) -> bool {
    ('a' <= c && c <= 'z') || ('A' <= c && c <= 'Z')
}

pub open spec fn is_ascii_digit(c: char) -> bool {
    '0' <= c && c <= '9'
}

pub open spec fn is_ascii_alphanumeric(c: char) -> bool {
    is_ascii_letter(c) || is_ascii_digit(c)
}

/// Characters allowed in the words of the part before the `@`.
pub open spec fn is_local_part_char(c: char) -> bool {
    is_ascii_alphanumeric(c) || c == '_' || c == '+' || c == '&' || c == '*' || c == '-'
}

/// Characters allowed in a domain label.
pub open spec fn is_domain_label_char(c: char) -> bool {
    is_ascii_alphanumeric(c) || c == '-'
}

pub open spec fn in_class(c: char, local_part: bool) -> bool {
    if local_part {
        is_local_part_char(c)
    } else {
        is_domain_label_char(c)
    }
}

/// `s` is one or more non-empty words of the class separated by single dots.
pub open spec fn dotted_words(s: Seq<char>, local_part: bool) -> bool {
    &&& s.len() > 0
    &&& s[0] != '.'
    &&& s[s.len() - 1] != '.'
    &&& forall|i: int| 0 <= i < s.len() ==> (#[trigger] s[i] == '.' || in_class(s[i], local_part))
    &&& forall|i: int| 0 <= i < s.len() - 1 && #[trigger] s[i] == '.' ==> s[i + 1] != '.'
}

/// A top-level domain: two or more ASCII letters.
pub open spec fn top_level_domain(t: Seq<char>) -> bool {
    &&& t.len() >= 2
    &&& forall|i: int| 0 <= i < t.len() ==> is_ascii_letter(#[trigger] t[i])
}

/// Labels separated by dots, ending in a top-level domain.
pub open spec fn domain_syntax(d: Seq<char>) -> bool {
    exists|k: int|
        0 <= k < d.len() && #[trigger] d[k] == '.' && dotted_words(d.take(k), false)
            && top_level_domain(d.skip(k + 1))
}

/// A local part, an `@` and a domain.
pub open spec fn email_syntax(s: Seq<char>) -> bool {
    exists|a: int|
        0 <= a < s.len() && #[trigger] s[a] == '@' && dotted_words(s.take(a), true)
            && domain_syntax(s.skip(a + 1))
}

pub open spec fn all_alphanumeric(s: Seq<char>) -> bool {
    forall|i: int| 0 <= i < s.len() ==> is_ascii_alphanumeric(#[trigger] s[i])
}

pub open spec fn all_dashes(s: Seq<char>) -> bool {
    forall|i: int| 0 <= i < s.len() ==> #[trigger] s[i] == '-'
}

/// Alphanumeric characters, then at most one dash, then alphanumeric
/// characters again, with both alphanumeric runs non-empty.
pub open spec fn username_syntax(s: Seq<char>) -> bool {
    exists|i: int, j: int|
        #![trigger s.subrange(i, j)]
        0 < i <= j < s.len() && j <= i + 1 && all_alphanumeric(s.take(i)) && all_dashes(
            s.subrange(i, j),
        ) && all_alphanumeric(s.skip(j))
}

fn char_is_ascii_letter(c: char) -> (b: bool)
    ensures
        b == is_ascii_letter(c),
{
    ('a' <= c && c <= 'z') || ('A' <= c && c <= 'Z')
}

fn char_is_ascii_alphanumeric(c: char) -> (b: bool)
    ensures
        b == is_ascii_alphanumeric(c),
{
    char_is_ascii_letter(c) || ('0' <= c && c <= '9')
}

fn char_in_class(c: char, local_part: bool) -> (b: bool)
    ensures
        b == in_class(c, local_part),
{
    if local_part {
        char_is_ascii_alphanumeric(c) || c == '_' || c == '+' || c == '&' || c == '*' || c == '-'
    } else {
        char_is_ascii_alphanumeric(c) || c == '-'
    }
}

fn scan_dotted_words(chars: &Vec<char>, start: usize, end: usize, local_part: bool) -> (b: bool)
    requires
        start <= end <= chars@.len(),
    ensures
        b == dotted_words(chars@.subrange(start as int, end as int), local_part),
{
    let ghost w = chars@.subrange(start as int, end as int);
    if start == end {
        return false;
    }
    if chars[start] == '.' || chars[end - 1] == '.' {
        return false;
    }
    let mut i = start;
    while i < end
        invariant
            start <= i <= end <= chars@.len(),
            w == chars@.subrange(start as int, end as int),
            forall|k: int| 0 <= k < i - start ==> (#[trigger] w[k] == '.' || in_class(w[k], local_part)),
            forall|k: int| 0 <= k < i - start && k < w.len() - 1 && #[trigger] w[k] == '.' ==> w[k + 1] != '.',
        decreases end - i,
    {
        let c = chars[i];
        assert(w[i - start] == c);
        if !(c == '.' || char_in_class(c, local_part)) {
            return false;
        }
        if c == '.' && i + 1 < end && chars[i + 1] == '.' {
            assert(w[i - start + 1] == chars@[i + 1]);
            return false;
        }
        if c == '.' && i + 1 < end {
            assert(w[i - start + 1] == chars@[i + 1]);
        }
        i = i + 1;
    }
    true
}

fn scan_top_level_domain(chars: &Vec<char>, start: usize, end: usize) -> (b: bool)
    requires
        start <= end <= chars@.len(),
    ensures
        b == top_level_domain(chars@.subrange(start as int, end as int)),
{
    let ghost t = chars@.subrange(start as int, end as int);
    if end - start < 2 {
        return false;
    }
    let mut i = start;
    while i < end
        invariant
            start <= i <= end <= chars@.len(),
            t == chars@.subrange(start as int, end as int),
            forall|k: int| 0 <= k < i - start ==> is_ascii_letter(#[trigger] t[k]),
        decreases end - i,
    {
        assert(t[i - start] == chars@[i as int]);
        if !char_is_ascii_letter(chars[i]) {
            return false;
        }
        i = i + 1;
    }
    true
}

/// Whether `email` has the shape of an e-mail address.
pub fn is_email_shaped(email: &str) -> (b: bool)
    ensures
        b == email_syntax(email@),
{
    let chars = chars_of(email);
    let n = chars.len();
    let ghost s = email@;
    // The first `@`.
    let mut a: usize = 0;
    while a < n && chars[a] != '@'
        invariant
            a <= n == chars@.len(),
            chars@ == s,
            forall|k: int| 0 <= k < a ==> #[trigger] s[k] != '@',
        decreases n - a,
    {
        a = a + 1;
    }
    if a == n {
        assert(!email_syntax(s));
        return false;
    }
    assert(s[a as int] == '@');
    // Any split at an `@` must be at the first one: the local part holds no `@`.
    assert forall|a2: int|
        0 <= a2 < s.len() && #[trigger] s[a2] == '@' && dotted_words(s.take(a2), true) implies a2
        == a by {
        if a2 > a {
            assert(s.take(a2)[a as int] == '@');
        }
    }
    assert(s.take(a as int) == chars@.subrange(0, a as int));
    if !scan_dotted_words(&chars, 0, a, true) {
        return false;
    }
    let ghost d = s.skip(a + 1);
    // The last dot of the domain.
    let mut k: usize = n;
    while k > a + 1 && chars[k - 1] != '.'
        invariant
            a + 1 <= k <= n == chars@.len(),
            chars@ == s,
            forall|m: int| k <= m < n ==> #[trigger] s[m] != '.',
        decreases k,
    {
        k = k - 1;
    }
    if k == a + 1 {
        assert forall|k2: int| 0 <= k2 < d.len() implies #[trigger] d[k2] != '.' by {
            assert(d[k2] == s[a + 1 + k2]);
        }
        assert(!domain_syntax(d));
        return false;
    }
    let dot = k - 1;
    assert(d[dot - a - 1] == '.');
    // Any split of the domain must be at its last dot: the top-level domain holds no dot.
    assert forall|k2: int|
        0 <= k2 < d.len() && #[trigger] d[k2] == '.' && top_level_domain(d.skip(k2 + 1)) implies k2
        == dot - a - 1 by {
        if k2 < dot - a - 1 {
            assert(d.skip(k2 + 1)[dot - a - 1 - k2 - 1] == '.');
        }
        if k2 > dot - a - 1 {
            assert(d[k2] == s[a + 1 + k2]);
        }
    }
    assert(d.take(dot - a - 1) == chars@.subrange(a + 1, dot as int));
    assert(d.skip(dot - a) == chars@.subrange(dot + 1, n as int));
    let labels_ok = scan_dotted_words(&chars, a + 1, dot, false);
    let tld_ok = scan_top_level_domain(&chars, dot + 1, n);
    if labels_ok && tld_ok {
        assert(domain_syntax(d));
        assert(email_syntax(s));
    }
    labels_ok && tld_ok
}

/// Whether `username` has the shape of a username.
pub fn is_username_shaped(username: &str) -> (b: bool)
    ensures
        b == username_syntax(username@),
{
    let chars = chars_of(username);
    let n = chars.len();
    let ghost s = username@;
    // The leading alphanumeric run.
    let mut i: usize = 0;
    while i < n && char_is_ascii_alphanumeric(chars[i])
        invariant
            i <= n == chars@.len(),
            chars@ == s,
            forall|k: int| 0 <= k < i ==> is_ascii_alphanumeric(#[trigger] s[k]),
        decreases n - i,
    {
        i = i + 1;
    }
    // The run of dashes after it.
    let mut j: usize = i;
    while j < n && chars[j] == '-'
        invariant
            i <= j <= n == chars@.len(),
            chars@ == s,
            forall|k: int| i <= k < j ==> #[trigger] s[k] == '-',
        decreases n - j,
    {
        j = j + 1;
    }
    if i > 0 && j - i > 1 {
        // Two dashes in a row: the second one can sit in neither run.
        assert(s[i as int] == '-' && s[i + 1] == '-');
        assert forall|i2: int, j2: int|
            0 < i2 <= j2 < s.len() && j2 <= i2 + 1 && all_alphanumeric(s.take(i2)) && all_dashes(
                #[trigger] s.subrange(i2, j2),
            ) && all_alphanumeric(s.skip(j2)) implies false by {
            if i2 > i {
                assert(s.take(i2)[i as int] == s[i as int]);
            } else if i2 < i {
                assert(s.take(i2)[0] == s[0]);
                if j2 <= i {
                    if j2 <= i - 1 {
                        assert(s.skip(j2)[i - j2] == s[i as int]);
                    } else {
                        assert(s.skip(j2)[i - j2] == s[i as int]);
                    }
                } else {
                    assert(j2 == i2 + 1);
                    assert(s.subrange(i2, j2)[0] == s[i2]);
                    assert(is_ascii_alphanumeric(s[i2]));
                }
            } else {
                assert(s.skip(j2)[i + 1 - j2] == s[i + 1]);
            }
        }
        return false;
    }
    // The trailing alphanumeric run.
    let mut m: usize = j;
    while m < n && char_is_ascii_alphanumeric(chars[m])
        invariant
            j <= m <= n == chars@.len(),
            chars@ == s,
            forall|k: int| j <= k < m ==> is_ascii_alphanumeric(#[trigger] s[k]),
        decreases n - m,
    {
        m = m + 1;
    }
    if i == 0 || m < n || j == n {
        if j == i && i == n && n >= 2 {
            // No dashes: split the run before its last character.
            let ghost i2 = n - 1;
            assert(all_alphanumeric(s.take(i2 as int)));
            assert(all_dashes(s.subrange(i2 as int, i2 as int)));
            assert(all_alphanumeric(s.skip(i2 as int)));
            assert(username_syntax(s));
            return true;
        }
        assert forall|i2: int, j2: int|
            0 < i2 <= j2 < s.len() && all_alphanumeric(s.take(i2)) && all_dashes(
                #[trigger] s.subrange(i2, j2),
            ) && all_alphanumeric(s.skip(j2)) implies false by {
            assert(is_ascii_alphanumeric(s.take(i2)[0]));
            if i == 0 {
                assert(false);
            } else if m < n {
                // s[m] is neither alphanumeric nor part of the dash run.
                assert(!is_ascii_alphanumeric(s[m as int]));
                if m < j2 {
                    if m < i2 {
                        assert(s.take(i2)[m as int] == s[m as int]);
                    } else {
                        assert(s.subrange(i2, j2)[m - i2] == s[m as int]);
                        // a dash at m, so j == i and the dashes start at i ...
                        assert(s[m as int] == '-');
                        if i2 > i {
                            assert(s.take(i2)[i as int] == s[i as int]);
                        }
                        if i2 < i {
                            assert(s.subrange(i2, j2)[0] == s[i2]);
                            assert(is_ascii_alphanumeric(s[i2]));
                        }
                        if j < j2 {
                            assert(s.subrange(i2, j2)[j - i2] == s[j as int]);
                        }
                        if j2 <= j {
                            assert(false);
                        }
                    }
                } else {
                    assert(s.skip(j2)[m - j2] == s[m as int]);
                }
            } else {
                // j == n: the string ends in its dash run (or has no trailing run).
                assert(s.skip(j2)[s.len() - j2 - 1] == s[s.len() - 1]);
                if i < n {
                    assert(s[n - 1] == '-');
                } else {
                    assert(i == n);
                    assert(j == n);
                    if j2 > i2 {
                        assert(s.subrange(i2, j2)[0] == s[i2]);
                        assert(is_ascii_alphanumeric(s[i2]));
                    }
                    assert(false);
                }
            }
        }
        return false;
    }
    assert(all_alphanumeric(s.take(i as int)));
    assert(all_dashes(s.subrange(i as int, j as int)));
    assert(all_alphanumeric(s.skip(j as int)));
    assert(username_syntax(s));
    true
}

} // verus!
