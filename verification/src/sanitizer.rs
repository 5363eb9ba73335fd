//! Text sanitizer for the free-text fields of an identity record.
//!
//! A field is reduced to the characters of a fixed allowed set and then
//! stripped of leading and trailing whitespace. The removal is done by the
//! `regex` crate and the stripping by `str::trim`; what both return is stated
//! here over sequences of characters, and the properties of the composition
//! are proved from those statements.

use regex::Regex;
use vstd::prelude::*;

verus! {

/// Whether `c` has the Unicode property `White_Space`.
pub open spec fn is_whitespace(c: char) -> bool {
    ||| '\u{9}' <= c <= '\u{d}'
    ||| c == ' '
    ||| c == '\u{85}'
    ||| c == '\u{a0}'
    ||| c == '\u{1680}'
    ||| '\u{2000}' <= c <= '\u{200a}'
    ||| c == '\u{2028}'
    ||| c == '\u{2029}'
    ||| c == '\u{202f}'
    ||| c == '\u{205f}'
    ||| c == '\u{3000}'
}

/// Whether a sanitized field may hold `c`: an ASCII letter or digit,
/// whitespace, or one of `.` `,` `-` `_` `(` `)`.
pub open spec fn is_allowed(c: char) -> bool {
    ||| 'a' <= c <= 'z'
    ||| 'A' <= c <= 'Z'
    ||| '0' <= c <= '9'
    ||| is_whitespace(c)
    ||| c == '.'
    ||| c == ','
    ||| c == '-'
    ||| c == '_'
    ||| c == '('
    ||| c == ')'
}

/// `is_allowed` as a predicate to filter by.
pub open spec fn allowed() -> spec_fn(char) -> bool {
    |c: char| is_allowed(c)
}

/// `s` without the characters that are not allowed, the others in their order.
pub open spec fn retained(s: Seq<char>) -> Seq<char> {
    s.filter(allowed())
}

/// `s` without its leading whitespace.
pub open spec fn strip_start(s: Seq<char>) -> Seq<char>
    decreases s.len(),
{
    if s.len() > 0 && is_whitespace(s.first()) {
        strip_start(s.drop_first())
    } else {
        s
    }
}

/// `s` without its trailing whitespace.
pub open spec fn strip_end(s: Seq<char>) -> Seq<char>
    decreases s.len(),
{
    if s.len() > 0 && is_whitespace(s.last()) {
        strip_end(s.drop_last())
    } else {
        s
    }
}

/// `s` without its leading and trailing whitespace.
pub open spec fn trimmed(s: Seq<char>) -> Seq<char> {
    strip_end(strip_start(s))
}

/// The sanitized form of `s`: the allowed characters of `s`, trimmed.
pub open spec fn sanitized(s: Seq<char>) -> Seq<char> {
    trimmed(retained(s))
}

/// Every character of `s` is allowed.
pub open spec fn all_allowed(s: Seq<char>) -> bool {
    forall|i: int| 0 <= i < s.len() ==> is_allowed(#[trigger] s[i])
}

/// `s` neither starts nor ends with whitespace.
pub open spec fn no_outer_whitespace(s: Seq<char>) -> bool {
    s.len() > 0 ==> !is_whitespace(s.first()) && !is_whitespace(s.last())
}

/// `s` is what the sanitizer leaves alone.
pub open spec fn is_clean(s: Seq<char>) -> bool {
    all_allowed(s) && no_outer_whitespace(s)
}

/// The regular expression that matches one character outside the allowed set.
pub const DISALLOWED_PATTERN: &'static str = "[^a-zA-Z0-9\\s.,\\-_()]";

/// Trusted. Compiles `pattern` with `regex::Regex::new` and returns what
/// `Regex::replace_all` makes of `haystack` with `replacement`.
///
/// The contract covers the one pattern this module uses, a negated bracketed
/// class, and the empty replacement. The class lists the ranges `a-z`, `A-Z`,
/// `0-9`, the Perl class `\s` (in the crate's default Unicode mode the
/// property `White_Space`), and the literals `.` `,` `-` `_` `(` `)`. Such a
/// pattern compiles, each of its matches is exactly one character outside the
/// class, and replacing every match by nothing leaves the characters inside
/// the class in their order.
#[verifier::external_body]
fn regex_replace_all(pattern: &str, haystack: &str, replacement: &str) -> (out: String)
    requires
        pattern@ == DISALLOWED_PATTERN@,
        replacement@.len() == 0,
    ensures
        out@ == retained(haystack@),
{
    Regex::new(pattern).unwrap().replace_all(haystack, replacement).into_owned()
}

/// Trusted. `str::trim` of the standard library: the slice of `s` that is
/// left when leading and trailing whitespace, by the Unicode property
/// `White_Space`, is removed.
#[verifier::external_body]
pub(crate) fn str_trim(s: &str) -> (out: &str)
    ensures
        out@ == trimmed(s@),
{
    s.trim()
}

/// Sanitizes one free-text field: removes every character that is not
/// allowed, then trims whitespace at both ends.
pub fn sanitize(text: &str) -> (out: String)
    ensures
        out@ == sanitized(text@),
        is_clean(out@),
{
    proof {
        reveal_strlit("");
        lemma_sanitized_is_clean(text@);
    }
    let kept = regex_replace_all(DISALLOWED_PATTERN, text, "");
    str_trim(kept.as_str()).to_owned()
}


/// What `strip_start` returns is a tail of `s` that does not start with
/// whitespace. The result is the number of characters dropped.
pub proof fn lemma_strip_start(s: Seq<char>) -> (k: int)
    ensures
        0 <= k <= s.len(),
        strip_start(s) == s.subrange(k, s.len() as int),
        forall|i: int| 0 <= i < k ==> is_whitespace(#[trigger] s[i]),
        k < s.len() ==> !is_whitespace(s[k]),
    decreases s.len(),
{
    if s.len() > 0 && is_whitespace(s.first()) {
        let rest = s.drop_first();
        let j = lemma_strip_start(rest);
        assert(rest.subrange(j, rest.len() as int) =~= s.subrange(j + 1, s.len() as int));
        assert forall|i: int| 0 <= i < j + 1 implies is_whitespace(#[trigger] s[i]) by {
            if i > 0 {
                assert(s[i] == rest[i - 1]);
            }
        }
        if j + 1 < s.len() {
            assert(s[j + 1] == rest[j]);
        }
        j + 1
    } else {
        assert(s.subrange(0, s.len() as int) =~= s);
        0
    }
}

/// What `strip_end` returns is a head of `s` that does not end with
/// whitespace. The result is the number of characters kept.
pub proof fn lemma_strip_end(s: Seq<char>) -> (k: int)
    ensures
        0 <= k <= s.len(),
        strip_end(s) == s.subrange(0, k),
        forall|i: int| k <= i < s.len() ==> is_whitespace(#[trigger] s[i]),
        k > 0 ==> !is_whitespace(s[k - 1]),
    decreases s.len(),
{
    if s.len() > 0 && is_whitespace(s.last()) {
        let rest = s.drop_last();
        let j = lemma_strip_end(rest);
        assert(rest.subrange(0, j) =~= s.subrange(0, j));
        assert forall|i: int| j <= i < s.len() implies is_whitespace(#[trigger] s[i]) by {
            if i < rest.len() {
                assert(s[i] == rest[i]);
            }
        }
        if j > 0 {
            assert(s[j - 1] == rest[j - 1]);
        }
        j
    } else {
        assert(s.subrange(0, s.len() as int) =~= s);
        s.len() as int
    }
}

/// Trimming cuts a string at both ends and nowhere else: the result is the
/// part of `s` between the returned bounds, everything outside them is
/// whitespace, and the part itself neither starts nor ends with whitespace.
pub proof fn lemma_trimmed_bounds(s: Seq<char>) -> (bounds: (int, int))
    ensures
        0 <= bounds.0 <= bounds.1 <= s.len(),
        trimmed(s) == s.subrange(bounds.0, bounds.1),
        forall|i: int| 0 <= i < bounds.0 ==> is_whitespace(#[trigger] s[i]),
        forall|i: int| bounds.1 <= i < s.len() ==> is_whitespace(#[trigger] s[i]),
        no_outer_whitespace(trimmed(s)),
{
    let from = lemma_strip_start(s);
    let tail = s.subrange(from, s.len() as int);
    let kept = lemma_strip_end(tail);
    assert(tail.subrange(0, kept) =~= s.subrange(from, from + kept));
    assert forall|i: int| from + kept <= i < s.len() implies is_whitespace(#[trigger] s[i]) by {
        assert(s[i] == tail[i - from]);
    }
    if kept > 0 {
        assert(trimmed(s).first() == s[from]);
        assert(trimmed(s).last() == tail[kept - 1]);
    }
    (from, from + kept)
}

/// A string that neither starts nor ends with whitespace is left as it is.
pub proof fn lemma_trimmed_fixed(s: Seq<char>)
    requires
        no_outer_whitespace(s),
    ensures
        trimmed(s) == s,
{
}

/// What `retained` returns holds allowed characters only, and a string of
/// allowed characters is left as it is.
pub proof fn lemma_retained(s: Seq<char>)
    ensures
        all_allowed(retained(s)),
        retained(s).len() <= s.len(),
        all_allowed(s) ==> retained(s) == s,
    decreases s.len(),
{
    broadcast use vstd::seq_lib::group_filter_ensures;

    if s.len() > 0 {
        let head = s.drop_last();
        lemma_retained(head);
        if all_allowed(s) {
            assert forall|i: int| 0 <= i < head.len() implies is_allowed(#[trigger] head[i]) by {
                assert(head[i] == s[i]);
            }
            assert(is_allowed(s.last()));
            assert(head.push(s.last()) =~= s);
            head.lemma_filter_push(s.last(), allowed());
        }
    }
}

/// The sanitizer's result is clean: it holds allowed characters only and
/// neither starts nor ends with whitespace. It is no longer than the input.
pub proof fn lemma_sanitized_is_clean(s: Seq<char>)
    ensures
        is_clean(sanitized(s)),
        sanitized(s).len() <= s.len(),
{
    lemma_retained(s);
    let kept = retained(s);
    let bounds = lemma_trimmed_bounds(kept);
    assert forall|i: int| 0 <= i < sanitized(s).len() implies is_allowed(
        #[trigger] sanitized(s)[i],
    ) by {
        assert(sanitized(s)[i] == kept[bounds.0 + i]);
    }
}

/// The strings that the sanitizer leaves as they are, are exactly the clean
/// ones.
pub proof fn lemma_sanitized_fixed_points(s: Seq<char>)
    ensures
        sanitized(s) == s <==> is_clean(s),
{
    lemma_sanitized_is_clean(s);
    if is_clean(s) {
        lemma_retained(s);
        lemma_trimmed_fixed(s);
    }
}

/// Sanitizing is idempotent: a second pass changes nothing.
pub proof fn lemma_sanitized_idempotent(s: Seq<char>)
    ensures
        sanitized(sanitized(s)) == sanitized(s),
{
    lemma_sanitized_is_clean(s);
    lemma_sanitized_fixed_points(sanitized(s));
}

} // verus!
