//! Text primitives that the extractors and the title codec share.

use vstd::prelude::*;
use vstd::string::*;

verus! {

/// Whether `c` counts as whitespace when text is trimmed: the answer of
/// `char::is_whitespace`, the Unicode `White_Space` property.
pub uninterp spec fn is_whitespace(c: char) -> bool;

/// `char::is_whitespace` answers by the character alone; the contract gives
/// that answer its name and claims nothing else of it.
pub assume_specification[ char::is_whitespace ](c: char) -> (r: bool)
    ensures
        r == is_whitespace(c),
;

/// `String::push` appends the character at the end and leaves the rest as
/// it was.
pub assume_specification[ String::push ](s: &mut String, c: char)
    ensures
        final(s)@ == old(s)@.push(c),
;

/// The number of whitespace characters at the start of `s`.
pub open spec fn leading_whitespace(s: Seq<char>) -> nat
    decreases s.len(),
{
    if s.len() > 0 && is_whitespace(s[0]) {
        1 + leading_whitespace(s.drop_first())
    } else {
        0
    }
}

/// The number of whitespace characters at the end of `s`.
pub open spec fn trailing_whitespace(s: Seq<char>) -> nat
    decreases s.len(),
{
    if s.len() > 0 && is_whitespace(s.last()) {
        1 + trailing_whitespace(s.drop_last())
    } else {
        0
    }
}

/// `s` without its leading and trailing whitespace. A text of whitespace
/// alone trims to the empty text.
pub open spec fn trimmed(s: Seq<char>) -> Seq<char> {
    let rest = s.skip(leading_whitespace(s) as int);
    rest.take(rest.len() - trailing_whitespace(rest))
}

/// `s` is `prefix` followed by something.
pub open spec fn starts_with_char(s: Seq<char>, prefix: char) -> bool {
    s.len() > 0 && s[0] == prefix
}

/// A text that starts with `n` whitespace characters and then goes on
/// otherwise, or ends, has `n` of them in front.
proof fn lemma_leading_whitespace(s: Seq<char>, n: int)
    requires
        0 <= n <= s.len(),
        forall|i: int| 0 <= i < n ==> is_whitespace(#[trigger] s[i]),
        n < s.len() ==> !is_whitespace(s[n]),
    ensures
        leading_whitespace(s) == n,
    decreases n,
{
    if n > 0 {
        let rest = s.drop_first();
        assert forall|i: int| 0 <= i < n - 1 implies is_whitespace(#[trigger] rest[i]) by {
            assert(rest[i] == s[i + 1]);
        }
        lemma_leading_whitespace(rest, n - 1);
    }
}

/// A text that ends with `n` whitespace characters, before which stands
/// another character or nothing, has `n` of them behind.
proof fn lemma_trailing_whitespace(s: Seq<char>, n: int)
    requires
        0 <= n <= s.len(),
        forall|i: int| s.len() - n <= i < s.len() ==> is_whitespace(#[trigger] s[i]),
        n < s.len() ==> !is_whitespace(s[s.len() - n - 1]),
    ensures
        trailing_whitespace(s) == n,
    decreases n,
{
    if n > 0 {
        let rest = s.drop_last();
        assert forall|i: int| rest.len() - (n - 1) <= i < rest.len() implies is_whitespace(
            #[trigger] rest[i],
        ) by {
            assert(rest[i] == s[i]);
        }
        lemma_trailing_whitespace(rest, n - 1);
    }
}

/// Trimming leaves no whitespace at either end, and takes nothing else away:
/// what it returns is the stretch of `s` between the first and the last
/// character that is not whitespace.
pub proof fn lemma_trimmed_is_tight(s: Seq<char>)
    ensures
        trimmed(s).len() > 0 ==> !is_whitespace(trimmed(s)[0]) && !is_whitespace(
            trimmed(s).last(),
        ),
        trimmed(s).len() + leading_whitespace(s) + trailing_whitespace(
            s.skip(leading_whitespace(s) as int),
        ) == s.len(),
{
    lemma_leading_bound(s);
    let rest = s.skip(leading_whitespace(s) as int);
    lemma_trailing_bound(rest);
    lemma_leading_stops(s);
    lemma_trailing_stops(rest);
    if trimmed(s).len() > 0 {
        assert(trimmed(s)[0] == rest[0]);
        assert(trimmed(s).last() == rest[rest.len() - trailing_whitespace(rest) - 1]);
        if trailing_whitespace(rest) == rest.len() {
            assert(false);
        }
    }
}

proof fn lemma_leading_bound(s: Seq<char>)
    ensures
        leading_whitespace(s) <= s.len(),
    decreases s.len(),
{
    if s.len() > 0 && is_whitespace(s[0]) {
        lemma_leading_bound(s.drop_first());
    }
}

proof fn lemma_trailing_bound(s: Seq<char>)
    ensures
        trailing_whitespace(s) <= s.len(),
    decreases s.len(),
{
    if s.len() > 0 && is_whitespace(s.last()) {
        lemma_trailing_bound(s.drop_last());
    }
}

proof fn lemma_leading_stops(s: Seq<char>)
    ensures
        leading_whitespace(s) < s.len() ==> !is_whitespace(s[leading_whitespace(s) as int]),
    decreases s.len(),
{
    if s.len() > 0 && is_whitespace(s[0]) {
        let rest = s.drop_first();
        lemma_leading_stops(rest);
        if leading_whitespace(rest) < rest.len() {
            assert(rest[leading_whitespace(rest) as int] == s[leading_whitespace(s) as int]);
        }
    }
}

proof fn lemma_trailing_stops(s: Seq<char>)
    ensures
        trailing_whitespace(s) < s.len() ==> !is_whitespace(
            s[s.len() - trailing_whitespace(s) - 1],
        ),
    decreases s.len(),
{
    if s.len() > 0 && is_whitespace(s.last()) {
        let rest = s.drop_last();
        lemma_trailing_stops(rest);
        if trailing_whitespace(rest) < rest.len() {
            assert(rest[rest.len() - trailing_whitespace(rest) - 1] == s[s.len()
                - trailing_whitespace(s) - 1]);
        }
    }
}

/// `s` without the whitespace at its two ends.
pub fn trim(s: &str) -> (r: &str)
    ensures
        r@ == trimmed(s@),
{
    let n = s.unicode_len();
    let mut start: usize = 0;
    let mut end: usize = 0;
    let mut seen: usize = 0;
    for c in it: s.chars()
        invariant
            it.seq() == s@,
            n == s@.len(),
            seen == it.index(),
            seen <= n,
            start <= end <= seen,
            forall|i: int| 0 <= i < start ==> is_whitespace(#[trigger] s@[i]),
            forall|i: int| end <= i < seen ==> is_whitespace(#[trigger] s@[i]),
            start < end ==> !is_whitespace(s@[start as int]) && !is_whitespace(s@[end - 1]),
            start == end ==> start == seen,
    {
        if !c.is_whitespace() {
            if start == end {
                start = seen;
            }
            end = seen + 1;
        } else if start == end {
            start = seen + 1;
            end = seen + 1;
        }
        seen = seen + 1;
    }
    proof {
        lemma_leading_whitespace(s@, start as int);
        let rest = s@.skip(start as int);
        assert forall|i: int| rest.len() - (n - end) <= i < rest.len() implies is_whitespace(
            #[trigger] rest[i],
        ) by {
            assert(rest[i] == s@[i + start]);
        }
        if n - end < rest.len() {
            assert(rest[rest.len() - (n - end) - 1] == s@[end - 1]);
        }
        lemma_trailing_whitespace(rest, n - end);
        assert(rest.take(rest.len() - (n - end)) =~= s@.subrange(start as int, end as int));
    }
    s.substring_char(start, end)
}

/// What follows the leading `prefix` in `s`, if `s` starts with it.
pub fn strip_prefix_char(s: &str, prefix: char) -> (r: Option<&str>)
    ensures
        r.is_some() == starts_with_char(s@, prefix),
        r matches Some(rest) ==> rest@ == s@.drop_first(),
{
    let n = s.unicode_len();
    if n > 0 && s.get_char(0) == prefix {
        let rest = s.substring_char(1, n);
        assert(rest@ =~= s@.drop_first());
        Some(rest)
    } else {
        None
    }
}

/// Whether the two texts hold the same characters.
pub fn same_text(a: &str, b: &str) -> (r: bool)
    ensures
        r == (a@ == b@),
{
    let left = String::from_str(a);
    let right = String::from_str(b);
    left == right
}

} // verus!
