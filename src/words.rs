//! Whitespace and words of a command line.
use vstd::prelude::*;

verus! {

/// The characters with the Unicode `White_Space` property, which is what
/// `char::is_whitespace` tests.
pub open spec fn is_space(c: char) -> bool {
    c == ' ' || ('\t' <= c && c <= '\r') || c == '\u{85}' || c == '\u{a0}' || c == '\u{1680}' || (
    '\u{2000}' <= c && c <= '\u{200a}') || c == '\u{2028}' || c == '\u{2029}' || c == '\u{202f}'
        || c == '\u{205f}' || c == '\u{3000}'
}

/// Whether `c` is white space.
pub fn is_space_exec(c: char) -> (r: bool)
    ensures
        r == is_space(c),
{
    c == ' ' || ('\t' <= c && c <= '\r') || c == '\u{85}' || c == '\u{a0}' || c == '\u{1680}' || (
    '\u{2000}' <= c && c <= '\u{200a}') || c == '\u{2028}' || c == '\u{2029}' || c == '\u{202f}'
        || c == '\u{205f}' || c == '\u{3000}'
}

/// `s` without its leading white space.
pub open spec fn skip_space(s: Seq<char>) -> Seq<char>
    decreases s.len(),
{
    if s.len() > 0 && is_space(s[0]) {
        skip_space(s.drop_first())
    } else {
        s
    }
}

/// The characters of `s` before its first white space.
pub open spec fn leading_word(s: Seq<char>) -> Seq<char>
    decreases s.len(),
{
    if s.len() == 0 || is_space(s[0]) {
        Seq::empty()
    } else {
        seq![s[0]] + leading_word(s.drop_first())
    }
}

/// The first whitespace-separated word of `s`; empty when `s` has none.
pub open spec fn first_word(s: Seq<char>) -> Seq<char> {
    leading_word(skip_space(s))
}

/// The whitespace-separated words of `s`, in order.
pub open spec fn words(s: Seq<char>) -> Seq<Seq<char>>
    decreases s.len(),
    via words_decreases
{
    let t = skip_space(s);
    if t.len() == 0 {
        Seq::empty()
    } else {
        let w = leading_word(t);
        seq![w] + words(t.skip(w.len() as int))
    }
}

#[via_fn]
proof fn words_decreases(s: Seq<char>) {
    lemma_word_bounds(s);
}

/// The leading white space and the word after it account for part of `s`.
pub proof fn lemma_word_bounds(s: Seq<char>)
    ensures
        skip_space(s).len() <= s.len(),
        leading_word(skip_space(s)).len() <= skip_space(s).len(),
        skip_space(s).len() > 0 ==> leading_word(skip_space(s)).len() > 0,
    decreases s.len(),
{
    if s.len() > 0 && is_space(s[0]) {
        lemma_word_bounds(s.drop_first());
    } else {
        lemma_leading_word_len(s);
    }
}

proof fn lemma_leading_word_len(s: Seq<char>)
    ensures
        leading_word(s).len() <= s.len(),
        s.len() > 0 && !is_space(s[0]) ==> leading_word(s).len() > 0,
    decreases s.len(),
{
    if s.len() > 0 && !is_space(s[0]) {
        lemma_leading_word_len(s.drop_first());
    }
}

/// Skipping the white space before position `i`, where `i` is where it ends.
proof fn lemma_skip_space_at(s: Seq<char>, i: int)
    requires
        0 <= i <= s.len(),
        forall|j: int| 0 <= j < i ==> is_space(#[trigger] s[j]),
        i == s.len() || !is_space(s[i]),
    ensures
        skip_space(s) == s.skip(i),
    decreases i,
{
    if i > 0 {
        lemma_skip_space_at(s.drop_first(), i - 1);
        assert(s.drop_first().skip(i - 1) =~= s.skip(i));
    } else {
        assert(s.skip(0) =~= s);
    }
}

/// The word of `s` that ends at position `k`, the first white space or the end.
proof fn lemma_leading_word_at(s: Seq<char>, k: int)
    requires
        0 <= k <= s.len(),
        forall|j: int| 0 <= j < k ==> !is_space(#[trigger] s[j]),
        k == s.len() || is_space(s[k]),
    ensures
        leading_word(s) == s.take(k),
    decreases k,
{
    if k > 0 {
        lemma_leading_word_at(s.drop_first(), k - 1);
        assert(seq![s[0]] + s.drop_first().take(k - 1) =~= s.take(k));
    } else {
        assert(s.take(0) =~= Seq::<char>::empty());
    }
}

/// Positions in `s` at which the words starting at `from` begin and end:
/// the first non-space at or after `from`, and the first space after that.
pub fn word_span(s: &str, n: usize, from: usize) -> (r: (usize, usize))
    requires
        n == s@.len(),
        from <= n,
    ensures
        from <= r.0 <= r.1 <= n,
        skip_space(s@.skip(from as int)) == s@.skip(r.0 as int),
        leading_word(s@.skip(r.0 as int)) == s@.subrange(r.0 as int, r.1 as int),
{
    let mut i = from;
    while i < n && is_space_exec(s.get_char(i))
        invariant
            n == s@.len(),
            from <= i <= n,
            forall|j: int| from <= j < i ==> is_space(#[trigger] s@[j]),
        decreases n - i,
    {
        i = i + 1;
    }
    let mut k = i;
    while k < n && !is_space_exec(s.get_char(k))
        invariant
            n == s@.len(),
            i <= k <= n,
            forall|j: int| i <= j < k ==> !is_space(#[trigger] s@[j]),
        decreases n - k,
    {
        k = k + 1;
    }
    proof {
        let t = s@.skip(from as int);
        assert forall|j: int| 0 <= j < i - from implies is_space(#[trigger] t[j]) by {
            assert(t[j] == s@[from + j]);
        }
        lemma_skip_space_at(t, i - from);
        assert(t.skip(i - from) =~= s@.skip(i as int));
        let u = s@.skip(i as int);
        assert forall|j: int| 0 <= j < k - i implies !is_space(#[trigger] u[j]) by {
            assert(u[j] == s@[i + j]);
        }
        lemma_leading_word_at(u, k - i);
        assert(u.take(k - i) =~= s@.subrange(i as int, k as int));
    }
    (i, k)
}

/// The first whitespace-separated word of `s`.
pub fn first_word_of(s: &str) -> (r: String)
    ensures
        r@ == first_word(s@),
{
    let n = s.unicode_len();
    let (a, b) = word_span(s, n, 0);
    assert(s@.skip(0) =~= s@);
    s.substring_char(a, b).to_string()
}

} // verus!
