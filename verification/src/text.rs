use vstd::prelude::*;

verus! {

/// Whether `c` has the Unicode property White_Space.
pub open spec fn is_white_space(c: char) -> bool {
    ||| '\u{9}' <= c <= '\u{d}'
    ||| c == ' '
    ||| c == '\u{85}'
    ||| c == '\u{a0}'
    ||| c == '\u{1680}'
    ||| '\u{2000}' <= c <= '\u{200a}'
    ||| c == '\u{2028}'
    ||| c == '\u{2029}'
    ||| c == '\u{202f}'
    ||| c == '\u{205f}'
    ||| c == '\u{3000}'
}

/// The index of the first character of `s` at or after `from` that is not white space,
/// or the length of `s` if there is none.
pub open spec fn first_kept(s: Seq<char>, from: int) -> int
    decreases s.len() - from,
{
    if 0 <= from < s.len() && is_white_space(s[from]) {
        first_kept(s, from + 1)
    } else {
        from
    }
}

/// One past the index of the last character of `s` in `start..to` that is not white
/// space, or `start` if there is none.
pub open spec fn last_kept(s: Seq<char>, start: int, to: int) -> int
    decreases to,
{
    if 0 <= start < to <= s.len() && is_white_space(s[to - 1]) {
        last_kept(s, start, to - 1)
    } else {
        to
    }
}

/// `s` without its leading and trailing white space.
pub open spec fn trimmed(s: Seq<char>) -> Seq<char> {
    let start = first_kept(s, 0);
    s.subrange(start, last_kept(s, start, s.len() as int))
}

/// The text that `str::to_lowercase` gives for `s`.
pub uninterp spec fn lowercased(s: Seq<char>) -> Seq<char>;

/// Calls `str::to_lowercase`, which maps each character by the Unicode lower case
/// tables. The contract names the result.
#[verifier::external_body]
pub(crate) fn lowercase(s: &str) -> (r: String)
    ensures
        r@ == lowercased(s@),
{
    s.to_lowercase()
}

/// Whether `c` is white space.
pub fn white_space(c: char) -> (r: bool)
    ensures
        r == is_white_space(c),
{
    ('\u{9}' <= c && c <= '\u{d}') || c == ' ' || c == '\u{85}' || c == '\u{a0}' || c
        == '\u{1680}' || ('\u{2000}' <= c && c <= '\u{200a}') || c == '\u{2028}' || c
        == '\u{2029}' || c == '\u{202f}' || c == '\u{205f}' || c == '\u{3000}'
}

/// Removes leading and trailing white space.
pub fn trim(s: &str) -> (r: String)
    ensures
        r@ == trimmed(s@),
{
    let n: usize = s.unicode_len();
    let mut start: usize = 0;
    while start < n && white_space(s.get_char(start))
        invariant
            n == s@.len(),
            start <= n,
            first_kept(s@, 0) == first_kept(s@, start as int),
        decreases n - start,
    {
        start = start + 1;
    }
    let mut end: usize = n;
    while start < end && white_space(s.get_char(end - 1))
        invariant
            n == s@.len(),
            start <= end <= n,
            last_kept(s@, start as int, n as int) == last_kept(s@, start as int, end as int),
        decreases end,
    {
        end = end - 1;
    }
    String::from_str(s.substring_char(start, end))
}

/// What trimming keeps: one stretch of the text, with nothing but white space before
/// and after it, that neither begins nor ends with white space.
pub proof fn law_trimmed_bounds(s: Seq<char>)
    ensures
        ({
            let start = first_kept(s, 0);
            let end = last_kept(s, start, s.len() as int);
            &&& 0 <= start <= end <= s.len()
            &&& trimmed(s) == s.subrange(start, end)
            &&& forall|i: int| 0 <= i < start ==> is_white_space(s[i])
            &&& forall|i: int| end <= i < s.len() ==> is_white_space(s[i])
            &&& start < end ==> !is_white_space(s[start]) && !is_white_space(s[end - 1])
        }),
{
    lemma_first_kept(s, 0);
    let start = first_kept(s, 0);
    lemma_last_kept(s, start, s.len() as int);
}

/// Trimming twice trims no more than trimming once.
pub proof fn law_trim_idempotent(s: Seq<char>)
    ensures
        trimmed(trimmed(s)) == trimmed(s),
{
    law_trimmed_bounds(s);
    let t = trimmed(s);
    let start = first_kept(s, 0);
    let end = last_kept(s, start, s.len() as int);
    if start < end {
        assert(t[0] == s[start]);
        assert(t[t.len() - 1] == s[end - 1]);
        assert(first_kept(t, 0) == 0);
        assert(last_kept(t, 0, t.len() as int) == t.len());
    } else {
        assert(t.len() == 0);
        assert(first_kept(t, 0) == 0);
        assert(last_kept(t, 0, 0) == 0);
    }
    assert(trimmed(t) =~= t);
}

proof fn lemma_first_kept(s: Seq<char>, from: int)
    requires
        0 <= from <= s.len(),
    ensures
        from <= first_kept(s, from) <= s.len(),
        forall|i: int| from <= i < first_kept(s, from) ==> is_white_space(s[i]),
        first_kept(s, from) < s.len() ==> !is_white_space(s[first_kept(s, from)]),
    decreases s.len() - from,
{
    if from < s.len() && is_white_space(s[from]) {
        lemma_first_kept(s, from + 1);
    }
}

proof fn lemma_last_kept(s: Seq<char>, start: int, to: int)
    requires
        0 <= start <= to <= s.len(),
    ensures
        start <= last_kept(s, start, to) <= to,
        forall|i: int| last_kept(s, start, to) <= i < to ==> is_white_space(s[i]),
        start < last_kept(s, start, to) ==> !is_white_space(s[last_kept(s, start, to) - 1]),
    decreases to,
{
    if start < to && is_white_space(s[to - 1]) {
        lemma_last_kept(s, start, to - 1);
    }
}

/// Whether two texts are the same.
pub fn same_text(a: &str, b: &str) -> (r: bool)
    ensures
        r == (a@ == b@),
{
    String::from_str(a) == String::from_str(b)
}

} // verus!
