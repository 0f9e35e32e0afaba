use vstd::prelude::*;

verus! {

/// `pattern` occurs in `text` as a contiguous run of characters.
pub open spec fn contains_infix(text: Seq<char>, pattern: Seq<char>) -> bool {
    exists|i: int|
        0 <= i && i + pattern.len() <= text.len() && #[trigger] text.subrange(
            i,
            i + pattern.len(),
        ) == pattern
}

/// `pattern` matches `text` character by character from position `start` on.
pub open spec fn occurs_at(text: Seq<char>, pattern: Seq<char>, start: int) -> bool {
    &&& 0 <= start
    &&& start + pattern.len() <= text.len()
    &&& forall|j: int| 0 <= j < pattern.len() ==> text[start + j] == pattern[j]
}

/// `contains_infix` holds exactly when the pattern matches the text,
/// character by character, from some position on.
pub proof fn lemma_contains_infix_pointwise(text: Seq<char>, pattern: Seq<char>)
    ensures
        contains_infix(text, pattern) <==> exists|start: int| #[trigger]
            occurs_at(text, pattern, start),
{
    if contains_infix(text, pattern) {
        let i = choose|i: int|
            0 <= i && i + pattern.len() <= text.len() && #[trigger] text.subrange(
                i,
                i + pattern.len(),
            ) == pattern;
        assert forall|j: int| 0 <= j < pattern.len() implies text[i + j] == pattern[j] by {
            assert(text.subrange(i, i + pattern.len())[j] == text[i + j]);
        }
        assert(occurs_at(text, pattern, i));
    }
    if exists|start: int| #[trigger] occurs_at(text, pattern, start) {
        let i = choose|start: int| #[trigger] occurs_at(text, pattern, start);
        assert(text.subrange(i, i + pattern.len()) =~= pattern);
    }
}

/// A pattern found in `text` is still found once text is added on either
/// side.
pub proof fn lemma_contains_infix_in_context(
    prefix: Seq<char>,
    text: Seq<char>,
    suffix: Seq<char>,
    pattern: Seq<char>,
)
    requires
        contains_infix(text, pattern),
    ensures
        contains_infix(prefix + text + suffix, pattern),
{
    lemma_contains_infix_pointwise(text, pattern);
    lemma_contains_infix_pointwise(prefix + text + suffix, pattern);
    let i = choose|start: int| #[trigger] occurs_at(text, pattern, start);
    let whole = prefix + text + suffix;
    let k = prefix.len() + i;
    assert forall|j: int| 0 <= j < pattern.len() implies whole[k + j] == pattern[j] by {
        assert(whole[k + j] == text[i + j]);
    }
    assert(occurs_at(whole, pattern, k));
}

/// The characters of `s`, in order.
pub fn chars_of(s: &str) -> (chars: Vec<char>)
    ensures
        chars@ == s@,
{
    broadcast use vstd::string::axiom_spec_iter;

    let mut chars: Vec<char> = Vec::new();
    for c in it: s.chars()
        invariant
            it.seq() == s@,
            chars@ == it.seq().take(it.index() as int),
    {
        chars.push(c);
    }
    chars
}

/// Whether `pattern` occurs in `text`.
pub fn has_infix(text: &Vec<char>, pattern: &Vec<char>) -> (found: bool)
    ensures
        found == contains_infix(text@, pattern@),
{
    let n: usize = text.len();
    let m: usize = pattern.len();
    if m > n {
        return false;
    }
    let mut i: usize = 0;
    while i <= n - m
        invariant
            n == text@.len(),
            m == pattern@.len(),
            m <= n,
            i <= n - m + 1,
            forall|k: int| 0 <= k < i ==> #[trigger] text@.subrange(k, k + m) != pattern@,
        decreases n - m + 1 - i,
    {
        let mut j: usize = 0;
        let mut matched: bool = true;
        while j < m
            invariant
                n == text@.len(),
                m == pattern@.len(),
                i + m <= n,
                j <= m,
                matched <==> forall|t: int| 0 <= t < j ==> text@[i + t] == pattern@[t],
            decreases m - j,
        {
            if text[i + j] != pattern[j] {
                matched = false;
            }
            j = j + 1;
        }
        if matched {
            assert(text@.subrange(i as int, i + m) =~= pattern@);
            return true;
        }
        proof {
            let t = choose|t: int| 0 <= t < m && text@[i + t] != pattern@[t];
            assert(text@.subrange(i as int, i + m)[t] != pattern@[t]);
        }
        i = i + 1;
    }
    false
}

} // verus!
