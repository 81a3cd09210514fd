//! Small verified operations on text.
use vstd::prelude::*;
use vstd::string::StrSliceExecFns;
use vstd::string::StringExecFns;

verus! {

/// Whether `pattern` occurs in `text` as a run of consecutive characters.
pub open spec fn contains_text(text: Seq<char>, pattern: Seq<char>) -> bool {
    exists|i: int| 0 <= i && i + pattern.len() <= text.len() && #[trigger] text.subrange(i, i + pattern.len()) == pattern
}

/// The characters of `s`, in order.
pub fn chars_of(s: &str) -> (chars: Vec<char>)
    ensures
        chars@ == s@,
{
    let n = s.unicode_len();
    let mut chars: Vec<char> = Vec::new();
    let mut i: usize = 0;
    while i < n
        invariant
            n == s@.len(),
            i <= n,
            chars@ == s@.take(i as int),
        decreases n - i,
    {
        chars.push(s.get_char(i));
        i = i + 1;
        assert(chars@ =~= s@.take(i as int));
    }
    assert(s@.take(n as int) =~= s@);
    chars
}

/// Whether `pattern` occurs in `text`.
pub fn text_contains(text: &str, pattern: &str) -> (found: bool)
    ensures
        found == contains_text(text@, pattern@),
{
    let t = chars_of(text);
    let p = chars_of(pattern);
    let tn = t.len();
    let pn = p.len();
    if pn > tn {
        assert forall|i: int| 0 <= i && i + pattern@.len() <= text@.len() implies #[trigger] text@.subrange(
            i,
            i + pattern@.len(),
        ) != pattern@ by {};
        return false;
    }
    let mut start: usize = 0;
    while start <= tn - pn
        invariant
            t@ == text@,
            p@ == pattern@,
            tn == t@.len(),
            pn == p@.len(),
            pn <= tn,
            start <= tn - pn + 1,
            forall|i: int| 0 <= i < start ==> #[trigger] text@.subrange(i, i + pattern@.len()) != pattern@,
        decreases tn - pn + 1 - start,
    {
        let mut k: usize = 0;
        let mut matched = true;
        while k < pn
            invariant
                t@ == text@,
                p@ == pattern@,
                tn == t@.len(),
                pn == p@.len(),
                start + pn <= tn,
                k <= pn,
                matched == (forall|j: int| 0 <= j < k ==> t@[start + j] == p@[j]),
            decreases pn - k,
        {
            if t[start + k] != p[k] {
                matched = false;
            }
            k = k + 1;
        }
        if matched {
            assert(text@.subrange(start as int, start + pattern@.len()) =~= pattern@);
            return true;
        }
        assert(text@.subrange(start as int, start + pattern@.len()) != pattern@) by {
            let j = choose|j: int| 0 <= j < pn && t@[start + j] != p@[j];
            assert(text@.subrange(start as int, start + pattern@.len())[j] != pattern@[j]);
        };
        start = start + 1;
    }
    false
}

/// Whether `s` reads exactly `literal`.
pub fn text_is(s: &String, literal: &str) -> (same: bool)
    ensures
        same == (s@ == literal@),
{
    let expected = String::from_str(literal);
    *s == expected
}

/// `prefix` followed by `rest`.
pub fn joined(prefix: &str, rest: &str) -> (s: String)
    ensures
        s@ == prefix@ + rest@,
{
    let mut s = String::from_str(prefix);
    s.append(rest);
    s
}

} // verus!
