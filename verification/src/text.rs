//! Character-level helpers shared by the file-name and header parsers.
//!
//! Strings are specified through their view, a `Seq<char>`. The executable
//! helpers read a string once into a `Vec<char>` and cut results out of the
//! string itself with character indices.

use vstd::prelude::*;
use vstd::string::StrSliceExecFns;

verus! {

/// Whether `s` begins with `p`.
pub open spec fn has_prefix(s: Seq<char>, p: Seq<char>) -> bool {
    p.len() <= s.len() && s.subrange(0, p.len() as int) == p
}

/// Whether `s` ends with `p`.
pub open spec fn has_suffix(s: Seq<char>, p: Seq<char>) -> bool {
    p.len() <= s.len() && s.subrange(s.len() - p.len(), s.len() as int) == p
}

/// Position of the last `c` in `s`, or -1 when `s` holds no `c`.
pub open spec fn last_index_of(s: Seq<char>, c: char) -> int
    decreases s.len(),
{
    if s.len() == 0 {
        -1
    } else if s.last() == c {
        s.len() - 1
    } else {
        last_index_of(s.drop_last(), c)
    }
}

/// Position of the first `c` in `s`, or `s.len()` when `s` holds no `c`.
pub open spec fn first_index_of(s: Seq<char>, c: char) -> int
    decreases s.len(),
{
    if s.len() == 0 {
        0
    } else if s[0] == c {
        0
    } else {
        1 + first_index_of(s.drop_first(), c)
    }
}

/// What follows the last `c` in `s`; all of `s` when it holds no `c`.
pub open spec fn after_last(s: Seq<char>, c: char) -> Seq<char> {
    s.skip(last_index_of(s, c) + 1)
}

/// How many copies of `c` stand at the front of `s`.
pub open spec fn leading_run(s: Seq<char>, c: char) -> nat
    decreases s.len(),
{
    if s.len() > 0 && s[0] == c {
        1 + leading_run(s.drop_first(), c)
    } else {
        0
    }
}

/// How many copies of `c` stand at the end of `s`.
pub open spec fn trailing_run(s: Seq<char>, c: char) -> nat
    decreases s.len(),
{
    if s.len() > 0 && s.last() == c {
        1 + trailing_run(s.drop_last(), c)
    } else {
        0
    }
}

/// `s` without the copies of `c` at its front and at its end.
pub open spec fn trim_matches(s: Seq<char>, c: char) -> Seq<char> {
    if leading_run(s, c) == s.len() {
        Seq::empty()
    } else {
        s.subrange(leading_run(s, c) as int, s.len() - trailing_run(s, c))
    }
}

/// `last_index_of` is the one position that holds `c` and has no `c` after it.
pub proof fn lemma_last_index_of(s: Seq<char>, c: char, r: int)
    requires
        -1 <= r < s.len(),
        r >= 0 ==> s[r] == c,
        forall|k: int| r < k < s.len() ==> s[k] != c,
    ensures
        last_index_of(s, c) == r,
    decreases s.len(),
{
    if s.len() > 0 && s.last() != c {
        lemma_last_index_of(s.drop_last(), c, r);
    }
}

/// `first_index_of` is the one position that holds `c` and has no `c` before it.
pub proof fn lemma_first_index_of(s: Seq<char>, c: char, r: int)
    requires
        0 <= r <= s.len(),
        r < s.len() ==> s[r] == c,
        forall|k: int| 0 <= k < r ==> s[k] != c,
    ensures
        first_index_of(s, c) == r,
    decreases s.len(),
{
    if s.len() > 0 && s[0] != c {
        assert forall|k: int| 0 <= k < r - 1 implies s.drop_first()[k] != c by {
            assert(s.drop_first()[k] == s[k + 1]);
        }
        lemma_first_index_of(s.drop_first(), c, r - 1);
    }
}

/// `leading_run` is the length of the longest prefix made of `c` alone.
pub proof fn lemma_leading_run(s: Seq<char>, c: char, n: int)
    requires
        0 <= n <= s.len(),
        forall|k: int| 0 <= k < n ==> s[k] == c,
        n < s.len() ==> s[n] != c,
    ensures
        leading_run(s, c) == n,
    decreases s.len(),
{
    if n > 0 {
        assert forall|k: int| 0 <= k < n - 1 implies s.drop_first()[k] == c by {
            assert(s.drop_first()[k] == s[k + 1]);
        }
        lemma_leading_run(s.drop_first(), c, n - 1);
    }
}

/// `trailing_run` is the length of the longest suffix made of `c` alone.
pub proof fn lemma_trailing_run(s: Seq<char>, c: char, n: int)
    requires
        0 <= n <= s.len(),
        forall|k: int| s.len() - n <= k < s.len() ==> s[k] == c,
        n < s.len() ==> s[s.len() - n - 1] != c,
    ensures
        trailing_run(s, c) == n,
    decreases s.len(),
{
    if n > 0 {
        lemma_trailing_run(s.drop_last(), c, n - 1);
    }
}

/// The characters of `s`, in order.
pub(crate) fn chars_of(s: &str) -> (out: Vec<char>)
    ensures
        out@ == s@,
{
    broadcast use vstd::string::group_string_axioms;

    let mut out: Vec<char> = Vec::new();
    let chars = s.chars();
    for c in it: chars
        invariant
            it.seq() == s@,
            out@ == it.history(),
    {
        out.push(c);
    }
    out
}

/// The characters of `s` from position `from` up to position `to`, as a string
/// of their own. `chars` holds the characters of `s`.
pub(crate) fn cut(s: &str, chars: &Vec<char>, from: usize, to: usize) -> (out: String)
    requires
        chars@ == s@,
        from <= to <= chars.len(),
    ensures
        out@ == s@.subrange(from as int, to as int),
{
    s.substring_char(from, to).to_owned()
}

/// Finds the last `c` among `chars`.
pub(crate) fn find_last(chars: &Vec<char>, c: char) -> (r: Option<usize>)
    ensures
        match r {
            Some(i) => i < chars.len() && i as int == last_index_of(chars@, c),
            None => last_index_of(chars@, c) == -1,
        },
{
    let mut i: usize = chars.len();
    while i > 0
        invariant
            i <= chars.len(),
            forall|k: int| i <= k < chars.len() ==> chars@[k] != c,
        decreases i,
    {
        if chars[i - 1] == c {
            proof {
                lemma_last_index_of(chars@, c, i - 1);
            }
            return Some(i - 1);
        }
        i = i - 1;
    }
    proof {
        lemma_last_index_of(chars@, c, -1);
    }
    None
}

/// Finds the first `c` among the characters of `chars` from position `from` up
/// to position `to`; the result is counted from `from`, and is `to - from`
/// when there is none.
pub(crate) fn find_first_in(chars: &Vec<char>, from: usize, to: usize, c: char) -> (r: usize)
    requires
        from <= to <= chars.len(),
    ensures
        r as int == first_index_of(chars@.subrange(from as int, to as int), c),
        from + r <= to,
{
    let ghost part = chars@.subrange(from as int, to as int);
    let mut i: usize = from;
    while i < to && chars[i] != c
        invariant
            from <= i <= to <= chars.len(),
            part == chars@.subrange(from as int, to as int),
            forall|k: int| 0 <= k < i - from ==> part[k] != c,
        decreases to - i,
    {
        i = i + 1;
    }
    proof {
        lemma_first_index_of(part, c, i - from);
    }
    i - from
}

/// Whether the characters `chars` begin with `p`.
pub(crate) fn starts_with(chars: &Vec<char>, p: &Vec<char>) -> (r: bool)
    ensures
        r == has_prefix(chars@, p@),
{
    if p.len() > chars.len() {
        return false;
    }
    let mut i: usize = 0;
    while i < p.len()
        invariant
            i <= p.len() <= chars.len(),
            forall|k: int| 0 <= k < i ==> chars@[k] == p@[k],
        decreases p.len() - i,
    {
        if chars[i] != p[i] {
            assert(chars@.subrange(0, p.len() as int)[i as int] != p@[i as int]);
            return false;
        }
        i = i + 1;
    }
    assert(chars@.subrange(0, p.len() as int) =~= p@);
    true
}

/// Whether the characters `chars` end with `p`.
pub(crate) fn ends_with(chars: &Vec<char>, p: &Vec<char>) -> (r: bool)
    ensures
        r == has_suffix(chars@, p@),
{
    if p.len() > chars.len() {
        return false;
    }
    let base: usize = chars.len() - p.len();
    let mut i: usize = 0;
    while i < p.len()
        invariant
            i <= p.len() <= chars.len(),
            base == chars.len() - p.len(),
            forall|k: int| 0 <= k < i ==> chars@[base + k] == p@[k],
        decreases p.len() - i,
    {
        if chars[base + i] != p[i] {
            assert(chars@.subrange(base as int, chars.len() as int)[i as int] != p@[i as int]);
            return false;
        }
        i = i + 1;
    }
    assert(chars@.subrange(base as int, chars.len() as int) =~= p@);
    true
}

/// The text of `s` after its last `c`.
pub fn text_after_last(s: &str, c: char) -> (out: String)
    ensures
        out@ == after_last(s@, c),
{
    let chars = chars_of(s);
    let from: usize = match find_last(&chars, c) {
        Some(i) => i + 1,
        None => 0,
    };
    cut(s, &chars, from, chars.len())
}

/// The text of `s` without the copies of `c` at its front and at its end.
pub fn text_trimmed(s: &str, c: char) -> (out: String)
    ensures
        out@ == trim_matches(s@, c),
{
    let chars = chars_of(s);
    let n: usize = chars.len();
    let mut a: usize = 0;
    while a < n && chars[a] == c
        invariant
            a <= n == chars.len(),
            forall|k: int| 0 <= k < a ==> chars@[k] == c,
        decreases n - a,
    {
        a = a + 1;
    }
    proof {
        lemma_leading_run(chars@, c, a as int);
    }
    if a == n {
        return cut(s, &chars, 0, 0);
    }
    let mut b: usize = n;
    while b > a + 1 && chars[b - 1] == c
        invariant
            a < b <= n == chars.len(),
            chars@[a as int] != c,
            forall|k: int| b <= k < n ==> chars@[k] == c,
        decreases b,
    {
        b = b - 1;
    }
    proof {
        lemma_trailing_run(chars@, c, n - b);
    }
    cut(s, &chars, a, b)
}

} // verus!
