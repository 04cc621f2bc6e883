//! Splitting a text at the last occurrence of a separator.

use vstd::prelude::*;

verus! {

/// Where the part of `s` behind its last `sep` starts: 0 where `s` holds no
/// `sep`.
pub open spec fn tail_start(s: Seq<char>, sep: char) -> int
    decreases s.len(),
{
    if s.len() == 0 {
        0
    } else if s.last() == sep {
        s.len() as int
    } else {
        tail_start(s.drop_last(), sep)
    }
}

/// The part of `s` behind its last `sep`: all of `s` where it holds none.
pub open spec fn tail_after(s: Seq<char>, sep: char) -> Seq<char> {
    s.subrange(tail_start(s, sep), s.len() as int)
}

/// `tail_start` lies in `s`, has no `sep` behind it, and a `sep` right in
/// front of it unless it is 0; it is 0 exactly where `s` holds no `sep`.
pub proof fn lemma_tail_start(s: Seq<char>, sep: char)
    ensures
        0 <= tail_start(s, sep) <= s.len(),
        forall|j: int| tail_start(s, sep) <= j < s.len() ==> s[j] != sep,
        tail_start(s, sep) > 0 ==> s[tail_start(s, sep) - 1] == sep,
        (tail_start(s, sep) > 0) == s.contains(sep),
        !tail_after(s, sep).contains(sep),
    decreases s.len(),
{
    if s.len() > 0 && s.last() != sep {
        let init = s.drop_last();
        lemma_tail_start(init, sep);
        assert forall|j: int| tail_start(s, sep) <= j < s.len() implies s[j] != sep by {
            if j < init.len() {
                assert(init[j] == s[j]);
            }
        }
        if tail_start(s, sep) > 0 {
            assert(init[tail_start(init, sep) - 1] == s[tail_start(s, sep) - 1]);
        }
    }
    let start = tail_start(s, sep);
    if start > 0 {
        assert(s[start - 1] == sep);
    } else if s.contains(sep) {
        let i = choose|i: int| 0 <= i < s.len() && s[i] == sep;
        assert(s[i] != sep);
    }
    if tail_after(s, sep).contains(sep) {
        let i = choose|i: int| 0 <= i < tail_after(s, sep).len() && tail_after(s, sep)[i] == sep;
        assert(s[start + i] != sep);
    }
}

/// A position with the first three of those properties is `tail_start`.
pub proof fn lemma_tail_start_unique(s: Seq<char>, sep: char, start: int)
    requires
        0 <= start <= s.len(),
        forall|j: int| start <= j < s.len() ==> s[j] != sep,
        start > 0 ==> s[start - 1] == sep,
    ensures
        start == tail_start(s, sep),
{
    lemma_tail_start(s, sep);
    let other = tail_start(s, sep);
    if start < other {
        assert(s[other - 1] == sep);
    } else if other < start {
        assert(s[start - 1] == sep);
    }
}

/// Whether `s` holds a `sep`, and the part of `s` behind the last one.
pub fn split_last<'a>(s: &'a str, sep: char) -> (r: (bool, &'a str))
    ensures
        r.0 == s@.contains(sep),
        r.1@ == tail_after(s@, sep),
{
    let n: usize = s.unicode_len();
    let mut start: usize = 0;
    let mut idx: usize = 0;
    for c in it: s.chars()
        invariant
            idx == it.index(),
            it.seq() == s@,
            n == s@.len(),
            start <= idx,
            forall|j: int| start <= j < idx ==> s@[j] != sep,
            start > 0 ==> s@[start - 1] == sep,
    {
        idx = idx + 1;
        if c == sep {
            start = idx;
        }
    }
    proof {
        lemma_tail_start_unique(s@, sep, start as int);
        lemma_tail_start(s@, sep);
    }
    (start > 0, s.substring_char(start, n))
}

} // verus!
