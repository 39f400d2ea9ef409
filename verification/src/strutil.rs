//! Character-level string operations used by the rest of the crate:
//! prefix and substring tests, segment extraction around a separator
//! character, and splitting into lines.
//!
//! Every executable function here carries an exact contract over the
//! `Seq<char>` view of its arguments.
use vstd::prelude::*;
use vstd::string::StrSliceExecFns;
use vstd::string::StringExecFns;

verus! {

/// The characters of `s` starting at `i` spell out `sub`.
pub open spec fn matches_at(s: Seq<char>, sub: Seq<char>, i: int) -> bool {
    0 <= i && i + sub.len() <= s.len() && s.subrange(i, i + sub.len() as int) == sub
}

/// `sub` occurs somewhere in `s`.
pub open spec fn has_substring(s: Seq<char>, sub: Seq<char>) -> bool {
    exists|i: int| matches_at(s, sub, i)
}

/// `p` is a prefix of `s`.
pub open spec fn is_prefix_of(p: Seq<char>, s: Seq<char>) -> bool {
    matches_at(s, p, 0)
}

/// How many times `c` occurs in `s`.
pub open spec fn count_char(s: Seq<char>, c: char) -> nat
    decreases s.len(),
{
    if s.len() == 0 {
        0
    } else {
        (if s.first() == c {
            1nat
        } else {
            0nat
        }) + count_char(s.drop_first(), c)
    }
}

/// Index of the first occurrence of `c` in `s` (meaningful only when `c` occurs).
pub open spec fn first_index(s: Seq<char>, c: char) -> int
    decreases s.len(),
{
    if s.len() == 0 {
        0
    } else if s.first() == c {
        0
    } else {
        1 + first_index(s.drop_first(), c)
    }
}

/// The characters after the last occurrence of `sep`; all of `s` when
/// `sep` does not occur.
pub open spec fn last_segment(s: Seq<char>, sep: char) -> Seq<char>
    decreases s.len(),
{
    if s.len() == 0 {
        s
    } else if s.last() == sep {
        Seq::empty()
    } else {
        last_segment(s.drop_last(), sep).push(s.last())
    }
}

/// The characters before the first occurrence of `sep`; all of `s` when
/// `sep` does not occur.
pub open spec fn first_segment(s: Seq<char>, sep: char) -> Seq<char>
    decreases s.len(),
{
    if s.len() == 0 {
        s
    } else if s.first() == sep {
        Seq::empty()
    } else {
        seq![s.first()] + first_segment(s.drop_first(), sep)
    }
}

/// Splitting `s` on `sep`, processed up to position `i`, with the segment
/// currently being read in `cur` and the finished segments in `acc`.
pub open spec fn split_from(
    s: Seq<char>,
    sep: char,
    i: int,
    cur: Seq<char>,
    acc: Seq<Seq<char>>,
) -> Seq<Seq<char>>
    decreases s.len() - i,
{
    if i < 0 || i >= s.len() {
        acc.push(cur)
    } else if s[i] == sep {
        split_from(s, sep, i + 1, Seq::empty(), acc.push(cur))
    } else {
        split_from(s, sep, i + 1, cur.push(s[i]), acc)
    }
}

/// `s` split on `sep`: always one more segment than occurrences of `sep`.
pub open spec fn split_on(s: Seq<char>, sep: char) -> Seq<Seq<char>> {
    split_from(s, sep, 0, Seq::empty(), Seq::empty())
}

/// Relies on std's `String::push`: appends exactly the one character.
#[verifier::external_body]
pub fn push_char(s: &mut String, c: char)
    ensures
        final(s)@ == old(s)@ + seq![c],
{
    s.push(c);
}

/// Character-for-character comparison of `sub` against `s` at offset `i`.
fn match_at(s: &str, sub: &str, i: usize) -> (r: bool)
    requires
        i + sub@.len() <= s@.len(),
        s@.len() <= usize::MAX,
    ensures
        r == matches_at(s@, sub@, i as int),
{
    let sub_len = sub.unicode_len();
    let mut j: usize = 0;
    while j < sub_len
        invariant
            i + sub@.len() <= s@.len() <= usize::MAX,
            sub_len == sub@.len(),
            j <= sub_len,
            forall|k: int| 0 <= k < j ==> s@[i + k] == sub@[k],
        decreases sub_len - j,
    {
        if s.get_char(i + j) != sub.get_char(j) {
            assert(s@.subrange(i as int, i + sub@.len() as int) != sub@) by {
                assert(s@.subrange(i as int, i + sub@.len() as int)[j as int] == s@[i + j]);
            }
            return false;
        }
        j += 1;
    }
    assert(s@.subrange(i as int, i + sub@.len() as int) =~= sub@);
    true
}

/// Are two strings equal character for character?
pub fn str_eq(a: &str, b: &str) -> (r: bool)
    ensures
        r == (a@ == b@),
{
    let n = a.unicode_len();
    let m = b.unicode_len();
    if n != m {
        return false;
    }
    let r = match_at(a, b, 0);
    proof {
        if r {
            assert(a@.subrange(0, b@.len() as int) =~= a@);
        } else {
            if a@ == b@ {
                assert(a@.subrange(0, b@.len() as int) =~= b@);
            }
        }
    }
    r
}

/// Does `s` start with `prefix`?
pub fn str_starts_with(s: &str, prefix: &str) -> (r: bool)
    ensures
        r == is_prefix_of(prefix@, s@),
{
    let n = s.unicode_len();
    let p = prefix.unicode_len();
    if p > n {
        false
    } else {
        match_at(s, prefix, 0)
    }
}

/// Does `sub` occur anywhere in `s`?
pub fn str_contains(s: &str, sub: &str) -> (r: bool)
    ensures
        r == has_substring(s@, sub@),
{
    let n = s.unicode_len();
    let m = sub.unicode_len();
    if m > n {
        return false;
    }
    if m == 0 {
        assert(matches_at(s@, sub@, 0)) by {
            assert(s@.subrange(0, 0) =~= sub@);
        }
        return true;
    }
    let mut i: usize = 0;
    loop
        invariant
            1 <= m <= n,
            n == s@.len(),
            m == sub@.len(),
            i <= n - m + 1,
            forall|k: int| 0 <= k < i ==> !matches_at(s@, sub@, k),
        decreases n - m + 1 - i,
    {
        if i > n - m {
            assert(forall|k: int| matches_at(s@, sub@, k) ==> 0 <= k <= n - m);
            return false;
        }
        if match_at(s, sub, i) {
            return true;
        }
        i += 1;
    }
}

/// The suffix of `s` after its last `sep`, or all of `s` if `sep` is absent.
pub fn str_last_segment(s: &str, sep: char) -> (r: String)
    ensures
        r@ == last_segment(s@, sep),
{
    let n = s.unicode_len();
    let mut i: usize = n;
    while i > 0
        invariant
            i <= n,
            n == s@.len(),
            forall|j: int| i <= j < n ==> s@[j] != sep,
        decreases i,
    {
        if s.get_char(i - 1) == sep {
            let seg = s.substring_char(i, n);
            proof {
                lemma_last_segment_found(s@, sep, i - 1);
            }
            return String::from_str(seg);
        }
        i -= 1;
    }
    proof {
        lemma_last_segment_absent(s@, sep);
    }
    String::from_str(s)
}

/// The prefix of `s` before its first `sep`, or all of `s` if `sep` is absent.
pub fn str_first_segment(s: &str, sep: char) -> (r: String)
    ensures
        r@ == first_segment(s@, sep),
{
    let n = s.unicode_len();
    let mut i: usize = 0;
    while i < n
        invariant
            i <= n,
            n == s@.len(),
            forall|j: int| 0 <= j < i ==> s@[j] != sep,
        decreases n - i,
    {
        if s.get_char(i) == sep {
            let seg = s.substring_char(0, i);
            proof {
                lemma_first_segment_found(s@, sep, i as int);
            }
            return String::from_str(seg);
        }
        i += 1;
    }
    proof {
        lemma_first_segment_absent(s@, sep);
    }
    String::from_str(s)
}

/// Split `s` into the segments between occurrences of `sep`.
pub fn str_split(s: &str, sep: char) -> (r: Vec<String>)
    ensures
        r.deep_view() == split_on(s@, sep),
{
    let n = s.unicode_len();
    let mut acc: Vec<String> = Vec::new();
    let mut cur: String = String::new();
    assert(acc.deep_view() =~= Seq::<Seq<char>>::empty());
    let mut i: usize = 0;
    while i < n
        invariant
            i <= n,
            n == s@.len(),
            split_on(s@, sep) == split_from(s@, sep, i as int, cur@, acc.deep_view()),
        decreases n - i,
    {
        let ghost pre_acc = acc.deep_view();
        let ghost pre_cur = cur@;
        let c = s.get_char(i);
        if c == sep {
            acc.push(cur);
            cur = String::new();
            assert(acc.deep_view() =~= pre_acc.push(pre_cur));
        } else {
            push_char(&mut cur, c);
            assert(cur@ =~= pre_cur.push(c));
        }
        i += 1;
    }
    let ghost pre_acc = acc.deep_view();
    let ghost pre_cur = cur@;
    acc.push(cur);
    assert(acc.deep_view() =~= pre_acc.push(pre_cur));
    acc
}

/// If `sep` occurs at `i` and nowhere later, the last segment is
/// everything after `i`.
pub proof fn lemma_last_segment_found(s: Seq<char>, sep: char, i: int)
    requires
        0 <= i < s.len(),
        s[i] == sep,
        forall|j: int| i < j < s.len() ==> s[j] != sep,
    ensures
        last_segment(s, sep) == s.subrange(i + 1, s.len() as int),
    decreases s.len(),
{
    if i == s.len() - 1 {
        assert(s.subrange(i + 1, s.len() as int) =~= Seq::empty());
    } else {
        let s0 = s.drop_last();
        lemma_last_segment_found(s0, sep, i);
        assert(s.subrange(i + 1, s.len() as int) =~= s0.subrange(i + 1, s0.len() as int).push(
            s.last(),
        ));
    }
}

proof fn lemma_last_segment_absent(s: Seq<char>, sep: char)
    requires
        forall|j: int| 0 <= j < s.len() ==> s[j] != sep,
    ensures
        last_segment(s, sep) == s,
    decreases s.len(),
{
    if s.len() > 0 {
        lemma_last_segment_absent(s.drop_last(), sep);
        assert(s.drop_last().push(s.last()) =~= s);
    }
}

proof fn lemma_first_segment_found(s: Seq<char>, sep: char, i: int)
    requires
        0 <= i < s.len(),
        s[i] == sep,
        forall|j: int| 0 <= j < i ==> s[j] != sep,
    ensures
        first_segment(s, sep) == s.subrange(0, i),
    decreases s.len(),
{
    if i == 0 {
        assert(s.subrange(0, 0) =~= Seq::<char>::empty());
    } else {
        let s0 = s.drop_first();
        assert(forall|j: int| 0 <= j < i - 1 ==> s0[j] == s[j + 1] && s0[j] != sep);
        lemma_first_segment_found(s0, sep, i - 1);
        assert(seq![s.first()] + s0.subrange(0, i - 1) =~= s.subrange(0, i));
    }
}

proof fn lemma_first_segment_absent(s: Seq<char>, sep: char)
    requires
        forall|j: int| 0 <= j < s.len() ==> s[j] != sep,
    ensures
        first_segment(s, sep) == s,
    decreases s.len(),
{
    if s.len() > 0 {
        let s0 = s.drop_first();
        assert(forall|j: int| 0 <= j < s0.len() ==> s0[j] == s[j + 1] && s0[j] != sep);
        lemma_first_segment_absent(s0, sep);
        assert(seq![s.first()] + s0 =~= s);
    }
}

/// If `c` occurs nowhere in `s`, its count is zero.
pub proof fn lemma_count_zero(s: Seq<char>, c: char)
    requires
        forall|j: int| 0 <= j < s.len() ==> s[j] != c,
    ensures
        count_char(s, c) == 0,
    decreases s.len(),
{
    if s.len() > 0 {
        let s0 = s.drop_first();
        assert(forall|j: int| 0 <= j < s0.len() ==> s0[j] == s[j + 1] && s0[j] != c);
        lemma_count_zero(s0, c);
    }
}

/// If `c` occurs at `i` and nowhere else, its count is one and `i` is the
/// first occurrence.
pub proof fn lemma_count_single(s: Seq<char>, c: char, i: int)
    requires
        0 <= i < s.len(),
        s[i] == c,
        forall|j: int| 0 <= j < s.len() && j != i ==> s[j] != c,
    ensures
        count_char(s, c) == 1,
        first_index(s, c) == i,
    decreases s.len(),
{
    let s0 = s.drop_first();
    if i == 0 {
        assert(forall|j: int| 0 <= j < s0.len() ==> s0[j] == s[j + 1] && s0[j] != c);
        lemma_count_zero(s0, c);
    } else {
        assert(forall|j: int| 0 <= j < s0.len() && j != i - 1 ==> s0[j] == s[j + 1] && s0[j] != c);
        assert(s0[i - 1] == c);
        lemma_count_single(s0, c, i - 1);
    }
}

/// An occurrence of `c` makes its count positive.
pub proof fn lemma_count_pos(s: Seq<char>, c: char, i: int)
    requires
        0 <= i < s.len(),
        s[i] == c,
    ensures
        count_char(s, c) >= 1,
    decreases s.len(),
{
    if i > 0 {
        let s0 = s.drop_first();
        assert(s0[i - 1] == c);
        lemma_count_pos(s0, c, i - 1);
    }
}

/// Two distinct occurrences of `c` make its count at least two.
pub proof fn lemma_count_two(s: Seq<char>, c: char, i: int, k: int)
    requires
        0 <= i < k < s.len(),
        s[i] == c,
        s[k] == c,
    ensures
        count_char(s, c) >= 2,
    decreases s.len(),
{
    let s0 = s.drop_first();
    if i == 0 {
        assert(s0[k - 1] == c);
        lemma_count_pos(s0, c, k - 1);
    } else {
        assert(s0[i - 1] == c && s0[k - 1] == c);
        lemma_count_two(s0, c, i - 1, k - 1);
    }
}

} // verus!
