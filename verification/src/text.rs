//! Verified text primitives the query layer is built on: splitting on a
//! separator character, string equality, ASCII upper-casing and substring
//! search (plain and case-blind).

use vstd::prelude::*;
use vstd::string::StrSliceExecFns;
use vstd::string::StringExecFns;

verus! {

/// Upper-case image of one character: the 26 ASCII lower-case letters map to
/// their upper-case counterparts, everything else is unchanged.
pub open spec fn upper_char(c: char) -> char {
    match c {
        'a' => 'A',
        'b' => 'B',
        'c' => 'C',
        'd' => 'D',
        'e' => 'E',
        'f' => 'F',
        'g' => 'G',
        'h' => 'H',
        'i' => 'I',
        'j' => 'J',
        'k' => 'K',
        'l' => 'L',
        'm' => 'M',
        'n' => 'N',
        'o' => 'O',
        'p' => 'P',
        'q' => 'Q',
        'r' => 'R',
        's' => 'S',
        't' => 'T',
        'u' => 'U',
        'v' => 'V',
        'w' => 'W',
        'x' => 'X',
        'y' => 'Y',
        'z' => 'Z',
        _ => c,
    }
}

/// Character-wise ASCII upper-case image of a text.
pub open spec fn upper_seq(s: Seq<char>) -> Seq<char> {
    s.map_values(|c: char| upper_char(c))
}

/// `needle` occurs contiguously somewhere in `hay`.
pub open spec fn is_substring_of(needle: Seq<char>, hay: Seq<char>) -> bool {
    exists|i: int|
        0 <= i && i + needle.len() <= hay.len() && #[trigger] hay.subrange(i, i + needle.len())
            == needle
}

/// Index of the first occurrence of `sep` in `s`, or `s.len()` if there is
/// none.
pub open spec fn find_sep(s: Seq<char>, sep: char) -> int
    decreases s.len(),
{
    if s.len() == 0 {
        0
    } else if s[0] == sep {
        0
    } else {
        1 + find_sep(s.subrange(1, s.len() as int), sep)
    }
}

/// The pieces of `s` between occurrences of `sep`, in order. A text without
/// the separator is one piece; each separator ends a piece, so consecutive
/// separators yield empty pieces.
pub open spec fn split_on(s: Seq<char>, sep: char) -> Seq<Seq<char>>
    decreases s.len(),
{
    let i = find_sep(s, sep);
    if 0 <= i < s.len() {
        seq![s.subrange(0, i)] + split_on(s.subrange(i + 1, s.len() as int), sep)
    } else {
        seq![s]
    }
}

/// The first occurrence of `sep` is exactly where the first run of
/// other characters ends.
pub proof fn lemma_find_sep_at(s: Seq<char>, sep: char, k: int)
    requires
        0 <= k <= s.len(),
        forall|j: int| 0 <= j < k ==> s[j] != sep,
        k < s.len() ==> s[k] == sep,
    ensures
        k < s.len() ==> find_sep(s, sep) == k,
        k == s.len() ==> find_sep(s, sep) == s.len(),
    decreases k,
{
    if s.len() == 0 {
    } else if k == 0 {
    } else {
        let t = s.subrange(1, s.len() as int);
        assert(forall|j: int| 0 <= j < k - 1 ==> t[j] != sep);
        lemma_find_sep_at(t, sep, k - 1);
    }
}

/// Splitting a text whose first separator stands at position `k` yields the
/// prefix before it, then the pieces of what follows it.
pub proof fn lemma_split_on_step(s: Seq<char>, sep: char, k: int)
    requires
        0 <= k < s.len(),
        s[k] == sep,
        forall|j: int| 0 <= j < k ==> s[j] != sep,
    ensures
        split_on(s, sep) == seq![s.subrange(0, k)] + split_on(
            s.subrange(k + 1, s.len() as int),
            sep,
        ),
{
    lemma_find_sep_at(s, sep, k);
}

/// A text free of the separator splits into itself alone.
pub proof fn lemma_split_on_whole(s: Seq<char>, sep: char)
    requires
        forall|j: int| 0 <= j < s.len() ==> s[j] != sep,
    ensures
        split_on(s, sep) == seq![s],
{
    lemma_find_sep_at(s, sep, s.len() as int);
}

/// The pieces of `s`, as freshly allocated strings.
pub fn split_char(s: &str, sep: char) -> (parts: Vec<String>)
    ensures
        parts.deep_view() == split_on(s@, sep),
        parts.len() >= 1,
{
    let n = s.unicode_len();
    let mut parts: Vec<String> = Vec::new();
    let mut start: usize = 0;
    let mut i: usize = 0;
    proof {
        assert(s@.subrange(0, n as int) =~= s@);
        assert(parts.deep_view() + split_on(s@, sep) =~= split_on(s@, sep));
    }
    while i < n
        invariant
            0 <= start <= i <= n,
            n == s@.len(),
            forall|j: int| start <= j < i ==> s@[j] != sep,
            split_on(s@, sep) == parts.deep_view() + split_on(
                s@.subrange(start as int, n as int),
                sep,
            ),
        decreases n - i,
    {
        let c = s.get_char(i);
        if c == sep {
            let piece = String::from_str(s.substring_char(start, i));
            proof {
                let rest = s@.subrange(start as int, n as int);
                lemma_split_on_step(rest, sep, i - start);
                assert(rest.subrange(0, i - start) =~= s@.subrange(start as int, i as int));
                assert(rest.subrange(i - start + 1, rest.len() as int) =~= s@.subrange(
                    i + 1,
                    n as int,
                ));
                assert(parts.deep_view() + split_on(rest, sep) =~= (parts.deep_view()
                    + seq![s@.subrange(start as int, i as int)]) + split_on(
                    s@.subrange(i + 1, n as int),
                    sep,
                ));
            }
            let ghost pre = parts.deep_view();
            parts.push(piece);
            proof {
                assert(parts.deep_view() =~= pre.push(s@.subrange(start as int, i as int)));
                assert(pre.push(s@.subrange(start as int, i as int)) =~= pre + seq![
                    s@.subrange(start as int, i as int),
                ]);
            }
            start = i + 1;
        }
        i = i + 1;
    }
    let piece = String::from_str(s.substring_char(start, n));
    proof {
        let rest = s@.subrange(start as int, n as int);
        lemma_split_on_whole(rest, sep);
    }
    parts.push(piece);
    proof {
        assert(parts.deep_view() =~= split_on(s@, sep));
    }
    parts
}

/// Character-for-character string equality.
pub fn str_eq(a: &str, b: &str) -> (r: bool)
    ensures
        r == (a@ == b@),
{
    let n = a.unicode_len();
    let m = b.unicode_len();
    if n != m {
        return false;
    }
    let mut i: usize = 0;
    while i < n
        invariant
            0 <= i <= n,
            n == a@.len() == b@.len(),
            forall|j: int| 0 <= j < i ==> a@[j] == b@[j],
        decreases n - i,
    {
        if a.get_char(i) != b.get_char(i) {
            return false;
        }
        i = i + 1;
    }
    proof {
        assert(a@ =~= b@);
    }
    true
}

/// Upper-case image of one character.
pub fn upper_char_exec(c: char) -> (u: char)
    ensures
        u == upper_char(c),
{
    match c {
        'a' => 'A',
        'b' => 'B',
        'c' => 'C',
        'd' => 'D',
        'e' => 'E',
        'f' => 'F',
        'g' => 'G',
        'h' => 'H',
        'i' => 'I',
        'j' => 'J',
        'k' => 'K',
        'l' => 'L',
        'm' => 'M',
        'n' => 'N',
        'o' => 'O',
        'p' => 'P',
        'q' => 'Q',
        'r' => 'R',
        's' => 'S',
        't' => 'T',
        'u' => 'U',
        'v' => 'V',
        'w' => 'W',
        'x' => 'X',
        'y' => 'Y',
        'z' => 'Z',
        _ => c,
    }
}

/// Does `needle` (compared as given) occur in the upper-cased image of `hay`?
pub fn contains_upper(hay: &str, needle: &str) -> (b: bool)
    ensures
        b == is_substring_of(needle@, upper_seq(hay@)),
{
    let n = hay.unicode_len();
    let m = needle.unicode_len();
    if m > n {
        proof {
            assert(upper_seq(hay@).len() == n);
        }
        return false;
    }
    if m == 0 {
        proof {
            assert(upper_seq(hay@).subrange(0, 0 + needle@.len() as int) =~= needle@);
            assert(is_substring_of(needle@, upper_seq(hay@)));
        }
        return true;
    }
    let mut i: usize = 0;
    while i <= n - m
        invariant
            0 <= i <= n - m + 1,
            1 <= m <= n,
            n == hay@.len(),
            m == needle@.len(),
            forall|k: int|
                0 <= k < i ==> #[trigger] upper_seq(hay@).subrange(k, k + needle@.len())
                    != needle@,
        decreases n + 1 - m - i,
    {
        let mut j: usize = 0;
        let mut all_match = true;
        let ghost mut bad: int = 0int;
        while j < m
            invariant
                0 <= j <= m,
                i + m <= n,
                n == hay@.len(),
                m == needle@.len(),
                all_match ==> forall|l: int|
                    0 <= l < j ==> upper_char(hay@[i + l]) == needle@[l],
                !all_match ==> 0 <= bad < m && upper_char(hay@[i + bad]) != needle@[bad],
            decreases m - j,
        {
            let hc = upper_char_exec(hay.get_char(i + j));
            if hc != needle.get_char(j) {
                all_match = false;
                proof {
                    bad = j as int;
                }
                j = m;
            } else {
                j = j + 1;
            }
        }
        if all_match {
            proof {
                assert(upper_seq(hay@).subrange(i as int, i + needle@.len()) =~= needle@);
            }
            return true;
        }
        proof {
            assert(upper_seq(hay@).subrange(i as int, i + needle@.len())[bad] == upper_char(
                hay@[i + bad],
            ));
        }
        i = i + 1;
    }
    proof {
        assert forall|k: int|
            0 <= k && k + needle@.len() <= upper_seq(hay@).len() implies #[trigger] upper_seq(
            hay@,
        ).subrange(k, k + needle@.len()) != needle@ by {
            assert(k < i);
        }
    }
    false
}

/// Occurring in one part means occurring in any concatenation around it.
pub proof fn lemma_substring_of_concat_left(needle: Seq<char>, a: Seq<char>, b: Seq<char>)
    requires
        is_substring_of(needle, a),
    ensures
        is_substring_of(needle, a + b),
{
    let i = choose|i: int|
        0 <= i && i + needle.len() <= a.len() && #[trigger] a.subrange(i, i + needle.len())
            == needle;
    assert((a + b).subrange(i, i + needle.len()) =~= a.subrange(i, i + needle.len()));
}

pub proof fn lemma_substring_of_concat_right(needle: Seq<char>, a: Seq<char>, b: Seq<char>)
    requires
        is_substring_of(needle, b),
    ensures
        is_substring_of(needle, a + b),
{
    let i = choose|i: int|
        0 <= i && i + needle.len() <= b.len() && #[trigger] b.subrange(i, i + needle.len())
            == needle;
    assert((a + b).subrange(a.len() + i, a.len() + i + needle.len()) =~= b.subrange(
        i,
        i + needle.len(),
    ));
}

/// Substring containment is transitive.
pub proof fn lemma_substring_trans(inner: Seq<char>, mid: Seq<char>, outer: Seq<char>)
    requires
        is_substring_of(inner, mid),
        is_substring_of(mid, outer),
    ensures
        is_substring_of(inner, outer),
{
    let i = choose|i: int|
        0 <= i && i + inner.len() <= mid.len() && #[trigger] mid.subrange(i, i + inner.len())
            == inner;
    let j = choose|j: int|
        0 <= j && j + mid.len() <= outer.len() && #[trigger] outer.subrange(j, j + mid.len())
            == mid;
    assert(outer.subrange(j + i, j + i + inner.len()) =~= mid.subrange(i, i + inner.len()));
}

/// A substring survives upper-casing.
pub proof fn lemma_upper_of_substring(needle: Seq<char>, hay: Seq<char>)
    requires
        is_substring_of(needle, hay),
    ensures
        is_substring_of(upper_seq(needle), upper_seq(hay)),
{
    let i = choose|i: int|
        0 <= i && i + needle.len() <= hay.len() && #[trigger] hay.subrange(i, i + needle.len())
            == needle;
    assert(upper_seq(hay).subrange(i, i + needle.len()) =~= upper_seq(
        hay.subrange(i, i + needle.len()),
    ));
}

} // verus!
