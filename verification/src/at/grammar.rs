use vstd::prelude::*;

verus! {

/// Position of the first `c` in `s`, or the length of `s` when it holds none.
pub open spec fn find(s: Seq<char>, c: char) -> int
    decreases s.len(),
{
    if s.len() == 0 || s[0] == c {
        0
    } else {
        1 + find(s.drop_first(), c)
    }
}

/// The `#`-separated pieces of `s`, as they stand, without the empty ones.
pub open spec fn tokens(s: Seq<char>) -> Seq<Seq<char>>
    decreases s.len(),
{
    let i = find(s, '#');
    if 0 <= i < s.len() {
        let head = s.take(i);
        let rest = tokens(s.skip(i + 1));
        if head.len() > 0 {
            seq![head] + rest
        } else {
            rest
        }
    } else if s.len() > 0 {
        seq![s]
    } else {
        Seq::empty()
    }
}

/// `find` stays within the sequence, points at a `c` when it is inside, and
/// nothing before it is a `c`.
pub proof fn lemma_find(s: Seq<char>, c: char)
    ensures
        0 <= find(s, c) <= s.len(),
        find(s, c) < s.len() ==> s[find(s, c)] == c,
        forall|k: int| 0 <= k < find(s, c) ==> s[k] != c,
    decreases s.len(),
{
    if s.len() == 0 || s[0] == c {
    } else {
        let t = s.drop_first();
        lemma_find(t, c);
        assert forall|k: int| 0 <= k < find(s, c) implies s[k] != c by {
            if k > 0 {
                assert(s[k] == t[k - 1]);
            }
        }
    }
}

/// A position that holds the first `c` is what `find` returns.
pub proof fn lemma_find_is(s: Seq<char>, c: char, j: int)
    requires
        0 <= j <= s.len(),
        forall|k: int| 0 <= k < j ==> s[k] != c,
        j < s.len() ==> s[j] == c,
    ensures
        find(s, c) == j,
    decreases s.len(),
{
    if j == 0 {
    } else {
        let t = s.drop_first();
        assert forall|k: int| 0 <= k < j - 1 implies t[k] != c by {
            assert(t[k] == s[k + 1]);
        }
        lemma_find_is(t, c, j - 1);
    }
}

/// Position of the first `c` in `input[lo..hi]` (in characters), or `hi`.
pub fn find_char(input: &str, lo: usize, hi: usize, c: char) -> (r: usize)
    requires
        lo <= hi <= input@.len(),
    ensures
        lo <= r <= hi,
        r - lo == find(input@.subrange(lo as int, hi as int), c),
{
    let ghost s = input@;
    let mut j: usize = lo;
    while j < hi && input.get_char(j) != c
        invariant
            s == input@,
            lo <= j <= hi <= s.len(),
            find(s.subrange(lo as int, hi as int), c) == (j - lo) + find(
                s.subrange(j as int, hi as int),
                c,
            ),
        decreases hi - j,
    {
        assert(s.subrange(j as int, hi as int).drop_first() == s.subrange(j + 1, hi as int));
        j = j + 1;
    }
    j
}

} // verus!
