//! Matching paths against glob patterns: `*` stands for any run of
//! characters, `?` for any one character, every other character for itself.

use vstd::prelude::*;

verus! {

/// Whether the whole of `s` matches the pattern `p`.
pub open spec fn glob_match(p: Seq<char>, s: Seq<char>) -> bool
    decreases p.len() + s.len(),
{
    if p.len() == 0 {
        s.len() == 0
    } else if p[0] == '*' {
        glob_match(p.drop_first(), s) || (s.len() > 0 && glob_match(p, s.drop_first()))
    } else if s.len() == 0 {
        false
    } else if p[0] == '?' || p[0] == s[0] {
        glob_match(p.drop_first(), s.drop_first())
    } else {
        false
    }
}

/// A row of `m + 1` entries, each false but the last.
fn last_row(m: usize) -> (r: Vec<bool>)
    ensures
        r@.len() == m + 1,
        forall|k: int| 0 <= k <= m ==> r@[k] == (k == m),
{
    let mut row: Vec<bool> = Vec::new();
    let mut j: usize = 0;
    while j < m
        invariant
            j <= m,
            row@.len() == j,
            forall|k: int| 0 <= k < j ==> !row@[k],
        decreases m - j,
    {
        row.push(false);
        j = j + 1;
    }
    row.push(true);
    row
}

/// Whether the whole of `path` matches `pattern`.
pub fn glob_matches(pattern: &str, path: &str) -> (r: bool)
    ensures
        r == glob_match(pattern@, path@),
{
    let n = pattern.unicode_len();
    let m = path.unicode_len();
    let ghost p = pattern@;
    let ghost s = path@;
    // row[k] tells whether path[k..] matches pattern[i..]
    let mut row = last_row(m);
    assert forall|k: int| 0 <= k <= m implies row@[k] == glob_match(
        p.subrange(n as int, n as int),
        s.subrange(k, m as int),
    ) by {
        assert(p.subrange(n as int, n as int).len() == 0);
    }
    let mut i: usize = n;
    while i > 0
        invariant
            n == p.len(),
            m == s.len(),
            p == pattern@,
            s == path@,
            i <= n,
            row@.len() == m + 1,
            forall|k: int|
                0 <= k <= m ==> #[trigger] row@[k] == glob_match(
                    p.subrange(i as int, n as int),
                    s.subrange(k, m as int),
                ),
        decreases i,
    {
        let c = pattern.get_char(i - 1);
        let ghost pi = p.subrange(i - 1, n as int);
        assert(pi.drop_first() =~= p.subrange(i as int, n as int));
        assert(pi[0] == c);
        let mut next = last_row(m);
        let last = if c == '*' {
            row[m]
        } else {
            false
        };
        next.set(m, last);
        let mut k: usize = m;
        while k > 0
            invariant
                n == p.len(),
                m == s.len(),
                s == path@,
                1 <= i <= n,
                pi == p.subrange(i - 1, n as int),
                pi.drop_first() == p.subrange(i as int, n as int),
                pi.len() > 0,
                pi[0] == c,
                k <= m,
                row@.len() == m + 1,
                next@.len() == m + 1,
                forall|q: int|
                    0 <= q <= m ==> #[trigger] row@[q] == glob_match(
                        p.subrange(i as int, n as int),
                        s.subrange(q, m as int),
                    ),
                forall|q: int|
                    k <= q <= m ==> #[trigger] next@[q] == glob_match(pi, s.subrange(q, m as int)),
            decreases k,
        {
            let q = k - 1;
            let ghost sq = s.subrange(q as int, m as int);
            assert(sq.drop_first() =~= s.subrange(q + 1, m as int));
            assert(sq[0] == s[q as int]);
            let v = if c == '*' {
                row[q] || next[q + 1]
            } else {
                (c == '?' || c == path.get_char(q)) && row[q + 1]
            };
            next.set(q, v);
            k = q;
        }
        row = next;
        i = i - 1;
    }
    assert(p.subrange(0, n as int) =~= p);
    assert(s.subrange(0, m as int) =~= s);
    row[0]
}

} // verus!
