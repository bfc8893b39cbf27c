use vstd::prelude::*;
use vstd::string::*;

verus! {

/// `pat` occurs in `s` at position `i`.
pub open spec fn matches_at(s: Seq<char>, pat: Seq<char>, i: int) -> bool {
    0 <= i && i + pat.len() <= s.len() && s.subrange(i, i + pat.len()) == pat
}

/// Index of the leftmost occurrence of `pat` in `s`, if any.
pub open spec fn find_sub(s: Seq<char>, pat: Seq<char>) -> Option<int>
    decreases s.len(),
{
    if s.len() < pat.len() {
        None
    } else if s.subrange(0, pat.len() as int) == pat {
        Some(0)
    } else if s.len() == 0 {
        None
    } else {
        match find_sub(s.skip(1), pat) {
            None => None,
            Some(i) => Some(i + 1),
        }
    }
}

pub open spec fn has_sub(s: Seq<char>, pat: Seq<char>) -> bool {
    find_sub(s, pat) is Some
}

proof fn lemma_matches_at_skip(s: Seq<char>, pat: Seq<char>, i: int)
    requires
        s.len() > 0,
        0 <= i,
    ensures
        matches_at(s.skip(1), pat, i) <==> matches_at(s, pat, i + 1),
{
    if i + pat.len() <= s.len() - 1 {
        assert(s.skip(1).subrange(i, i + pat.len()) =~= s.subrange(i + 1, i + 1 + pat.len()));
    }
}

/// `find_sub` returns exactly the first position where `pat` occurs.
pub proof fn lemma_find_sub_first(s: Seq<char>, pat: Seq<char>)
    ensures
        match find_sub(s, pat) {
            Some(i) => matches_at(s, pat, i) && forall|j: int| 0 <= j < i ==> !matches_at(s, pat, j),
            None => forall|j: int| !matches_at(s, pat, j),
        },
    decreases s.len(),
{
    if s.len() < pat.len() {
        assert(forall|j: int| !matches_at(s, pat, j));
    } else if s.subrange(0, pat.len() as int) == pat {
        assert(matches_at(s, pat, 0));
    } else if s.len() == 0 {
        assert(pat.len() == 0);
        assert(s.subrange(0, 0) =~= pat);
    } else {
        lemma_find_sub_first(s.skip(1), pat);
        assert forall|j: int| 0 <= j implies (matches_at(s.skip(1), pat, j) <==> matches_at(
            s,
            pat,
            j + 1,
        )) by {
            lemma_matches_at_skip(s, pat, j);
        }
        match find_sub(s.skip(1), pat) {
            None => {
                assert forall|j: int| !matches_at(s, pat, j) by {
                    if 1 <= j {
                        assert(!matches_at(s.skip(1), pat, j - 1));
                    } else if j == 0 {
                        assert(s.subrange(0, pat.len() as int) != pat);
                    }
                }
            },
            Some(i) => {
                assert(matches_at(s, pat, i + 1));
                assert forall|j: int| 0 <= j < i + 1 implies !matches_at(s, pat, j) by {
                    if 1 <= j {
                        assert(!matches_at(s.skip(1), pat, j - 1));
                    }
                }
            },
        }
    }
}

/// Leftmost-match search for `pat` in `s`, by character position.
pub fn find_str(s: &str, pat: &str) -> (r: Option<usize>)
    ensures
        match r {
            Some(i) => find_sub(s@, pat@) == Some(i as int),
            None => find_sub(s@, pat@) is None,
        },
{
    let n: usize = s.unicode_len();
    let m: usize = pat.unicode_len();
    proof {
        lemma_find_sub_first(s@, pat@);
    }
    if m > n {
        return None;
    }
    if m == 0 {
        proof {
            assert(s@.subrange(0, 0) =~= pat@);
        }
        return Some(0);
    }
    let mut i: usize = 0;
    while i <= n - m
        invariant
            1 <= m <= n,
            n == s@.len(),
            m == pat@.len(),
            i <= n - m + 1,
            forall|j: int| 0 <= j < i ==> !matches_at(s@, pat@, j),
        decreases n - m + 1 - i,
    {
        let mut j: usize = 0;
        let mut ok: bool = true;
        while j < m
            invariant
                1 <= m <= n,
                n == s@.len(),
                m == pat@.len(),
                i + m <= n,
                j <= m,
                ok ==> forall|k: int| 0 <= k < j ==> s@[i + k] == pat@[k],
                !ok ==> !matches_at(s@, pat@, i as int),
            decreases m - j,
        {
            if ok {
                let a = s.get_char(i + j);
                let b = pat.get_char(j);
                if a != b {
                    proof {
                        if matches_at(s@, pat@, i as int) {
                            assert(s@.subrange(i as int, i + m)[j as int] == pat@[j as int]);
                        }
                    }
                    ok = false;
                }
            }
            j += 1;
        }
        if ok {
            proof {
                assert(s@.subrange(i as int, i + m) =~= pat@);
                lemma_find_sub_first(s@, pat@);
                let i0 = find_sub(s@, pat@)->0;
                assert(matches_at(s@, pat@, i as int));
                assert(!(i0 < i) && !(i < i0));
            }
            return Some(i);
        }
        i += 1;
    }
    proof {
        lemma_find_sub_first(s@, pat@);
        match find_sub(s@, pat@) {
            Some(i0) => {
                assert(matches_at(s@, pat@, i0));
                assert(i0 <= n - m);
            },
            None => {},
        }
    }
    None
}

/// Character-wise string equality, with the sequence view as its meaning.
pub fn str_eq(a: &str, b: &str) -> (r: bool)
    ensures
        r == (a@ == b@),
{
    let n: usize = a.unicode_len();
    if n != b.unicode_len() {
        return false;
    }
    let mut i: usize = 0;
    while i < n
        invariant
            n == a@.len(),
            n == b@.len(),
            i <= n,
            forall|k: int| 0 <= k < i ==> a@[k] == b@[k],
        decreases n - i,
    {
        if a.get_char(i) != b.get_char(i) {
            return false;
        }
        i += 1;
    }
    proof {
        assert(a@ =~= b@);
    }
    true
}

/// `s` split on each leftmost, non-overlapping occurrence of `pat`.
pub open spec fn split_on(s: Seq<char>, pat: Seq<char>) -> Seq<Seq<char>>
    decreases s.len(),
{
    if pat.len() == 0 {
        seq![s]
    } else {
        match find_sub(s, pat) {
            None => seq![s],
            Some(i) => {
                if 0 <= i && i + pat.len() <= s.len() {
                    seq![s.take(i)] + split_on(s.skip(i + pat.len()), pat)
                } else {
                    seq![s]
                }
            },
        }
    }
}

/// Splits `s` at every occurrence of `pat`, leftmost first.
pub fn split_str(s: &str, pat: &str) -> (r: Vec<String>)
    requires
        pat@.len() > 0,
    ensures
        r@.len() == split_on(s@, pat@).len(),
        forall|k: int| 0 <= k < r@.len() ==> r@[k]@ == split_on(s@, pat@)[k],
{
    let mut parts: Vec<String> = Vec::new();
    let mut rest: &str = s;
    loop
        invariant
            pat@.len() > 0,
            split_on(s@, pat@) =~= parts@.map_values(|t: String| t@) + split_on(rest@, pat@),
        decreases rest@.len(),
    {
        match find_str(rest, pat) {
            None => {
                let whole = rest.substring_char(0, rest.unicode_len());
                parts.push(whole.to_owned());
                proof {
                    assert(rest@.subrange(0, rest@.len() as int) =~= rest@);
                    assert(split_on(rest@, pat@) =~= seq![rest@]);
                    assert(split_on(s@, pat@) =~= parts@.map_values(|t: String| t@));
                    let mapped = parts@.map_values(|t: String| t@);
                    assert(forall|k: int| 0 <= k < parts@.len() ==> parts@[k]@ == #[trigger] mapped[k]);
                    assert(parts@.len() == split_on(s@, pat@).len());
                    assert(forall|k: int|
                        0 <= k < parts@.len() ==> parts@[k]@ == split_on(s@, pat@)[k]);
                }
                return parts;
            },
            Some(i) => {
                proof {
                    lemma_find_sub_first(rest@, pat@);
                }
                let nrest: usize = rest.unicode_len();
                let m: usize = pat.unicode_len();
                let piece = rest.substring_char(0, i);
                parts.push(piece.to_owned());
                let next = rest.substring_char(i + m, nrest);
                proof {
                    assert(rest@.subrange(0, i as int) =~= rest@.take(i as int));
                    assert(rest@.subrange(i + m, rest@.len() as int) =~= rest@.skip(i + m));
                }
                rest = next;
            },
        }
    }
}

/// Whitespace characters recognized by the trimming rules.
pub open spec fn is_ws(c: char) -> bool {
    c == ' ' || c == '\t' || c == '\n' || c == '\r' || c == '\u{000b}' || c == '\u{000c}'
}

pub fn is_ws_exec(c: char) -> (r: bool)
    ensures
        r == is_ws(c),
{
    c == ' ' || c == '\t' || c == '\n' || c == '\r' || c == '\u{000b}' || c == '\u{000c}'
}

/// `s` with leading and trailing whitespace removed.
pub open spec fn trim_seq(s: Seq<char>) -> Seq<char>
    decreases s.len(),
{
    if s.len() > 0 && is_ws(s[0]) {
        trim_seq(s.drop_first())
    } else if s.len() > 0 && is_ws(s[s.len() - 1]) {
        trim_seq(s.drop_last())
    } else {
        s
    }
}

/// `s` with every trailing occurrence of `c` removed.
pub open spec fn trim_trailing(s: Seq<char>, c: char) -> Seq<char>
    decreases s.len(),
{
    if s.len() > 0 && s[s.len() - 1] == c {
        trim_trailing(s.drop_last(), c)
    } else {
        s
    }
}

proof fn lemma_trim_seq_inner(s: Seq<char>, lo: int, hi: int)
    requires
        0 <= lo <= hi <= s.len(),
        forall|k: int| 0 <= k < lo ==> is_ws(s[k]),
        forall|k: int| hi <= k < s.len() ==> is_ws(s[k]),
        lo < hi ==> !is_ws(s[lo]),
        lo < hi ==> !is_ws(s[hi - 1]),
    ensures
        trim_seq(s) =~= s.subrange(lo, hi),
    decreases s.len(),
{
    if lo == hi {
        if s.len() > 0 {
            if is_ws(s[0]) {
                lemma_trim_seq_inner(s.drop_first(), 0, 0);
            } else {
                lemma_trim_seq_inner(s.drop_last(), 0, 0);
            }
        }
    } else if s.len() > 0 && is_ws(s[0]) {
        lemma_trim_seq_inner(s.drop_first(), lo - 1, hi - 1);
        assert(s.drop_first().subrange(lo - 1, hi - 1) =~= s.subrange(lo, hi));
    } else if s.len() > 0 && is_ws(s[s.len() - 1]) {
        lemma_trim_seq_inner(s.drop_last(), lo, hi);
        assert(s.drop_last().subrange(lo, hi) =~= s.subrange(lo, hi));
    }
}

/// Removes leading and trailing whitespace.
pub fn trim_str<'a>(s: &'a str) -> (r: &'a str)
    ensures
        r@ == trim_seq(s@),
{
    let n: usize = s.unicode_len();
    let mut lo: usize = 0;
    while lo < n && is_ws_exec(s.get_char(lo))
        invariant
            n == s@.len(),
            lo <= n,
            forall|k: int| 0 <= k < lo ==> is_ws(s@[k]),
        decreases n - lo,
    {
        lo += 1;
    }
    let mut hi: usize = n;
    while hi > lo && is_ws_exec(s.get_char(hi - 1))
        invariant
            n == s@.len(),
            lo <= hi <= n,
            forall|k: int| hi <= k < n ==> is_ws(s@[k]),
        decreases hi,
    {
        hi -= 1;
    }
    proof {
        lemma_trim_seq_inner(s@, lo as int, hi as int);
    }
    s.substring_char(lo, hi)
}

proof fn lemma_trim_trailing_inner(s: Seq<char>, c: char, hi: int)
    requires
        0 <= hi <= s.len(),
        forall|k: int| hi <= k < s.len() ==> s[k] == c,
        hi > 0 ==> s[hi - 1] != c,
    ensures
        trim_trailing(s, c) =~= s.subrange(0, hi),
    decreases s.len(),
{
    if s.len() > 0 && s[s.len() - 1] == c {
        lemma_trim_trailing_inner(s.drop_last(), c, hi);
        assert(s.drop_last().subrange(0, hi) =~= s.subrange(0, hi));
    }
}

/// Removes every trailing occurrence of `c`.
pub fn trim_trailing_str<'a>(s: &'a str, c: char) -> (r: &'a str)
    ensures
        r@ == trim_trailing(s@, c),
{
    let n: usize = s.unicode_len();
    let mut hi: usize = n;
    while hi > 0 && s.get_char(hi - 1) == c
        invariant
            n == s@.len(),
            hi <= n,
            forall|k: int| hi <= k < n ==> s@[k] == c,
        decreases hi,
    {
        hi -= 1;
    }
    proof {
        lemma_trim_trailing_inner(s@, c, hi as int);
    }
    s.substring_char(0, hi)
}

/// Relies on String::push: appends the single character `c` to `s`.
#[verifier::external_body]
pub fn push_char(s: &mut String, c: char)
    ensures
        final(s)@ == old(s)@.push(c),
{
    s.push(c)
}

} // verus!
