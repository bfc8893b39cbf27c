use vstd::prelude::*;
use crate::text::{find_sub, find_str, is_ws, is_ws_exec, lemma_find_sub_first};

verus! {

pub open spec fn skip_ws(s: Seq<char>) -> Seq<char>
    decreases s.len(),
{
    if s.len() > 0 && is_ws(s[0]) {
        skip_ws(s.drop_first())
    } else {
        s
    }
}

pub open spec fn take_tok(s: Seq<char>) -> Seq<char>
    decreases s.len(),
{
    if s.len() > 0 && !is_ws(s[0]) {
        seq![s[0]] + take_tok(s.drop_first())
    } else {
        Seq::empty()
    }
}

pub open spec fn drop_tok(s: Seq<char>) -> Seq<char>
    decreases s.len(),
{
    if s.len() > 0 && !is_ws(s[0]) {
        drop_tok(s.drop_first())
    } else {
        s
    }
}

/// The first line of the probe tool's output, without its line ending.
pub open spec fn first_line_of(s: Seq<char>) -> Seq<char> {
    let cut = match find_sub(s, "\n"@) {
        Some(i) => s.take(i),
        None => s,
    };
    if cut.len() > 0 && cut[cut.len() - 1] == '\r' {
        cut.drop_last()
    } else {
        cut
    }
}

/// The second whitespace-delimited token of a line, if the line has one.
pub open spec fn second_token(line: Seq<char>) -> Option<Seq<char>> {
    let second = take_tok(skip_ws(drop_tok(skip_ws(line))));
    if second.len() == 0 {
        None
    } else {
        Some(second)
    }
}

/// The identifier in the probe tool's output: the second token of its
/// first line.
pub open spec fn probe_uuid(s: Seq<char>) -> Option<Seq<char>> {
    second_token(first_line_of(s))
}

proof fn lemma_skip_ws_idx(s: Seq<char>, i: int)
    requires
        0 <= i <= s.len(),
        forall|j: int| 0 <= j < i ==> is_ws(s[j]),
        i < s.len() ==> !is_ws(s[i]),
    ensures
        skip_ws(s) =~= s.skip(i),
    decreases i,
{
    if i > 0 {
        lemma_skip_ws_idx(s.drop_first(), i - 1);
        assert(s.drop_first().skip(i - 1) =~= s.skip(i));
    } else {
        assert(s.skip(0) =~= s);
    }
}

proof fn lemma_tok_idx(s: Seq<char>, i: int)
    requires
        0 <= i <= s.len(),
        forall|j: int| 0 <= j < i ==> !is_ws(s[j]),
        i < s.len() ==> is_ws(s[i]),
    ensures
        drop_tok(s) =~= s.skip(i),
        take_tok(s) =~= s.take(i),
    decreases i,
{
    if i > 0 {
        lemma_tok_idx(s.drop_first(), i - 1);
        assert(s.drop_first().skip(i - 1) =~= s.skip(i));
        assert(seq![s[0]] + s.drop_first().take(i - 1) =~= s.take(i));
    } else {
        assert(s.skip(0) =~= s);
        assert(s.take(0) =~= Seq::<char>::empty());
    }
}

/// The first line of the output, shorn of its ending.
fn first_line_exec<'a>(s: &'a str) -> (r: &'a str)
    ensures
        r@ == first_line_of(s@),
{
    let cut_end: usize = match find_str(s, "\n") {
        Some(i) => {
            proof {
                lemma_find_sub_first(s@, "\n"@);
            }
            i
        },
        None => s.unicode_len(),
    };
    let cut = s.substring_char(0, cut_end);
    proof {
        assert(cut@ =~= (match find_sub(s@, "\n"@) {
            Some(i) => s@.take(i),
            None => s@,
        }));
    }
    let ncut: usize = cut.unicode_len();
    let line = if ncut > 0 && cut.get_char(ncut - 1) == '\r' {
        cut.substring_char(0, ncut - 1)
    } else {
        cut
    };
    proof {
        assert(line@ =~= first_line_of(s@));
    }
    line
}

/// Scans the probe output for the bundle identifier.
#[verifier::rlimit(100)]
#[verifier::spinoff_prover]
#[verifier::loop_isolation(false)]
pub fn probe_uuid_exec(s: &str) -> (r: Option<String>)
    ensures
        match r {
            Some(u) => probe_uuid(s@) == Some(u@),
            None => probe_uuid(s@) is None,
        },
{
    let line = first_line_exec(s);
    let n: usize = line.unicode_len();
    let mut i: usize = 0;
    while i < n && is_ws_exec(line.get_char(i))
        invariant
            i <= n,
            forall|j: int| 0 <= j < i ==> is_ws(line@[j]),
        decreases n - i,
    {
        i += 1;
    }
    proof {
        lemma_skip_ws_idx(line@, i as int);
    }
    let ghost after_ws1 = line@.skip(i as int);
    let mut t: usize = i;
    while t < n && !is_ws_exec(line.get_char(t))
        invariant
            i <= t <= n,
            forall|j: int| i <= j < t ==> !is_ws(line@[j]),
        decreases n - t,
    {
        t += 1;
    }
    proof {
        assert(forall|j: int| 0 <= j < t - i ==> !is_ws(after_ws1[j]));
        lemma_tok_idx(after_ws1, t - i);
        assert(after_ws1.skip(t - i) =~= line@.skip(t as int));
    }
    let ghost after_tok1 = line@.skip(t as int);
    let mut u: usize = t;
    while u < n && is_ws_exec(line.get_char(u))
        invariant
            t <= u <= n,
            forall|j: int| t <= j < u ==> is_ws(line@[j]),
        decreases n - u,
    {
        u += 1;
    }
    proof {
        assert(forall|j: int| 0 <= j < u - t ==> is_ws(after_tok1[j]));
        lemma_skip_ws_idx(after_tok1, u - t);
        assert(after_tok1.skip(u - t) =~= line@.skip(u as int));
    }
    let ghost after_ws2 = line@.skip(u as int);
    let mut v: usize = u;
    while v < n && !is_ws_exec(line.get_char(v))
        invariant
            u <= v <= n,
            forall|j: int| u <= j < v ==> !is_ws(line@[j]),
        decreases n - v,
    {
        v += 1;
    }
    proof {
        assert(forall|j: int| 0 <= j < v - u ==> !is_ws(after_ws2[j]));
        lemma_tok_idx(after_ws2, v - u);
        assert(after_ws2.take(v - u) =~= line@.subrange(u as int, v as int));
    }
    if v == u {
        proof {
            assert(take_tok(after_ws2).len() == 0);
        }
        None
    } else {
        let token = line.substring_char(u, v);
        Some(token.to_owned())
    }
}

} // verus!
