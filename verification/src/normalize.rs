use vstd::prelude::*;
use vstd::string::StringExecFns;
use crate::text::{
    find_sub, find_str, split_on, split_str, trim_seq, trim_str, trim_trailing,
    trim_trailing_str, lemma_find_sub_first,
};

verus! {

/// The path-rewrite rule on resolver source text: a path holding a
/// `/crates/` segment becomes `crates/` plus the suffix after the first
/// such segment; any other path becomes absolute by one leading slash.
/// Trailing close-parentheses are stripped either way.
pub open spec fn rewrite_path(source: Seq<char>) -> Seq<char> {
    match find_sub(source, "/crates/"@) {
        Some(i) => "crates/"@ + trim_trailing(source.skip(i + "/crates/"@.len()), ')'),
        None => "/"@ + trim_trailing(source, ')'),
    }
}

pub fn rewrite_path_exec(source: &str) -> (r: String)
    ensures
        r@ == rewrite_path(source@),
{
    let seg = "/crates/";
    match find_str(source, seg) {
        Some(i) => {
            proof {
                lemma_find_sub_first(source@, seg@);
            }
            let ns: usize = source.unicode_len();
            let m: usize = seg.unicode_len();
            let suffix = source.substring_char(i + m, ns);
            proof {
                assert(suffix@ =~= source@.skip(i + seg@.len()));
            }
            let trimmed = trim_trailing_str(suffix, ')');
            let mut out = String::from_str("crates/");
            out.append(trimmed);
            out
        },
        None => {
            let trimmed = trim_trailing_str(source, ')');
            let mut out = String::from_str("/");
            out.append(trimmed);
            out
        },
    }
}

/// One resolver output line, normalized: a line without the image marker
/// (or without a source path after it) passes through unchanged; any other
/// becomes rewritten-path, colon, tab, trimmed symbol. Every line leaves
/// with a trailing line break.
pub open spec fn norm_line(line: Seq<char>) -> Seq<char> {
    match find_sub(line, "(in "@) {
        None => line + "\n"@,
        Some(i) => {
            match find_sub(line.skip(i + "(in "@.len()), "(/"@) {
                None => line + "\n"@,
                Some(j) => {
                    let rest = line.skip(i + "(in "@.len());
                    rewrite_path(rest.skip(j + "(/"@.len())) + ":\t"@ + trim_seq(line.take(i))
                        + "\n"@
                },
            }
        },
    }
}

pub fn norm_line_exec(line: &str) -> (r: String)
    ensures
        r@ == norm_line(line@),
{
    let marker = "(in ";
    let n: usize = line.unicode_len();
    match find_str(line, marker) {
        None => {
            let mut out = line.to_owned();
            out.append("\n");
            out
        },
        Some(i) => {
            proof {
                lemma_find_sub_first(line@, marker@);
            }
            let mlen: usize = marker.unicode_len();
            let rest = line.substring_char(i + mlen, n);
            proof {
                assert(rest@ =~= line@.skip(i + marker@.len()));
            }
            let open_slash = "(/";
            match find_str(rest, open_slash) {
                None => {
                    let mut out = line.to_owned();
                    out.append("\n");
                    out
                },
                Some(j) => {
                    proof {
                        lemma_find_sub_first(rest@, open_slash@);
                    }
                    let nr: usize = rest.unicode_len();
                    let plen: usize = open_slash.unicode_len();
                    let source = rest.substring_char(j + plen, nr);
                    proof {
                        assert(source@ =~= rest@.skip(j + open_slash@.len()));
                    }
                    let symbol = line.substring_char(0, i);
                    proof {
                        assert(symbol@ =~= line@.take(i as int));
                    }
                    let mut out = rewrite_path_exec(source);
                    out.append(":\t");
                    out.append(trim_str(symbol));
                    out.append("\n");
                    out
                },
            }
        },
    }
}

pub open spec fn concat_all(parts: Seq<Seq<char>>) -> Seq<char>
    decreases parts.len(),
{
    if parts.len() == 0 {
        Seq::empty()
    } else {
        parts[0] + concat_all(parts.drop_first())
    }
}

/// The whole resolver output, line by line: split on line breaks, each
/// line normalized, all lines concatenated back.
pub open spec fn normalize_text(raw: Seq<char>) -> Seq<char> {
    concat_all(split_on(raw, "\n"@).map_values(|l: Seq<char>| norm_line(l)))
}

proof fn lemma_concat_all_push(parts: Seq<Seq<char>>, last: Seq<char>)
    ensures
        concat_all(parts.push(last)) == concat_all(parts) + last,
    decreases parts.len(),
{
    if parts.len() == 0 {
        let p2 = parts.push(last);
        assert(p2.drop_first() =~= Seq::<Seq<char>>::empty());
        assert(p2[0] == last);
        assert(concat_all(p2.drop_first()) == Seq::<char>::empty());
        assert(concat_all(p2) =~= last);
        assert(concat_all(parts) + last =~= last);
    } else {
        assert(parts.push(last).drop_first() =~= parts.drop_first().push(last));
        lemma_concat_all_push(parts.drop_first(), last);
        assert(concat_all(parts.push(last)) =~= concat_all(parts) + last);
    }
}

#[verifier::loop_isolation(false)]
pub fn normalize_output(raw: &str) -> (r: String)
    ensures
        r@ == normalize_text(raw@),
{
    proof {
        reveal_strlit("\n");
        assert("\n"@.len() == 1);
    }
    let lines = split_str(raw, "\n");
    let ghost parts = split_on(raw@, "\n"@).map_values(|l: Seq<char>| norm_line(l));
    let mut out = String::new();
    let n: usize = lines.len();
    let mut i: usize = 0;
    proof {
        assert(parts.take(0) =~= Seq::<Seq<char>>::empty());
    }
    while i < n
        invariant
            i <= n,
            out@ == concat_all(parts.take(i as int)),
        decreases n - i,
    {
        let piece = norm_line_exec(lines[i].as_str());
        out.append(piece.as_str());
        proof {
            assert(parts.take(i + 1) =~= parts.take(i as int).push(parts[i as int]));
            lemma_concat_all_push(parts.take(i as int), parts[i as int]);
        }
        i += 1;
    }
    proof {
        assert(parts.take(n as int) =~= parts);
    }
    out
}

} // verus!
