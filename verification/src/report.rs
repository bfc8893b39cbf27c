use vstd::prelude::*;
use vstd::string::StringExecFns;
use crate::json::{json_doc, json_parse, json_result};
use crate::decode::{header_ok, header_v, body_ok, body_v, decode_header, decode_body};
use crate::model::{IPSFile, Thread};

verus! {

/// Why a crash report failed to parse: no second document at all, or one
/// of the two halves refused to decode (with its diagnostic).
#[derive(Debug)]
pub enum ParseError {
    MissingBody,
    BadHeader { diagnostic: String },
    BadBody { diagnostic: String },
}

/// Position of the first line-break byte, the seam between the two
/// documents.
pub open spec fn first_newline(s: Seq<u8>) -> Option<int>
    decreases s.len(),
{
    if s.len() == 0 {
        None
    } else if s[0] == 10u8 {
        Some(0)
    } else {
        match first_newline(s.drop_first()) {
            None => None,
            Some(i) => Some(i + 1),
        }
    }
}

/// The first document's bytes: everything before the first line break,
/// or the whole input when no line break exists (the second document is
/// then missing, but the first is still read, and read first).
pub open spec fn header_half(s: Seq<u8>) -> Seq<u8> {
    match first_newline(s) {
        Some(i) => s.take(i),
        None => s,
    }
}

pub open spec fn body_half(s: Seq<u8>) -> Seq<u8> {
    s.skip(first_newline(s)->0 + 1)
}

/// The whole report parses: a seam exists and both halves decode.
pub open spec fn header_half_ok(bytes: Seq<u8>) -> bool {
    json_doc(header_half(bytes)) matches Some(h) && header_ok(h)
}

pub open spec fn body_half_ok(bytes: Seq<u8>) -> bool {
    json_doc(body_half(bytes)) matches Some(b) && body_ok(b)
}

pub open spec fn parse_ok(bytes: Seq<u8>) -> bool {
    &&& header_half_ok(bytes)
    &&& first_newline(bytes) is Some
    &&& body_half_ok(bytes)
}

/// The diagnostic a half yields: the JSON syntax diagnostic, or the fixed
/// schema complaint when the document parsed but a field had the wrong
/// type. A function of the half's bytes alone.
pub open spec fn half_diagnostic(bytes: Seq<u8>) -> Seq<char> {
    match json_result(bytes) {
        Err(e) => e,
        Ok(_) => "a present field has an unexpected type"@,
    }
}

proof fn lemma_first_newline_step(s: Seq<u8>, i: int)
    requires
        0 <= i < s.len(),
        s[i] != 10u8,
        forall|j: int| 0 <= j < i ==> s[j] != 10u8,
    ensures
        match first_newline(s.skip(i + 1)) {
            None => first_newline(s) is None,
            Some(k) => first_newline(s) == Some(k + i + 1),
        },
    decreases i,
{
    if i == 0 {
        assert(s.drop_first() =~= s.skip(1));
    } else {
        assert(s.drop_first() =~= s.skip(1));
        lemma_first_newline_step(s.skip(1), i - 1);
        assert(s.skip(1).skip(i) =~= s.skip(i + 1));
    }
}

/// Index of the first line-break byte, if any.
fn find_newline(bytes: &Vec<u8>) -> (r: Option<usize>)
    ensures
        match r {
            Some(i) => i < bytes@.len() && first_newline(bytes@) == Some(i as int),
            None => first_newline(bytes@) is None,
        },
{
    let n: usize = bytes.len();
    let mut i: usize = 0;
    while i < n
        invariant
            n == bytes@.len(),
            i <= n,
            forall|j: int| 0 <= j < i ==> bytes@[j] != 10u8,
        decreases n - i,
    {
        if bytes[i] == 10u8 {
            proof {
                if i > 0 {
                    lemma_first_newline_step(bytes@, i as int - 1);
                    assert(bytes@.skip(i as int)[0] == bytes@[i as int]);
                    assert(first_newline(bytes@.skip(i as int)) == Some(0int));
                }
            }
            return Some(i);
        }
        i += 1;
    }
    proof {
        if n > 0 {
            lemma_first_newline_step(bytes@, n as int - 1);
            assert(bytes@.skip(n as int) =~= Seq::<u8>::empty());
        }
    }
    None
}

/// Copies the byte range `[lo, hi)`.
fn byte_range(bytes: &Vec<u8>, lo: usize, hi: usize) -> (r: Vec<u8>)
    requires
        lo <= hi <= bytes@.len(),
    ensures
        r@ == bytes@.subrange(lo as int, hi as int),
{
    let mut out: Vec<u8> = Vec::new();
    let mut k: usize = lo;
    while k < hi
        invariant
            lo <= k <= hi <= bytes@.len(),
            out@ =~= bytes@.subrange(lo as int, k as int),
        decreases hi - k,
    {
        out.push(bytes[k]);
        proof {
            assert(out@ =~= bytes@.subrange(lo as int, k + 1));
        }
        k += 1;
    }
    out
}

impl IPSFile {
    /// Splits the raw bytes at the first line break and decodes the two
    /// documents, tolerantly, into the typed model. The first document is
    /// read first, as the source order has it: a broken header is reported
    /// even when the line break is missing too. Every error, diagnostic
    /// included, is a function of the bytes.
    pub fn parse(bytes: Vec<u8>) -> (r: Result<IPSFile, ParseError>)
        ensures
            r is Ok <==> parse_ok(bytes@),
            r matches Ok(file) ==> file@.header == header_v(json_doc(header_half(bytes@))->0)
                && file@.body == body_v(json_doc(body_half(bytes@))->0),
            !header_half_ok(bytes@) <==> r matches Err(ParseError::BadHeader { .. }),
            (header_half_ok(bytes@) && first_newline(bytes@) is None) <==> r matches Err(
                ParseError::MissingBody,
            ),
            (header_half_ok(bytes@) && first_newline(bytes@) is Some && !body_half_ok(bytes@))
                <==> r matches Err(ParseError::BadBody { .. }),
            r matches Err(ParseError::BadHeader { diagnostic }) ==> diagnostic@
                == half_diagnostic(header_half(bytes@)),
            r matches Err(ParseError::BadBody { diagnostic }) ==> diagnostic@ == half_diagnostic(
                body_half(bytes@),
            ),
    {
        let total: usize = bytes.len();
        let seam_found = find_newline(&bytes);
        let header_end: usize = match seam_found {
            Some(i) => i,
            None => total,
        };
        let header_bytes = byte_range(&bytes, 0, header_end);
        proof {
            assert(header_bytes@ =~= header_half(bytes@));
        }
        let header_json = match json_parse(&header_bytes) {
            Ok(v) => v,
            Err(diagnostic) => {
                return Err(ParseError::BadHeader { diagnostic });
            },
        };
        let header = match decode_header(&header_json) {
            Ok(h) => h,
            Err(()) => {
                return Err(
                    ParseError::BadHeader {
                        diagnostic: String::from_str("a present field has an unexpected type"),
                    },
                );
            },
        };
        let seam = match seam_found {
            Some(i) => i,
            None => {
                return Err(ParseError::MissingBody);
            },
        };
        let body_bytes = byte_range(&bytes, seam + 1, total);
        proof {
            assert(body_bytes@ =~= body_half(bytes@));
        }
        let body_json = match json_parse(&body_bytes) {
            Ok(v) => v,
            Err(diagnostic) => {
                return Err(ParseError::BadBody { diagnostic });
            },
        };
        let body = match decode_body(&body_json) {
            Ok(b) => b,
            Err(()) => {
                return Err(
                    ParseError::BadBody {
                        diagnostic: String::from_str("a present field has an unexpected type"),
                    },
                );
            },
        };
        Ok(IPSFile { header, body })
    }

    /// The thread named by the body's faulting-thread index, or nothing
    /// when the index is absent or out of range.
    pub fn faulting_thread(&self) -> (r: Option<&Thread>)
        ensures
            match r {
                Some(t) => self.body.faulting_thread matches Some(ix) && 0 <= ix
                    < self.body.threads@.len() && t@ == self@.body.threads[ix as int],
                None => self.body.faulting_thread is None || (self.body.faulting_thread matches
                    Some(ix) && !(0 <= ix < self.body.threads@.len())),
            },
    {
        match self.body.faulting_thread {
            None => None,
            Some(ix) => {
                let n: usize = self.body.threads.len();
                if ix >= 0 && (ix as u64) < (n as u64) {
                    Some(&self.body.threads[ix as usize])
                } else {
                    None
                }
            },
        }
    }
}

} // verus!
