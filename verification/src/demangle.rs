use vstd::prelude::*;

verus! {

/// The text with every mangled compiler symbol replaced by its
/// human-readable form; text with no mangled symbol stands unchanged.
pub uninterp spec fn demangled(s: Seq<char>) -> Seq<char>;

/// Relies on rustc_demangle::demangle_stream: a pure line-oriented text
/// transform whose result depends on the input text alone. On in-memory
/// buffers of valid text the stream cannot fail.
#[verifier::external_body]
pub fn demangle_text(s: &str) -> (r: String)
    ensures
        r@ == demangled(s@),
{
    let mut input = std::io::BufReader::new(s.as_bytes());
    let mut out: Vec<u8> = Vec::new();
    let _ = rustc_demangle::demangle_stream(&mut input, &mut out, false);
    String::from_utf8_lossy(&out).into_owned()
}

} // verus!
